use continuum_cp_swap::errors::ContinuumError;

#[test]
fn every_error_has_its_message() {
    let expected = [
        (ContinuumError::InvalidSequence, "Invalid sequence number"),
        (ContinuumError::OrderAlreadyExecuted, "Order already executed"),
        (ContinuumError::OrderNotFound, "Order not found"),
        (ContinuumError::Unauthorized, "Unauthorized"),
        (ContinuumError::PoolNotRegistered, "Pool not registered"),
        (ContinuumError::PoolAlreadyRegistered, "Pool already registered"),
        (ContinuumError::EmergencyPause, "Emergency pause is active"),
        (ContinuumError::InvalidPoolConfig, "Invalid pool configuration"),
        (ContinuumError::SlippageExceeded, "Slippage tolerance exceeded"),
        (ContinuumError::InvalidOrderStatus, "Invalid order status"),
    ];
    for (error, message) in expected {
        assert_eq!(error.message(), message);
    }
}

#[test]
fn errors_compare_by_kind() {
    assert_eq!(ContinuumError::Unauthorized, ContinuumError::Unauthorized);
    assert_ne!(ContinuumError::InvalidOrderStatus, ContinuumError::OrderAlreadyExecuted);
}
