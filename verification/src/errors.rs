use vstd::prelude::*;

verus! {

/// The reasons for which an operation is refused. A refused operation
/// changes nothing.
#[derive(Clone, Copy, Debug, PartialEq, Eq, Structural)]
pub enum ContinuumError {
    /// The sequence number that the executor expects is not the order's.
    InvalidSequence,
    /// Kept for callers that know it; an executed order is refused as
    /// `InvalidOrderStatus`.
    OrderAlreadyExecuted,
    /// There is no order to work on.
    OrderNotFound,
    /// The caller may not do what it asks for.
    Unauthorized,
    /// The pool has no registration, or its registration is not active.
    PoolNotRegistered,
    /// The pool has a registration already.
    PoolAlreadyRegistered,
    /// The sequencer is paused.
    EmergencyPause,
    /// No authority can be derived for the pool.
    InvalidPoolConfig,
    /// Kept for callers that know it; no operation compares the amount paid
    /// out with the least amount asked for.
    SlippageExceeded,
    /// The order is not pending any more.
    InvalidOrderStatus,
}

impl ContinuumError {
    /// The text shown to a caller for each kind of error.
    pub open spec fn spec_message(self) -> Seq<char> {
        match self {
            ContinuumError::InvalidSequence => "Invalid sequence number"@,
            ContinuumError::OrderAlreadyExecuted => "Order already executed"@,
            ContinuumError::OrderNotFound => "Order not found"@,
            ContinuumError::Unauthorized => "Unauthorized"@,
            ContinuumError::PoolNotRegistered => "Pool not registered"@,
            ContinuumError::PoolAlreadyRegistered => "Pool already registered"@,
            ContinuumError::EmergencyPause => "Emergency pause is active"@,
            ContinuumError::InvalidPoolConfig => "Invalid pool configuration"@,
            ContinuumError::SlippageExceeded => "Slippage tolerance exceeded"@,
            ContinuumError::InvalidOrderStatus => "Invalid order status"@,
        }
    }

    /// The text shown to a caller for this kind of error.
    pub fn message(&self) -> (text: &'static str)
        ensures
            text@ == self.spec_message(),
    {
        match self {
            ContinuumError::InvalidSequence => "Invalid sequence number",
            ContinuumError::OrderAlreadyExecuted => "Order already executed",
            ContinuumError::OrderNotFound => "Order not found",
            ContinuumError::Unauthorized => "Unauthorized",
            ContinuumError::PoolNotRegistered => "Pool not registered",
            ContinuumError::PoolAlreadyRegistered => "Pool already registered",
            ContinuumError::EmergencyPause => "Emergency pause is active",
            ContinuumError::InvalidPoolConfig => "Invalid pool configuration",
            ContinuumError::SlippageExceeded => "Slippage tolerance exceeded",
            ContinuumError::InvalidOrderStatus => "Invalid order status",
        }
    }
}

} // verus!
