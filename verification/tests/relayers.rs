use continuum_cp_swap::errors::ContinuumError;
use continuum_cp_swap::instructions::{
    add_relayer, execute_order, initialize, remove_relayer, set_pause, swap_immediate, AddRelayer,
    ExecuteOrder, Initialize, RemoveRelayer, SetPause, SwapImmediate,
};
use continuum_cp_swap::state::{
    AccountInfo, Clock, CpSwapPoolRegistry, FifoState, OrderState, OrderStatus, Pubkey,
    TokenAccount, MAX_RELAYERS,
};

fn rel_key(n: u8) -> Pubkey {
    Pubkey::new_from_array([n; 32])
}

fn rel_fresh_state(admin: Pubkey) -> FifoState {
    let mut ctx = Initialize { fifo_state: None, admin };
    initialize(&mut ctx).unwrap();
    ctx.fifo_state.unwrap()
}

fn rel_add(state: FifoState, admin: Pubkey, relayer: Pubkey) -> (FifoState, Result<(), ContinuumError>) {
    let mut ctx = AddRelayer { fifo_state: state, admin, new_relayer: relayer };
    let answer = add_relayer(&mut ctx);
    (ctx.fifo_state, answer)
}

fn rel_remove(
    state: FifoState,
    admin: Pubkey,
    relayer: Pubkey,
) -> (FifoState, Result<(), ContinuumError>) {
    let mut ctx = RemoveRelayer { fifo_state: state, admin, relayer_to_remove: relayer };
    let answer = remove_relayer(&mut ctx);
    (ctx.fifo_state, answer)
}

#[test]
fn add_relayer_appends_to_the_list() {
    let admin = rel_key(1);
    let (state, answer) = rel_add(rel_fresh_state(admin), admin, rel_key(50));
    assert_eq!(answer, Ok(()));
    let (state, answer) = rel_add(state, admin, rel_key(51));
    assert_eq!(answer, Ok(()));
    assert_eq!(state.authorized_relayers, vec![rel_key(50), rel_key(51)]);
    assert!(state.is_relayer(&rel_key(50)));
    assert!(state.is_relayer(&rel_key(51)));
    assert!(!state.is_relayer(&rel_key(52)));
    assert_eq!(state.current_sequence, 0);
    assert_eq!(state.admin, admin);
    assert!(!state.emergency_pause);
}

#[test]
fn add_relayer_twice_is_refused() {
    let admin = rel_key(1);
    let (state, _) = rel_add(rel_fresh_state(admin), admin, rel_key(50));
    let (state, answer) = rel_add(state, admin, rel_key(50));
    assert_eq!(answer, Err(ContinuumError::Unauthorized));
    assert_eq!(state.authorized_relayers, vec![rel_key(50)]);
}

#[test]
fn add_relayer_by_non_admin_is_refused() {
    let admin = rel_key(1);
    let (state, answer) = rel_add(rel_fresh_state(admin), rel_key(2), rel_key(50));
    assert_eq!(answer, Err(ContinuumError::Unauthorized));
    assert!(state.authorized_relayers.is_empty());
}

#[test]
fn add_relayer_to_full_list_is_refused() {
    let admin = rel_key(1);
    let mut state = rel_fresh_state(admin);
    for i in 0..MAX_RELAYERS {
        let (next, answer) = rel_add(state, admin, rel_key(100 + i as u8));
        assert_eq!(answer, Ok(()));
        state = next;
    }
    assert_eq!(state.authorized_relayers.len(), 16);
    let (state, answer) = rel_add(state, admin, rel_key(99));
    assert_eq!(answer, Err(ContinuumError::Unauthorized));
    assert_eq!(state.authorized_relayers.len(), 16);
    assert!(!state.is_relayer(&rel_key(99)));
    let (state, _) = rel_remove(state, admin, rel_key(100));
    let (state, answer) = rel_add(state, admin, rel_key(99));
    assert_eq!(answer, Ok(()));
    assert_eq!(state.authorized_relayers.len(), 16);
    assert_eq!(state.authorized_relayers[15], rel_key(99));
}

#[test]
fn remove_relayer_keeps_the_others_in_order() {
    let admin = rel_key(1);
    let mut state = rel_fresh_state(admin);
    for n in [50u8, 51, 52, 53] {
        state = rel_add(state, admin, rel_key(n)).0;
    }
    let (state, answer) = rel_remove(state, admin, rel_key(51));
    assert_eq!(answer, Ok(()));
    assert_eq!(state.authorized_relayers, vec![rel_key(50), rel_key(52), rel_key(53)]);
}

#[test]
fn remove_absent_relayer_changes_nothing() {
    let admin = rel_key(1);
    let (state, _) = rel_add(rel_fresh_state(admin), admin, rel_key(50));
    let (state, answer) = rel_remove(state, admin, rel_key(60));
    assert_eq!(answer, Ok(()));
    assert_eq!(state.authorized_relayers, vec![rel_key(50)]);
    let (state, answer) = rel_remove(state, admin, rel_key(50));
    assert_eq!(answer, Ok(()));
    let (state, answer) = rel_remove(state, admin, rel_key(50));
    assert_eq!(answer, Ok(()));
    assert!(state.authorized_relayers.is_empty());
}

#[test]
fn remove_relayer_takes_out_every_entry() {
    let admin = rel_key(1);
    let mut state = rel_fresh_state(admin);
    state.authorized_relayers = vec![rel_key(50), rel_key(51), rel_key(50)];
    let (state, answer) = rel_remove(state, admin, rel_key(50));
    assert_eq!(answer, Ok(()));
    assert_eq!(state.authorized_relayers, vec![rel_key(51)]);
}

#[test]
fn remove_relayer_by_non_admin_is_refused() {
    let admin = rel_key(1);
    let (state, _) = rel_add(rel_fresh_state(admin), admin, rel_key(50));
    let (state, answer) = rel_remove(state, rel_key(2), rel_key(50));
    assert_eq!(answer, Err(ContinuumError::Unauthorized));
    assert_eq!(state.authorized_relayers, vec![rel_key(50)]);
}

#[test]
fn removed_relayer_can_no_longer_execute() {
    let admin = rel_key(1);
    let relayer = rel_key(50);
    let owner = rel_key(20);
    let pool = rel_key(10);
    let (state, _) = rel_add(rel_fresh_state(admin), admin, relayer);
    let (state, _) = rel_remove(state, admin, relayer);
    assert!(state.authorized_relayers.is_empty());

    let immediate = SwapImmediate {
        fifo_state: state.clone(),
        relayer,
        cp_swap_program: rel_key(90),
        remaining_accounts: vec![AccountInfo { key: owner, is_signer: true, is_writable: false }],
    };
    assert_eq!(
        swap_immediate(&immediate, 1000, 900, true, pool, 254),
        Err(ContinuumError::Unauthorized)
    );

    let queued = ExecuteOrder {
        program_id: rel_key(7),
        fifo_state: state,
        order_state: Some(OrderState {
            sequence: 1,
            user: owner,
            pool_id: pool,
            amount_in: 1000,
            min_amount_out: 900,
            is_base_input: true,
            status: OrderStatus::Pending,
            submitted_at: 10,
            executed_at: None,
        }),
        pool_registry: Some(CpSwapPoolRegistry {
            pool_id: pool,
            token_0: None,
            token_1: None,
            continuum_authority: rel_key(200),
            created_at: 5,
            is_active: true,
        }),
        executor: relayer,
        user_source: TokenAccount { key: rel_key(30), owner, amount: 5000 },
        user_destination: TokenAccount { key: rel_key(31), owner, amount: 0 },
        cp_swap_program: rel_key(90),
        remaining_accounts: vec![],
        clock: Clock { unix_timestamp: 20 },
    };
    assert_eq!(execute_order(&queued, 1), Err(ContinuumError::Unauthorized));
}

#[test]
fn set_pause_by_admin_switches_the_flag() {
    let admin = rel_key(1);
    let mut ctx = SetPause { fifo_state: rel_fresh_state(admin), admin };
    ctx.fifo_state.current_sequence = 9;
    assert_eq!(set_pause(&mut ctx, true), Ok(()));
    assert!(ctx.fifo_state.emergency_pause);
    assert_eq!(ctx.fifo_state.current_sequence, 9);
    assert_eq!(set_pause(&mut ctx, true), Ok(()));
    assert!(ctx.fifo_state.emergency_pause);
    assert_eq!(set_pause(&mut ctx, false), Ok(()));
    assert!(!ctx.fifo_state.emergency_pause);
}

#[test]
fn set_pause_by_non_admin_is_refused() {
    let admin = rel_key(1);
    let mut ctx = SetPause { fifo_state: rel_fresh_state(admin), admin: rel_key(2) };
    assert_eq!(set_pause(&mut ctx, true), Err(ContinuumError::Unauthorized));
    assert!(!ctx.fifo_state.emergency_pause);
}
