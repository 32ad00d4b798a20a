use continuum_cp_swap::errors::ContinuumError;
use continuum_cp_swap::forwarding::{AccountMeta, ForwardedCall};
use continuum_cp_swap::instructions::swap_immediate::check_immediate_swap;
use continuum_cp_swap::instructions::{settle_swap, swap_immediate, SwapExecuted, SwapImmediate};
use continuum_cp_swap::state::{AccountInfo, FifoState, Pubkey};

fn imm_key(n: u8) -> Pubkey {
    Pubkey::new_from_array([n; 32])
}

fn imm_ctx() -> SwapImmediate {
    SwapImmediate {
        fifo_state: FifoState {
            current_sequence: 8,
            admin: imm_key(1),
            emergency_pause: false,
            authorized_relayers: vec![imm_key(50)],
        },
        relayer: imm_key(50),
        cp_swap_program: imm_key(90),
        remaining_accounts: vec![
            AccountInfo { key: imm_key(20), is_signer: false, is_writable: true },
            AccountInfo { key: imm_key(40), is_signer: true, is_writable: true },
            AccountInfo { key: imm_key(41), is_signer: false, is_writable: false },
        ],
    }
}

#[test]
fn immediate_swap_builds_the_exact_forwarded_swap() {
    let ctx = imm_ctx();
    let before = ctx.clone();
    assert_eq!(
        swap_immediate(&ctx, 1000, 900, false, imm_key(9), 254),
        Ok(ForwardedCall {
            program_id: imm_key(90),
            accounts: vec![
                AccountMeta { pubkey: imm_key(20), is_signer: true, is_writable: false },
                AccountMeta { pubkey: imm_key(40), is_signer: false, is_writable: true },
                AccountMeta { pubkey: imm_key(41), is_signer: false, is_writable: false },
            ],
            data: vec![
                55, 217, 98, 86, 163, 74, 180, 173, 132, 3, 0, 0, 0, 0, 0, 0, 232, 3, 0, 0, 0, 0,
                0, 0,
            ],
            signer_seeds: vec![b"cp_pool_authority".to_vec(), vec![9u8; 32], vec![254]],
        })
    );
    assert_eq!(ctx, before);
}

#[test]
fn immediate_swap_while_paused_is_refused() {
    let mut ctx = imm_ctx();
    ctx.fifo_state.emergency_pause = true;
    let before = ctx.clone();
    assert_eq!(swap_immediate(&ctx, 1, 1, true, imm_key(9), 255), Err(ContinuumError::EmergencyPause));
    assert_eq!(settle_swap(&mut ctx, 1, true, imm_key(9)), Err(ContinuumError::EmergencyPause));
    assert_eq!(ctx, before);
    ctx.relayer = imm_key(51);
    assert_eq!(swap_immediate(&ctx, 1, 1, true, imm_key(9), 255), Err(ContinuumError::EmergencyPause));
}

#[test]
fn immediate_swap_by_unlisted_caller_is_unauthorized() {
    let mut ctx = imm_ctx();
    ctx.relayer = imm_key(51);
    let before = ctx.clone();
    assert_eq!(swap_immediate(&ctx, 1, 1, true, imm_key(9), 255), Err(ContinuumError::Unauthorized));
    assert_eq!(settle_swap(&mut ctx, 1, true, imm_key(9)), Err(ContinuumError::Unauthorized));
    assert_eq!(ctx, before);
    ctx.relayer = imm_key(1);
    assert_eq!(swap_immediate(&ctx, 1, 1, true, imm_key(9), 255), Err(ContinuumError::Unauthorized));
    ctx.relayer = imm_key(20);
    assert_eq!(swap_immediate(&ctx, 1, 1, true, imm_key(9), 255), Err(ContinuumError::Unauthorized));
}

#[test]
fn immediate_swap_without_swapping_party_is_unauthorized() {
    let mut ctx = imm_ctx();
    ctx.remaining_accounts = vec![];
    assert_eq!(swap_immediate(&ctx, 1, 1, true, imm_key(9), 255), Err(ContinuumError::Unauthorized));
    assert_eq!(settle_swap(&mut ctx, 1, true, imm_key(9)), Err(ContinuumError::Unauthorized));
    assert_eq!(check_immediate_swap(&ctx), Err(ContinuumError::Unauthorized));
    assert_eq!(ctx.fifo_state.current_sequence, 8);
}

#[test]
fn settled_immediate_swap_takes_the_next_sequence_number() {
    let mut ctx = imm_ctx();
    assert_eq!(
        settle_swap(&mut ctx, 1000, true, imm_key(9)),
        Ok(SwapExecuted {
            sequence: 9,
            pool_id: imm_key(9),
            amount_in: 1000,
            user: imm_key(20),
            relayer: imm_key(50),
            is_base_input: true,
        })
    );
    assert_eq!(ctx.fifo_state.current_sequence, 9);
    let mut expected = imm_ctx();
    expected.fifo_state.current_sequence = 9;
    assert_eq!(ctx, expected);
    assert_eq!(settle_swap(&mut ctx, 5, false, imm_key(10)).unwrap().sequence, 10);
}
