use crate::errors::ContinuumError;
use crate::forwarding::{
    authority_signer_seeds, immediate_swap_account_metas, immediate_swap_accounts, signer_seeds,
    swap_data, swap_instruction_data, ForwardedCall, ForwardedCallView,
};
use crate::state::{AccountInfo, FifoState, Pubkey};
use vstd::prelude::*;

verus! {

/// What an immediate swap works on. No order is stored for it.
#[derive(Clone, Debug, PartialEq, Eq)]
pub struct SwapImmediate {
    pub fifo_state: FifoState,
    /// The relayer that asks for the swap.
    pub relayer: Pubkey,
    /// The AMM program that the swap is forwarded to.
    pub cp_swap_program: Pubkey,
    /// The accounts handed through to the AMM, in the order it expects. The
    /// first one is the party that swaps.
    pub remaining_accounts: Vec<AccountInfo>,
}

/// The notice of an immediate swap.
#[derive(Clone, Copy, Debug, PartialEq, Eq)]
pub struct SwapExecuted {
    pub sequence: u64,
    pub pool_id: Pubkey,
    pub amount_in: u64,
    pub user: Pubkey,
    pub relayer: Pubkey,
    pub is_base_input: bool,
}

impl SwapImmediate {
    /// Why the immediate swap is refused, or `None` where it may go ahead:
    /// the sequencer is not paused, the caller is on the allow-list, and the
    /// party that swaps is named.
    pub open spec fn refusal(self) -> Option<ContinuumError> {
        if self.fifo_state.emergency_pause {
            Some(ContinuumError::EmergencyPause)
        } else if !self.fifo_state@.is_relayer(self.relayer) {
            Some(ContinuumError::Unauthorized)
        } else if self.remaining_accounts@.len() == 0 {
            Some(ContinuumError::Unauthorized)
        } else {
            None
        }
    }

    /// The swap that is forwarded, signed for the authority of `pool_id`
    /// with the bump seed that the caller names.
    pub open spec fn swap_call(
        self,
        amount_in: u64,
        min_amount_out: u64,
        is_base_input: bool,
        pool_id: Pubkey,
        pool_authority_bump: u8,
    ) -> ForwardedCallView {
        ForwardedCallView {
            program_id: self.cp_swap_program,
            accounts: immediate_swap_accounts(self.remaining_accounts@),
            data: swap_data(is_base_input, amount_in, min_amount_out),
            signer_seeds: authority_signer_seeds(pool_id, pool_authority_bump),
        }
    }

    /// The notice of the swap, numbered with the next sequence number.
    pub open spec fn notice(self, amount_in: u64, is_base_input: bool, pool_id: Pubkey) -> SwapExecuted {
        SwapExecuted {
            sequence: (self.fifo_state.current_sequence + 1) as u64,
            pool_id,
            amount_in,
            user: self.remaining_accounts@[0].key,
            relayer: self.relayer,
            is_base_input,
        }
    }
}

/// Checks the rules of an immediate swap.
pub fn check_immediate_swap(ctx: &SwapImmediate) -> (checked: Result<(), ContinuumError>)
    ensures
        match checked {
            Ok(_) => ctx.refusal() is None,
            Err(error) => ctx.refusal() == Some(error),
        },
{
    if ctx.fifo_state.emergency_pause {
        return Err(ContinuumError::EmergencyPause);
    }
    if !ctx.fifo_state.is_relayer(&ctx.relayer) {
        return Err(ContinuumError::Unauthorized);
    }
    if ctx.remaining_accounts.len() == 0 {
        return Err(ContinuumError::Unauthorized);
    }
    Ok(())
}

/// Decides whether the relayer may swap at once and, if so, builds the swap
/// that the host has to forward to the AMM. Nothing is changed: the counter
/// moves when `settle_swap` records that the swap went through.
pub fn swap_immediate(
    ctx: &SwapImmediate,
    amount_in: u64,
    min_amount_out: u64,
    is_base_input: bool,
    pool_id: Pubkey,
    pool_authority_bump: u8,
) -> (answer: Result<ForwardedCall, ContinuumError>)
    ensures
        match answer {
            Ok(call) => ctx.refusal() is None && call@ == ctx.swap_call(
                amount_in,
                min_amount_out,
                is_base_input,
                pool_id,
                pool_authority_bump,
            ),
            Err(error) => ctx.refusal() == Some(error),
        },
{
    match check_immediate_swap(ctx) {
        Err(error) => Err(error),
        Ok(_) => Ok(
            ForwardedCall {
                program_id: ctx.cp_swap_program,
                accounts: immediate_swap_account_metas(&ctx.remaining_accounts),
                data: swap_instruction_data(is_base_input, amount_in, min_amount_out),
                signer_seeds: signer_seeds(&pool_id, pool_authority_bump),
            },
        ),
    }
}

/// Records that the immediate swap went through: hands out the next sequence
/// number for the audit trail and gives the notice of the swap. The rules
/// are checked again; a refused swap leaves the counter where it was.
pub fn settle_swap(
    ctx: &mut SwapImmediate,
    amount_in: u64,
    is_base_input: bool,
    pool_id: Pubkey,
) -> (answer: Result<SwapExecuted, ContinuumError>)
    requires
        old(ctx).fifo_state.current_sequence < u64::MAX,
    ensures
        match answer {
            Ok(event) => {
                &&& old(ctx).refusal() is None
                &&& event == old(ctx).notice(amount_in, is_base_input, pool_id)
                &&& final(ctx).fifo_state@ == old(ctx).fifo_state@.advanced()
                &&& final(ctx).relayer == old(ctx).relayer
                &&& final(ctx).cp_swap_program == old(ctx).cp_swap_program
                &&& final(ctx).remaining_accounts == old(ctx).remaining_accounts
            },
            Err(error) => old(ctx).refusal() == Some(error) && *final(ctx) == *old(ctx),
        },
{
    match check_immediate_swap(ctx) {
        Err(error) => Err(error),
        Ok(_) => {
            let sequence: u64 = ctx.fifo_state.current_sequence + 1;
            ctx.fifo_state.current_sequence = sequence;
            Ok(
                SwapExecuted {
                    sequence,
                    pool_id,
                    amount_in,
                    user: ctx.remaining_accounts[0].key,
                    relayer: ctx.relayer,
                    is_base_input,
                },
            )
        },
    }
}

} // verus!
