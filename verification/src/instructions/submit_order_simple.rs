use crate::errors::ContinuumError;
use crate::state::{Clock, CpSwapPoolRegistry, FifoState, OrderSubmitted, Pubkey, TokenAccount};
use vstd::prelude::*;

verus! {

/// What the lightweight submission works on. It stores no order: the notice
/// is all that remains of it, so it costs less and can be audited less.
#[derive(Clone, Debug, PartialEq, Eq)]
pub struct SubmitOrderSimple {
    pub fifo_state: FifoState,
    /// The registration of the pool, if the host found one.
    pub pool_registry: Option<CpSwapPoolRegistry>,
    /// Who submits.
    pub user: Pubkey,
    /// The pool to swap in.
    pub pool_id: Pubkey,
    /// The token account that will pay.
    pub user_source_token: TokenAccount,
    /// The token account that will receive.
    pub user_destination_token: TokenAccount,
    pub clock: Clock,
}

impl SubmitOrderSimple {
    /// Why the submission is refused, or `None` where it may go ahead: the
    /// sequencer is not paused, the pool is registered and active, and both
    /// token accounts belong to the submitter.
    pub open spec fn refusal(self) -> Option<ContinuumError> {
        if self.fifo_state.emergency_pause {
            Some(ContinuumError::EmergencyPause)
        } else if !CpSwapPoolRegistry::serves(self.pool_registry, self.pool_id) {
            Some(ContinuumError::PoolNotRegistered)
        } else if self.user_source_token.owner != self.user || self.user_destination_token.owner
            != self.user {
            Some(ContinuumError::Unauthorized)
        } else {
            None
        }
    }

    /// The notice of a submission.
    pub open spec fn notice(self, amount_in: u64, is_base_input: bool) -> OrderSubmitted {
        OrderSubmitted {
            sequence: (self.fifo_state.current_sequence + 1) as u64,
            user: self.user,
            pool_id: self.pool_id,
            amount_in,
            is_base_input,
        }
    }
}

/// Submits an order without storing it: hands out the next sequence number
/// and gives the notice from which the order can be rebuilt off the ledger.
/// The least amount to receive is not part of the notice. A refused
/// submission changes nothing.
pub fn submit_order_simple(
    ctx: &mut SubmitOrderSimple,
    amount_in: u64,
    _min_amount_out: u64,
    is_base_input: bool,
) -> (answer: Result<OrderSubmitted, ContinuumError>)
    requires
        old(ctx).fifo_state.current_sequence < u64::MAX,
    ensures
        match answer {
            Ok(event) => {
                &&& old(ctx).refusal() is None
                &&& event == old(ctx).notice(amount_in, is_base_input)
                &&& final(ctx).fifo_state@ == old(ctx).fifo_state@.advanced()
                &&& final(ctx).pool_registry == old(ctx).pool_registry
                &&& final(ctx).user == old(ctx).user
                &&& final(ctx).pool_id == old(ctx).pool_id
                &&& final(ctx).user_source_token == old(ctx).user_source_token
                &&& final(ctx).user_destination_token == old(ctx).user_destination_token
                &&& final(ctx).clock == old(ctx).clock
            },
            Err(error) => old(ctx).refusal() == Some(error) && *final(ctx) == *old(ctx),
        },
        old(ctx).fifo_state.emergency_pause ==> answer matches Err(ContinuumError::EmergencyPause),
        old(ctx).fifo_state.emergency_pause ==> final(ctx).fifo_state.current_sequence
            == old(ctx).fifo_state.current_sequence,
{
    if ctx.fifo_state.emergency_pause {
        return Err(ContinuumError::EmergencyPause);
    }
    if !CpSwapPoolRegistry::is_serving(&ctx.pool_registry, &ctx.pool_id) {
        return Err(ContinuumError::PoolNotRegistered);
    }
    if ctx.user_source_token.owner != ctx.user || ctx.user_destination_token.owner != ctx.user {
        return Err(ContinuumError::Unauthorized);
    }
    let sequence: u64 = ctx.fifo_state.current_sequence + 1;
    ctx.fifo_state.current_sequence = sequence;
    Ok(OrderSubmitted { sequence, user: ctx.user, pool_id: ctx.pool_id, amount_in, is_base_input })
}

} // verus!
