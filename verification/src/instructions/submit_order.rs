use crate::errors::ContinuumError;
use crate::state::{
    Clock, CpSwapPoolRegistry, FifoState, OrderState, OrderStatus, OrderSubmitted, Pubkey,
};
use vstd::prelude::*;

verus! {

/// What the submission of an order works on.
#[derive(Clone, Debug, PartialEq, Eq)]
pub struct SubmitOrder {
    pub fifo_state: FifoState,
    /// The registration of the pool, if the host found one.
    pub pool_registry: Option<CpSwapPoolRegistry>,
    /// Who submits, and will own the order.
    pub user: Pubkey,
    /// The pool to swap in.
    pub pool_id: Pubkey,
    pub clock: Clock,
}

impl SubmitOrder {
    /// Why the submission is refused, or `None` where it may go ahead: the
    /// sequencer is not paused, and the pool is registered and active.
    pub open spec fn refusal(self) -> Option<ContinuumError> {
        if self.fifo_state.emergency_pause {
            Some(ContinuumError::EmergencyPause)
        } else if !CpSwapPoolRegistry::serves(self.pool_registry, self.pool_id) {
            Some(ContinuumError::PoolNotRegistered)
        } else {
            None
        }
    }

    /// The order that a submission creates: numbered one above the counter,
    /// pending, stamped with the host's time.
    pub open spec fn new_order(
        self,
        amount_in: u64,
        min_amount_out: u64,
        is_base_input: bool,
    ) -> OrderState {
        OrderState {
            sequence: (self.fifo_state.current_sequence + 1) as u64,
            user: self.user,
            pool_id: self.pool_id,
            amount_in,
            min_amount_out,
            is_base_input,
            status: OrderStatus::Pending,
            submitted_at: self.clock.unix_timestamp,
            executed_at: None,
        }
    }

    /// The notice of a submission.
    pub open spec fn notice(self, amount_in: u64, is_base_input: bool) -> OrderSubmitted {
        OrderSubmitted {
            sequence: (self.fifo_state.current_sequence + 1) as u64,
            user: self.user,
            pool_id: self.pool_id,
            amount_in,
            is_base_input,
        }
    }

    /// `self` after a submission went through: the counter moved by one and
    /// nothing else changed.
    pub open spec fn submitted(self, after: SubmitOrder) -> bool {
        &&& self.refusal() is None
        &&& self.fifo_state.current_sequence < u64::MAX
        &&& after.fifo_state@ == self.fifo_state@.advanced()
        &&& after.pool_registry == self.pool_registry
        &&& after.user == self.user
        &&& after.pool_id == self.pool_id
        &&& after.clock == self.clock
    }
}

/// Checks the rules of submission.
pub fn check_submission(ctx: &SubmitOrder) -> (checked: Result<(), ContinuumError>)
    ensures
        match checked {
            Ok(_) => ctx.refusal() is None,
            Err(error) => ctx.refusal() == Some(error),
        },
{
    if ctx.fifo_state.emergency_pause {
        return Err(ContinuumError::EmergencyPause);
    }
    if !CpSwapPoolRegistry::is_serving(&ctx.pool_registry, &ctx.pool_id) {
        return Err(ContinuumError::PoolNotRegistered);
    }
    Ok(())
}

/// Submits an order to the queue: hands out the next sequence number and
/// gives back the order to store under `(user, sequence)` with the notice of
/// its submission. A refused submission changes nothing.
pub fn submit_order(
    ctx: &mut SubmitOrder,
    amount_in: u64,
    min_amount_out: u64,
    is_base_input: bool,
) -> (answer: Result<(OrderState, OrderSubmitted), ContinuumError>)
    requires
        old(ctx).fifo_state.current_sequence < u64::MAX,
    ensures
        match answer {
            Ok((order, event)) => {
                &&& old(ctx).submitted(*final(ctx))
                &&& order == old(ctx).new_order(amount_in, min_amount_out, is_base_input)
                &&& event == old(ctx).notice(amount_in, is_base_input)
            },
            Err(error) => old(ctx).refusal() == Some(error) && *final(ctx) == *old(ctx),
        },
        answer matches Ok((order, _)) ==> order.sequence == old(ctx).fifo_state.current_sequence
            + 1 && final(ctx).fifo_state.current_sequence == order.sequence,
        old(ctx).fifo_state.emergency_pause ==> answer matches Err(ContinuumError::EmergencyPause),
        old(ctx).fifo_state.emergency_pause ==> final(ctx).fifo_state.current_sequence
            == old(ctx).fifo_state.current_sequence,
{
    match check_submission(ctx) {
        Err(error) => Err(error),
        Ok(_) => {
            let sequence: u64 = ctx.fifo_state.current_sequence + 1;
            ctx.fifo_state.current_sequence = sequence;
            let order = OrderState {
                sequence,
                user: ctx.user,
                pool_id: ctx.pool_id,
                amount_in,
                min_amount_out,
                is_base_input,
                status: OrderStatus::Pending,
                submitted_at: ctx.clock.unix_timestamp,
                executed_at: None,
            };
            let event = OrderSubmitted {
                sequence,
                user: ctx.user,
                pool_id: ctx.pool_id,
                amount_in,
                is_base_input,
            };
            Ok((order, event))
        },
    }
}

/// One submission that went through: the context before and after it, what
/// was asked for, and the order that came back.
pub struct Submission {
    pub before: SubmitOrder,
    pub amount_in: u64,
    pub min_amount_out: u64,
    pub is_base_input: bool,
    pub after: SubmitOrder,
    pub order: OrderState,
}

impl Submission {
    /// What `submit_order` establishes when it returns an order.
    pub open spec fn went_through(self) -> bool {
        &&& self.before.submitted(self.after)
        &&& self.order == self.before.new_order(
            self.amount_in,
            self.min_amount_out,
            self.is_base_input,
        )
    }
}

/// Whether the submission at place `i` of `steps` went through and found
/// the counter where the one before it left it, or at `start` if it is the
/// first.
pub open spec fn follows_on(start: u64, steps: Seq<Submission>, i: int) -> bool {
    &&& steps[i].went_through()
    &&& steps[i].before.fifo_state.current_sequence == if i == 0 {
        start
    } else {
        steps[i - 1].after.fifo_state.current_sequence
    }
}

/// Whether `steps` are submissions that went through one after the other on
/// a sequencer whose counter stood at `start`, with no other submission
/// between them.
pub open spec fn successive_submissions(start: u64, steps: Seq<Submission>) -> bool {
    forall|i: int| 0 <= i < steps.len() ==> #[trigger] follows_on(start, steps, i)
}

/// Among successive submissions on a fresh sequencer, the one at place `i`,
/// counted from zero, leaves the counter at `i + 1` and creates the order
/// with that sequence number.
pub proof fn lemma_submission_number(steps: Seq<Submission>, i: int)
    requires
        successive_submissions(0, steps),
        0 <= i < steps.len(),
    ensures
        steps[i].order.sequence == i + 1,
        steps[i].after.fifo_state.current_sequence == i + 1,
    decreases i,
{
    assert(follows_on(0, steps, i));
    if i > 0 {
        lemma_submission_number(steps, i - 1);
    }
}

/// After any number of successive submissions on a fresh sequencer the
/// counter equals their number, and the submission at place `i`, counted
/// from one, created the order with sequence number `i`. So no two of the
/// orders share a sequence number.
pub proof fn lemma_submissions_are_numbered(steps: Seq<Submission>)
    requires
        successive_submissions(0, steps),
    ensures
        forall|i: int| 0 <= i < steps.len() ==> (#[trigger] steps[i]).order.sequence == i + 1,
        steps.len() > 0 ==> steps.last().after.fifo_state.current_sequence == steps.len(),
        forall|i: int, j: int|
            0 <= i < j < steps.len() ==> (#[trigger] steps[i]).order.sequence != (
            #[trigger] steps[j]).order.sequence,
{
    assert forall|i: int| 0 <= i < steps.len() implies (#[trigger] steps[i]).order.sequence == i
        + 1 by {
        lemma_submission_number(steps, i);
    }
    if steps.len() > 0 {
        lemma_submission_number(steps, steps.len() - 1);
    }
}

} // verus!
