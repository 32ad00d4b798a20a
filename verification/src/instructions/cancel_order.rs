use crate::errors::ContinuumError;
use crate::state::{Clock, OrderCancelled, OrderState, OrderStatus, Pubkey};
use vstd::prelude::*;

verus! {

/// What the cancellation of an order works on.
#[derive(Clone, Copy, Debug, PartialEq, Eq)]
pub struct CancelOrder {
    /// The order to cancel, if the host found one.
    pub order_state: Option<OrderState>,
    /// Who asks for the cancellation.
    pub user: Pubkey,
    pub clock: Clock,
}

impl CancelOrder {
    /// Why the cancellation is refused, or `None` where it may go ahead. The
    /// first rule that fails decides: the order exists; the caller owns it;
    /// it is pending. Whether its pool still takes orders plays no part.
    pub open spec fn refusal(self) -> Option<ContinuumError> {
        match self.order_state {
            None => Some(ContinuumError::OrderNotFound),
            Some(order) => if order.user != self.user {
                Some(ContinuumError::Unauthorized)
            } else if order.status != OrderStatus::Pending {
                Some(ContinuumError::InvalidOrderStatus)
            } else {
                None
            },
        }
    }

    /// The record of the order after its cancellation at the host's time.
    pub open spec fn cancelled_order(self) -> OrderState {
        self.order_state->0.finalized(OrderStatus::Cancelled, self.clock.unix_timestamp)
    }
}

/// Cancels a pending order for its owner. A refused cancellation changes
/// nothing.
pub fn cancel_order(ctx: &mut CancelOrder) -> (answer: Result<OrderCancelled, ContinuumError>)
    ensures
        match answer {
            Ok(event) => {
                &&& old(ctx).refusal() is None
                &&& *final(ctx) == (CancelOrder {
                    order_state: Some(old(ctx).cancelled_order()),
                    ..*old(ctx)
                })
                &&& event == (OrderCancelled {
                    sequence: old(ctx).order_state->0.sequence,
                    user: old(ctx).user,
                })
            },
            Err(error) => old(ctx).refusal() == Some(error) && *final(ctx) == *old(ctx),
        },
        old(ctx).order_state matches Some(order) && order.user != old(ctx).user
            ==> answer matches Err(ContinuumError::Unauthorized),
        old(ctx).order_state matches Some(order) && order.user == old(ctx).user && order.status
            != OrderStatus::Pending ==> answer matches Err(ContinuumError::InvalidOrderStatus),
        old(ctx).order_state matches Some(order) && order.status.is_terminal()
            ==> final(ctx).order_state == old(ctx).order_state,
        old(ctx).order_state matches Some(before) ==> final(ctx).order_state matches Some(after)
            && (after == before || before.status.may_become(after.status)),
{
    let order = match ctx.order_state {
        Some(order) => order,
        None => { return Err(ContinuumError::OrderNotFound); },
    };
    if order.user != ctx.user {
        return Err(ContinuumError::Unauthorized);
    }
    if order.status != OrderStatus::Pending {
        return Err(ContinuumError::InvalidOrderStatus);
    }
    ctx.order_state = Some(
        OrderState {
            status: OrderStatus::Cancelled,
            executed_at: Some(ctx.clock.unix_timestamp),
            ..order
        },
    );
    Ok(OrderCancelled { sequence: order.sequence, user: ctx.user })
}

/// An order is cancelled at most once: once it was cancelled, every further
/// cancellation by its owner is refused for its status.
pub proof fn lemma_cancelled_order_is_not_cancelled_again(ctx: CancelOrder, again: CancelOrder)
    requires
        ctx.refusal() is None,
        again.order_state == Some(ctx.cancelled_order()),
        again.user == ctx.user,
    ensures
        again.refusal() == Some(ContinuumError::InvalidOrderStatus),
{
}

} // verus!
