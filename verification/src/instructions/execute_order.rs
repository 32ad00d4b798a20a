use crate::derivation::{derive_pool_authority, pool_authority};
use crate::errors::ContinuumError;
use crate::forwarding::{
    answer_view, authority_signer_seeds, signer_seeds, swap_account_metas, swap_accounts,
    swap_data, swap_instruction_data, ForwardedCall, ForwardedCallView,
};
use crate::state::{
    AccountInfo, Clock, CpSwapPoolRegistry, FifoState, OrderExecuted, OrderState, OrderStatus,
    Pubkey, TokenAccount,
};
use vstd::prelude::*;

verus! {

/// What the execution of an order works on.
#[derive(Clone, Debug, PartialEq, Eq)]
pub struct ExecuteOrder {
    /// The address of this program, under which pool authorities are derived.
    pub program_id: Pubkey,
    pub fifo_state: FifoState,
    /// The order to execute, if the host found one.
    pub order_state: Option<OrderState>,
    /// The registration of the order's pool, if the host found one.
    pub pool_registry: Option<CpSwapPoolRegistry>,
    /// The relayer that asks for the execution.
    pub executor: Pubkey,
    /// The token account that pays.
    pub user_source: TokenAccount,
    /// The token account that receives, as it stands before the swap.
    pub user_destination: TokenAccount,
    /// The AMM program that the swap is forwarded to.
    pub cp_swap_program: Pubkey,
    /// The accounts handed through to the AMM, in the order it expects.
    pub remaining_accounts: Vec<AccountInfo>,
    pub clock: Clock,
}

impl ExecuteOrder {
    /// Why the execution under `expected_sequence` is refused, or `None`
    /// where it may go ahead. The first rule that fails decides: the order
    /// exists; it carries the expected sequence number; it is pending; its
    /// pool is registered and active; the executor is on the allow-list; both
    /// token accounts belong to the order's owner.
    pub open spec fn refusal(self, expected_sequence: u64) -> Option<ContinuumError> {
        match self.order_state {
            None => Some(ContinuumError::OrderNotFound),
            Some(order) => if order.sequence != expected_sequence {
                Some(ContinuumError::InvalidSequence)
            } else if order.status != OrderStatus::Pending {
                Some(ContinuumError::InvalidOrderStatus)
            } else if !CpSwapPoolRegistry::serves(self.pool_registry, order.pool_id) {
                Some(ContinuumError::PoolNotRegistered)
            } else if !self.fifo_state@.is_relayer(self.executor) {
                Some(ContinuumError::Unauthorized)
            } else if self.user_source.owner != order.user || self.user_destination.owner
                != order.user {
                Some(ContinuumError::Unauthorized)
            } else {
                None
            },
        }
    }

    /// The swap that is forwarded for `order` once the authority of its pool
    /// was derived as `derived`. Without an authority there is no call.
    pub open spec fn swap_call(self, order: OrderState, derived: Option<(Pubkey, u8)>) -> Result<
        ForwardedCallView,
        ContinuumError,
    > {
        match derived {
            None => Err(ContinuumError::InvalidPoolConfig),
            Some((authority, bump)) => Ok(
                ForwardedCallView {
                    program_id: self.cp_swap_program,
                    accounts: swap_accounts(
                        authority,
                        self.user_source.key,
                        self.user_destination.key,
                        self.remaining_accounts@,
                    ),
                    data: swap_data(order.is_base_input, order.amount_in, order.min_amount_out),
                    signer_seeds: authority_signer_seeds(order.pool_id, bump),
                },
            ),
        }
    }

    /// What `execute_order` answers: the refusal, or the swap to forward
    /// under the authority derived for the order's pool.
    pub open spec fn forwarded(self, expected_sequence: u64) -> Result<
        ForwardedCallView,
        ContinuumError,
    > {
        match self.refusal(expected_sequence) {
            Some(error) => Err(error),
            None => self.swap_call(
                self.order_state->0,
                pool_authority(self.program_id, self.order_state->0.pool_id),
            ),
        }
    }

    /// The record of the order after its swap went through at the host's time.
    pub open spec fn settled_order(self) -> OrderState {
        self.order_state->0.finalized(OrderStatus::Executed, self.clock.unix_timestamp)
    }
}

/// Checks every rule of execution and hands back the order that may run.
pub fn check_execution(ctx: &ExecuteOrder, expected_sequence: u64) -> (checked: Result<
    OrderState,
    ContinuumError,
>)
    ensures
        match checked {
            Ok(order) => ctx.refusal(expected_sequence) is None && ctx.order_state == Some(order),
            Err(error) => ctx.refusal(expected_sequence) == Some(error),
        },
{
    let order = match ctx.order_state {
        Some(order) => order,
        None => { return Err(ContinuumError::OrderNotFound); },
    };
    if order.sequence != expected_sequence {
        return Err(ContinuumError::InvalidSequence);
    }
    if order.status != OrderStatus::Pending {
        return Err(ContinuumError::InvalidOrderStatus);
    }
    if !CpSwapPoolRegistry::is_serving(&ctx.pool_registry, &order.pool_id) {
        return Err(ContinuumError::PoolNotRegistered);
    }
    if !ctx.fifo_state.is_relayer(&ctx.executor) {
        return Err(ContinuumError::Unauthorized);
    }
    if ctx.user_source.owner != order.user || ctx.user_destination.owner != order.user {
        return Err(ContinuumError::Unauthorized);
    }
    Ok(order)
}

/// Builds the swap that is forwarded for `order`, given what the derivation
/// of its pool's authority returned.
pub fn build_swap_call(
    ctx: &ExecuteOrder,
    order: &OrderState,
    derived: Option<(Pubkey, u8)>,
) -> (built: Result<ForwardedCall, ContinuumError>)
    ensures
        answer_view(built) == ctx.swap_call(*order, derived),
{
    match derived {
        None => Err(ContinuumError::InvalidPoolConfig),
        Some((authority, bump)) => Ok(
            ForwardedCall {
                program_id: ctx.cp_swap_program,
                accounts: swap_account_metas(
                    &authority,
                    &ctx.user_source.key,
                    &ctx.user_destination.key,
                    &ctx.remaining_accounts,
                ),
                data: swap_instruction_data(order.is_base_input, order.amount_in, order.min_amount_out),
                signer_seeds: signer_seeds(&order.pool_id, bump),
            },
        ),
    }
}

/// Decides whether the order may be executed under `expected_sequence` and,
/// if so, builds the swap that the host has to forward to the AMM. Nothing
/// is changed: the order stays pending until `settle_order` records that the
/// swap went through, so a failed swap can be tried again.
pub fn execute_order(ctx: &ExecuteOrder, expected_sequence: u64) -> (answer: Result<
    ForwardedCall,
    ContinuumError,
>)
    ensures
        answer_view(answer) == ctx.forwarded(expected_sequence),
        ctx.order_state matches Some(order) && order.sequence != expected_sequence
            ==> answer matches Err(ContinuumError::InvalidSequence),
        ctx.order_state matches Some(order) && order.sequence == expected_sequence
            && order.status != OrderStatus::Pending
            ==> answer matches Err(ContinuumError::InvalidOrderStatus),
{
    match check_execution(ctx, expected_sequence) {
        Err(error) => Err(error),
        Ok(order) => {
            let derived = derive_pool_authority(&ctx.program_id, &order.pool_id);
            build_swap_call(ctx, &order, derived)
        },
    }
}

/// Records that the swap of the order went through. `destination_amount` is
/// the balance of the receiving token account as measured after the swap;
/// the amount paid out is its growth over the balance held in `ctx`, which
/// was measured before. The rules of execution are checked again, so that an
/// order is settled at most once.
pub fn settle_order(
    ctx: &mut ExecuteOrder,
    expected_sequence: u64,
    destination_amount: u64,
) -> (answer: Result<OrderExecuted, ContinuumError>)
    requires
        destination_amount >= old(ctx).user_destination.amount,
    ensures
        match answer {
            Ok(event) => {
                &&& old(ctx).refusal(expected_sequence) is None
                &&& *final(ctx) == (ExecuteOrder {
                    order_state: Some(old(ctx).settled_order()),
                    user_destination: TokenAccount {
                        amount: destination_amount,
                        ..old(ctx).user_destination
                    },
                    ..*old(ctx)
                })
                &&& event == (OrderExecuted {
                    sequence: expected_sequence,
                    user: old(ctx).order_state->0.user,
                    amount_out: (destination_amount - old(ctx).user_destination.amount) as u64,
                    executor: old(ctx).executor,
                })
            },
            Err(error) => {
                &&& old(ctx).refusal(expected_sequence) == Some(error)
                &&& *final(ctx) == *old(ctx)
            },
        },
        answer matches Ok(event) ==> event.amount_out == final(ctx).user_destination.amount
            - old(ctx).user_destination.amount,
        old(ctx).order_state matches Some(order) && order.sequence != expected_sequence
            ==> answer matches Err(ContinuumError::InvalidSequence),
        old(ctx).order_state matches Some(order) && order.sequence == expected_sequence
            && order.status != OrderStatus::Pending
            ==> answer matches Err(ContinuumError::InvalidOrderStatus),
        old(ctx).order_state matches Some(order) && order.status.is_terminal()
            ==> final(ctx).order_state == old(ctx).order_state,
        old(ctx).order_state matches Some(before) ==> final(ctx).order_state matches Some(after)
            && (after == before || before.status.may_become(after.status)),
{
    match check_execution(ctx, expected_sequence) {
        Err(error) => Err(error),
        Ok(order) => {
            let amount_out: u64 = destination_amount - ctx.user_destination.amount;
            ctx.order_state = Some(
                OrderState {
                    status: OrderStatus::Executed,
                    executed_at: Some(ctx.clock.unix_timestamp),
                    ..order
                },
            );
            ctx.user_destination.amount = destination_amount;
            Ok(
                OrderExecuted {
                    sequence: order.sequence,
                    user: order.user,
                    amount_out,
                    executor: ctx.executor,
                },
            )
        },
    }
}

/// An order is executed at most once: once its swap was settled, every
/// further attempt under the same sequence number is refused for its status,
/// whatever else the attempt brings along.
pub proof fn lemma_settled_order_is_not_executed_again(
    ctx: ExecuteOrder,
    expected_sequence: u64,
    again: ExecuteOrder,
)
    requires
        ctx.refusal(expected_sequence) is None,
        again.order_state == Some(ctx.settled_order()),
    ensures
        again.refusal(expected_sequence) == Some(ContinuumError::InvalidOrderStatus),
        again.forwarded(expected_sequence) matches Err(ContinuumError::InvalidOrderStatus),
{
}

} // verus!
