use crate::derivation::{derive_pool_authority, pool_authority};
use crate::errors::ContinuumError;
use crate::forwarding::{
    answer_view, authority_signer_seeds, create_pool_account_metas, create_pool_accounts,
    create_pool_data, create_pool_instruction_data, signer_seeds, ForwardedCall,
    ForwardedCallView,
};
use crate::state::{AccountInfo, Clock, CpSwapPoolRegistry, FifoState, PoolRegistered, Pubkey};
use vstd::prelude::*;

verus! {

/// What the registration of a pool works on.
#[derive(Clone, Debug, PartialEq, Eq)]
pub struct InitializeCpSwapPool {
    /// The address of this program, under which pool authorities are derived.
    pub program_id: Pubkey,
    pub fifo_state: FifoState,
    /// The registration of the pool, if the host already holds one.
    pub pool_registry: Option<CpSwapPoolRegistry>,
    /// Who asks for the registration.
    pub admin: Pubkey,
    /// The address of the pool that the AMM is to create.
    pub pool_state: Pubkey,
    /// The AMM program that the creation is forwarded to.
    pub cp_swap_program: Pubkey,
    /// The two assets of the pool, where the caller names them.
    pub token_0: Option<Pubkey>,
    pub token_1: Option<Pubkey>,
    /// The accounts handed through to the AMM, in the order it expects.
    pub remaining_accounts: Vec<AccountInfo>,
    pub clock: Clock,
}

impl InitializeCpSwapPool {
    /// Why the registration is refused, or `None` where it may go ahead:
    /// only the administrator registers pools, and each pool only once.
    pub open spec fn refusal(self) -> Option<ContinuumError> {
        if self.admin != self.fifo_state.admin {
            Some(ContinuumError::Unauthorized)
        } else if self.pool_registry is Some {
            Some(ContinuumError::PoolAlreadyRegistered)
        } else {
            None
        }
    }

    /// The pool creation that is forwarded once the authority of the pool
    /// was derived as `derived`. Without an authority there is no call.
    pub open spec fn create_pool_call(
        self,
        init_amount_0: u64,
        init_amount_1: u64,
        open_time: u64,
        derived: Option<(Pubkey, u8)>,
    ) -> Result<ForwardedCallView, ContinuumError> {
        match derived {
            None => Err(ContinuumError::InvalidPoolConfig),
            Some((authority, bump)) => Ok(
                ForwardedCallView {
                    program_id: self.cp_swap_program,
                    accounts: create_pool_accounts(self.remaining_accounts@),
                    data: create_pool_data(init_amount_0, init_amount_1, open_time, authority),
                    signer_seeds: authority_signer_seeds(self.pool_state, bump),
                },
            ),
        }
    }

    /// What `initialize_cp_swap_pool` answers: the refusal, or the pool
    /// creation to forward under the authority derived for the pool.
    pub open spec fn forwarded(self, init_amount_0: u64, init_amount_1: u64, open_time: u64) -> Result<
        ForwardedCallView,
        ContinuumError,
    > {
        match self.refusal() {
            Some(error) => Err(error),
            None => self.create_pool_call(
                init_amount_0,
                init_amount_1,
                open_time,
                pool_authority(self.program_id, self.pool_state),
            ),
        }
    }

    /// The registration that is stored for the pool under `authority`.
    pub open spec fn registration(self, authority: Pubkey) -> CpSwapPoolRegistry {
        CpSwapPoolRegistry {
            pool_id: self.pool_state,
            token_0: self.token_0,
            token_1: self.token_1,
            continuum_authority: authority,
            created_at: self.clock.unix_timestamp,
            is_active: true,
        }
    }
}

/// Checks the rules of registration.
pub fn check_registration(ctx: &InitializeCpSwapPool) -> (checked: Result<(), ContinuumError>)
    ensures
        match checked {
            Ok(_) => ctx.refusal() is None,
            Err(error) => ctx.refusal() == Some(error),
        },
{
    if ctx.admin != ctx.fifo_state.admin {
        return Err(ContinuumError::Unauthorized);
    }
    if ctx.pool_registry.is_some() {
        return Err(ContinuumError::PoolAlreadyRegistered);
    }
    Ok(())
}

/// Builds the pool creation that is forwarded, given what the derivation of
/// the pool's authority returned.
pub fn build_create_pool_call(
    ctx: &InitializeCpSwapPool,
    init_amount_0: u64,
    init_amount_1: u64,
    open_time: u64,
    derived: Option<(Pubkey, u8)>,
) -> (built: Result<ForwardedCall, ContinuumError>)
    ensures
        answer_view(built) == ctx.create_pool_call(init_amount_0, init_amount_1, open_time, derived),
{
    match derived {
        None => Err(ContinuumError::InvalidPoolConfig),
        Some((authority, bump)) => Ok(
            ForwardedCall {
                program_id: ctx.cp_swap_program,
                accounts: create_pool_account_metas(&ctx.remaining_accounts),
                data: create_pool_instruction_data(init_amount_0, init_amount_1, open_time, &authority),
                signer_seeds: signer_seeds(&ctx.pool_state, bump),
            },
        ),
    }
}

/// Decides whether the pool may be registered and, if so, builds the pool
/// creation that the host has to forward to the AMM, with the derived
/// authority as the pool's controlling address. Nothing is changed: the
/// registration is stored by `register_pool` once the creation went through.
pub fn initialize_cp_swap_pool(
    ctx: &InitializeCpSwapPool,
    init_amount_0: u64,
    init_amount_1: u64,
    open_time: u64,
) -> (answer: Result<ForwardedCall, ContinuumError>)
    ensures
        answer_view(answer) == ctx.forwarded(init_amount_0, init_amount_1, open_time),
{
    match check_registration(ctx) {
        Err(error) => Err(error),
        Ok(_) => {
            let derived = derive_pool_authority(&ctx.program_id, &ctx.pool_state);
            build_create_pool_call(ctx, init_amount_0, init_amount_1, open_time, derived)
        },
    }
}

/// Stores the registration of the pool under the authority that the
/// derivation returned as `derived`, if the rules allow it.
pub fn record_pool(ctx: &mut InitializeCpSwapPool, derived: Option<(Pubkey, u8)>) -> (answer: Result<
    PoolRegistered,
    ContinuumError,
>)
    ensures
        match answer {
            Ok(event) => {
                &&& old(ctx).refusal() is None
                &&& derived matches Some((authority, _))
                &&& *final(ctx) == (InitializeCpSwapPool {
                    pool_registry: Some(old(ctx).registration(authority)),
                    ..*old(ctx)
                })
                &&& event == (PoolRegistered {
                    pool_id: old(ctx).pool_state,
                    continuum_authority: authority,
                })
            },
            Err(error) => {
                &&& *final(ctx) == *old(ctx)
                &&& match old(ctx).refusal() {
                    Some(refused) => error == refused,
                    None => derived is None && error == ContinuumError::InvalidPoolConfig,
                }
            },
        },
{
    match check_registration(ctx) {
        Err(error) => Err(error),
        Ok(_) => match derived {
            None => Err(ContinuumError::InvalidPoolConfig),
            Some((authority, _)) => {
                ctx.pool_registry = Some(
                    CpSwapPoolRegistry {
                        pool_id: ctx.pool_state,
                        token_0: ctx.token_0,
                        token_1: ctx.token_1,
                        continuum_authority: authority,
                        created_at: ctx.clock.unix_timestamp,
                        is_active: true,
                    },
                );
                Ok(PoolRegistered { pool_id: ctx.pool_state, continuum_authority: authority })
            },
        },
    }
}

/// Records that the pool creation went through: stores the registration of
/// the pool, active, under its derived authority. The rules of registration
/// are checked again, so that a pool is registered at most once.
pub fn register_pool(ctx: &mut InitializeCpSwapPool) -> (answer: Result<PoolRegistered, ContinuumError>)
    ensures
        match answer {
            Ok(event) => {
                &&& old(ctx).refusal() is None
                &&& pool_authority(old(ctx).program_id, old(ctx).pool_state) matches Some(
                    (authority, _),
                )
                &&& *final(ctx) == (InitializeCpSwapPool {
                    pool_registry: Some(old(ctx).registration(authority)),
                    ..*old(ctx)
                })
                &&& event == (PoolRegistered {
                    pool_id: old(ctx).pool_state,
                    continuum_authority: authority,
                })
            },
            Err(error) => {
                &&& *final(ctx) == *old(ctx)
                &&& match old(ctx).refusal() {
                    Some(refused) => error == refused,
                    None => pool_authority(old(ctx).program_id, old(ctx).pool_state) is None
                        && error == ContinuumError::InvalidPoolConfig,
                }
            },
        },
        old(ctx).pool_registry is Some ==> final(ctx).pool_registry == old(ctx).pool_registry,
{
    let derived = derive_pool_authority(&ctx.program_id, &ctx.pool_state);
    record_pool(ctx, derived)
}

} // verus!
