use crate::errors::ContinuumError;
use crate::state::{FifoState, Pubkey};
use vstd::prelude::*;

verus! {

/// What the pause switch works on.
#[derive(Clone, Debug, PartialEq, Eq)]
pub struct SetPause {
    pub fifo_state: FifoState,
    /// Who asks.
    pub admin: Pubkey,
}

/// Sets the pause switch. While it is set, no order is submitted and no
/// immediate swap is made. Only the administrator may ask; anyone else is
/// refused as unauthorized, and nothing changes.
pub fn set_pause(ctx: &mut SetPause, paused: bool) -> (answer: Result<(), ContinuumError>)
    ensures
        match answer {
            Ok(_) => {
                &&& old(ctx).admin == old(ctx).fifo_state.admin
                &&& final(ctx).fifo_state@ == old(ctx).fifo_state@.with_pause(paused)
                &&& final(ctx).admin == old(ctx).admin
            },
            Err(error) => {
                &&& old(ctx).admin != old(ctx).fifo_state.admin
                &&& error == ContinuumError::Unauthorized
                &&& *final(ctx) == *old(ctx)
            },
        },
{
    if ctx.admin != ctx.fifo_state.admin {
        return Err(ContinuumError::Unauthorized);
    }
    ctx.fifo_state.emergency_pause = paused;
    Ok(())
}

} // verus!
