use crate::errors::ContinuumError;
use crate::state::{FifoState, FifoStateView, Pubkey};
use vstd::prelude::*;

verus! {

/// What the initialization of the sequencer works on.
#[derive(Clone, Debug, PartialEq, Eq)]
pub struct Initialize {
    /// The global record, if the host already holds one.
    pub fifo_state: Option<FifoState>,
    /// Who initializes, and will administer the sequencer.
    pub admin: Pubkey,
}

/// Creates the global record, once: the counter at zero, the caller as
/// administrator, not paused, no relayers. Where the record exists already
/// the call is refused as unauthorized and changes nothing.
pub fn initialize(ctx: &mut Initialize) -> (answer: Result<(), ContinuumError>)
    ensures
        match answer {
            Ok(_) => {
                &&& old(ctx).fifo_state is None
                &&& final(ctx).fifo_state matches Some(created)
                &&& created@ == FifoStateView::initial(old(ctx).admin)
                &&& created@.wf()
                &&& final(ctx).admin == old(ctx).admin
            },
            Err(error) => {
                &&& old(ctx).fifo_state is Some
                &&& error == ContinuumError::Unauthorized
                &&& *final(ctx) == *old(ctx)
            },
        },
{
    if ctx.fifo_state.is_some() {
        return Err(ContinuumError::Unauthorized);
    }
    ctx.fifo_state = Some(
        FifoState {
            current_sequence: 0,
            admin: ctx.admin,
            emergency_pause: false,
            authorized_relayers: Vec::new(),
        },
    );
    Ok(())
}

} // verus!
