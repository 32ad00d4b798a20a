use crate::errors::ContinuumError;
use crate::state::{other_than, FifoState, FifoStateView, Pubkey, MAX_RELAYERS};
use vstd::prelude::*;

verus! {

/// What the admission of a relayer works on.
#[derive(Clone, Debug, PartialEq, Eq)]
pub struct AddRelayer {
    pub fifo_state: FifoState,
    /// Who asks for the admission.
    pub admin: Pubkey,
    /// The relayer to admit.
    pub new_relayer: Pubkey,
}

/// What the removal of a relayer works on.
#[derive(Clone, Debug, PartialEq, Eq)]
pub struct RemoveRelayer {
    pub fifo_state: FifoState,
    /// Who asks for the removal.
    pub admin: Pubkey,
    /// The relayer to take off the allow-list.
    pub relayer_to_remove: Pubkey,
}

impl AddRelayer {
    /// Whether the admission may go ahead: the administrator asks, the
    /// relayer is not on the allow-list yet, and the list has room.
    pub open spec fn allowed(self) -> bool {
        &&& self.admin == self.fifo_state.admin
        &&& !self.fifo_state@.is_relayer(self.new_relayer)
        &&& self.fifo_state.authorized_relayers@.len() < MAX_RELAYERS
    }
}

impl RemoveRelayer {
    /// Whether the removal may go ahead: the administrator asks.
    pub open spec fn allowed(self) -> bool {
        self.admin == self.fifo_state.admin
    }
}

/// Admits a relayer to the end of the allow-list. The call is refused as
/// unauthorized, and changes nothing, where the caller is not the
/// administrator, the relayer is on the list already, or the list is full.
pub fn add_relayer(ctx: &mut AddRelayer) -> (answer: Result<(), ContinuumError>)
    ensures
        match answer {
            Ok(_) => {
                &&& old(ctx).allowed()
                &&& final(ctx).fifo_state@ == old(ctx).fifo_state@.with_relayer(old(ctx).new_relayer)
                &&& final(ctx).admin == old(ctx).admin
                &&& final(ctx).new_relayer == old(ctx).new_relayer
            },
            Err(error) => {
                &&& !old(ctx).allowed()
                &&& error == ContinuumError::Unauthorized
                &&& *final(ctx) == *old(ctx)
            },
        },
        old(ctx).fifo_state@.wf() ==> final(ctx).fifo_state@.wf(),
{
    if ctx.admin != ctx.fifo_state.admin {
        return Err(ContinuumError::Unauthorized);
    }
    if ctx.fifo_state.is_relayer(&ctx.new_relayer) {
        return Err(ContinuumError::Unauthorized);
    }
    if ctx.fifo_state.authorized_relayers.len() >= MAX_RELAYERS {
        return Err(ContinuumError::Unauthorized);
    }
    ctx.fifo_state.authorized_relayers.push(ctx.new_relayer);
    Ok(())
}

/// Takes a relayer off the allow-list and keeps the others in their order.
/// Removing a relayer that is not on the list changes nothing and is no
/// error. Only the administrator may ask.
pub fn remove_relayer(ctx: &mut RemoveRelayer) -> (answer: Result<(), ContinuumError>)
    ensures
        match answer {
            Ok(_) => {
                &&& old(ctx).allowed()
                &&& final(ctx).fifo_state@ == old(ctx).fifo_state@.without_relayer(
                    old(ctx).relayer_to_remove,
                )
                &&& final(ctx).admin == old(ctx).admin
                &&& final(ctx).relayer_to_remove == old(ctx).relayer_to_remove
            },
            Err(error) => {
                &&& !old(ctx).allowed()
                &&& error == ContinuumError::Unauthorized
                &&& *final(ctx) == *old(ctx)
            },
        },
        answer is Ok ==> !final(ctx).fifo_state@.is_relayer(old(ctx).relayer_to_remove),
        old(ctx).fifo_state@.wf() ==> final(ctx).fifo_state@.wf(),
{
    if ctx.admin != ctx.fifo_state.admin {
        return Err(ContinuumError::Unauthorized);
    }
    let ghost before = ctx.fifo_state.authorized_relayers@;
    let ghost target = ctx.relayer_to_remove;
    let mut kept: Vec<Pubkey> = Vec::new();
    let mut i: usize = 0;
    while i < ctx.fifo_state.authorized_relayers.len()
        invariant
            i <= before.len(),
            ctx.fifo_state.authorized_relayers@ == before,
            ctx.relayer_to_remove == target,
            kept@ == before.take(i as int).filter(other_than(target)),
        decreases before.len() - i,
    {
        let held = ctx.fifo_state.authorized_relayers[i];
        proof {
            reveal(Seq::filter);
            assert(before.take(i + 1).drop_last() =~= before.take(i as int));
            assert(before.take(i + 1).last() == held);
        }
        if held != ctx.relayer_to_remove {
            kept.push(held);
        }
        i += 1;
    }
    assert(before.take(i as int) =~= before);
    proof {
        reveal(Seq::filter);
        lemma_removed_is_absent(before, target);
        if old(ctx).fifo_state@.wf() {
            lemma_removal_keeps_wf(old(ctx).fifo_state@, target);
        }
    }
    ctx.fifo_state.authorized_relayers = kept;
    Ok(())
}

/// No entry for `key` is left once it was taken out.
pub proof fn lemma_removed_is_absent(relayers: Seq<Pubkey>, key: Pubkey)
    ensures
        !relayers.filter(other_than(key)).contains(key),
{
    let other = other_than(key);
    let kept = relayers.filter(other);
    if kept.contains(key) {
        let i = choose|i: int| 0 <= i < kept.len() && kept[i] == key;
        relayers.lemma_filter_pred(other, i);
    }
}

/// Whatever is left after `key` was taken out was on the list before.
pub proof fn lemma_kept_was_held(relayers: Seq<Pubkey>, key: Pubkey, i: int)
    requires
        0 <= i < relayers.filter(other_than(key)).len(),
    ensures
        relayers.contains(relayers.filter(other_than(key))[i]),
    decreases relayers.len(),
{
    reveal(Seq::filter);
    let kept = relayers.filter(other_than(key));
    if relayers.len() > 0 {
        let rest = relayers.drop_last().filter(other_than(key));
        if i < rest.len() {
            lemma_kept_was_held(relayers.drop_last(), key, i);
            let j = choose|j: int|
                0 <= j < relayers.drop_last().len() && relayers.drop_last()[j] == rest[i];
            assert(relayers[j] == kept[i]);
        } else {
            assert(relayers[relayers.len() - 1] == kept[i]);
        }
    }
}

/// Taking a relayer out leaves a well-formed allow-list well-formed.
pub proof fn lemma_removal_keeps_wf(state: FifoStateView, key: Pubkey)
    requires
        state.wf(),
    ensures
        state.without_relayer(key).wf(),
    decreases state.authorized_relayers.len(),
{
    let other = other_than(key);
    let relayers = state.authorized_relayers;
    let kept = relayers.filter(other);
    reveal(Seq::filter);
    relayers.lemma_filter_len(other);
    if relayers.len() > 0 {
        let shorter = FifoStateView { authorized_relayers: relayers.drop_last(), ..state };
        lemma_removal_keeps_wf(shorter, key);
        let rest = relayers.drop_last().filter(other);
        if other(relayers.last()) {
            assert(kept == rest.push(relayers.last()));
            assert forall|i: int| 0 <= i < rest.len() implies rest[i] != relayers.last() by {
                lemma_kept_was_held(relayers.drop_last(), key, i);
                let j = choose|j: int|
                    0 <= j < relayers.drop_last().len() && relayers.drop_last()[j] == rest[i];
                assert(relayers[j] == rest[i]);
            }
        }
    }
}

/// Taking out a relayer that is not on the allow-list changes nothing.
pub proof fn lemma_removing_absent_changes_nothing(state: FifoStateView, key: Pubkey)
    requires
        !state.is_relayer(key),
    ensures
        state.without_relayer(key) == state,
    decreases state.authorized_relayers.len(),
{
    let other = other_than(key);
    let relayers = state.authorized_relayers;
    reveal(Seq::filter);
    if relayers.len() > 0 {
        let shorter = FifoStateView { authorized_relayers: relayers.drop_last(), ..state };
        assert(!shorter.is_relayer(key)) by {
            if shorter.is_relayer(key) {
                let j = choose|j: int|
                    0 <= j < relayers.drop_last().len() && relayers.drop_last()[j] == key;
                assert(relayers[j] == key);
            }
        }
        lemma_removing_absent_changes_nothing(shorter, key);
        assert(relayers[relayers.len() - 1] != key);
        assert(relayers.filter(other) =~= relayers);
    } else {
        assert(relayers.filter(other) =~= relayers);
    }
}

/// Admitting a relayer that was not on the allow-list and taking it out
/// again gives back the allow-list as it was.
pub proof fn lemma_remove_undoes_add(state: FifoStateView, key: Pubkey)
    requires
        !state.is_relayer(key),
    ensures
        state.with_relayer(key).without_relayer(key) == state,
{
    let other = other_than(key);
    let grown = state.authorized_relayers.push(key);
    reveal(Seq::filter);
    assert(grown.drop_last() =~= state.authorized_relayers);
    assert(grown.last() == key);
    lemma_removing_absent_changes_nothing(state, key);
    assert(grown.filter(other) == state.authorized_relayers.filter(other));
}

/// Taking a relayer out twice is the same as taking it out once.
pub proof fn lemma_removal_is_idempotent(state: FifoStateView, key: Pubkey)
    ensures
        state.without_relayer(key).without_relayer(key) == state.without_relayer(key),
{
    lemma_removed_is_absent(state.authorized_relayers, key);
    lemma_removing_absent_changes_nothing(state.without_relayer(key), key);
}

} // verus!
