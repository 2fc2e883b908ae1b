//! What holds of every registry, proved over [`RegistryModel`].
//!
//! The executable methods of [`crate::registry::SessionRegistry`] make
//! exactly the model's steps, so each law here holds of every run of a
//! registry.

use crate::item::PlaylistItem;
use crate::registry::{RegistryModel, SessionHandle};
use crate::session::{EnqueueError, Enqueued};
use vstd::prelude::*;

verus! {

/// One call on a registry.
pub enum RegistryOperation {
    GetOrCreate { key: u64, now: u64 },
    Enqueue { handle: SessionHandle, item: PlaylistItem, now: u64 },
    Advance { key: u64, token: nat, now: u64 },
    StartFailed { key: u64, token: nat, now: u64 },
    Skip { key: u64, now: u64 },
    Pause { key: u64, now: u64 },
    Resume { key: u64, now: u64 },
    Stop { key: u64 },
    RemoveIfIdle { key: u64, deadline: u64 },
}

/// The state after one call.
pub open spec fn apply(r: RegistryModel, op: RegistryOperation) -> RegistryModel {
    match op {
        RegistryOperation::GetOrCreate { key, now } => r.get_or_create(key, now),
        RegistryOperation::Enqueue { handle, item, now } => r.enqueue(handle, item, now),
        RegistryOperation::Advance { key, token, now } => r.advance(key, token, now),
        RegistryOperation::StartFailed { key, token, now } => r.start_failed(key, token, now),
        RegistryOperation::Skip { key, now } => r.skip(key, now),
        RegistryOperation::Pause { key, now } => r.pause(key, now),
        RegistryOperation::Resume { key, now } => r.resume(key, now),
        RegistryOperation::Stop { key } => r.stop(key),
        RegistryOperation::RemoveIfIdle { key, deadline } => r.remove_if_idle(key, deadline),
    }
}

/// The state after a run of calls, the first of `ops` made first.
pub open spec fn apply_all(r: RegistryModel, ops: Seq<RegistryOperation>) -> RegistryModel
    decreases ops.len(),
{
    if ops.len() == 0 {
        r
    } else {
        apply(apply_all(r, ops.drop_last()), ops.last())
    }
}

/// The state after `get_or_create` was called for `key` once at each of
/// `times`.
pub open spec fn get_or_create_all(r: RegistryModel, key: u64, times: Seq<u64>) -> RegistryModel
    decreases times.len(),
{
    if times.len() == 0 {
        r
    } else {
        get_or_create_all(r, key, times.drop_last()).get_or_create(key, times.last())
    }
}

/// Every call keeps the registry's invariant and never takes back an
/// instance number.
pub proof fn law_step_keeps_invariant(r: RegistryModel, op: RegistryOperation)
    requires
        r.wf(),
    ensures
        apply(r, op).wf(),
        apply(r, op).next_instance >= r.next_instance,
{
}

/// The invariant holds in every state that calls can reach from an empty
/// registry.
pub proof fn law_invariant_always_holds(ops: Seq<RegistryOperation>)
    ensures
        apply_all(RegistryModel::empty(), ops).wf(),
    decreases ops.len(),
{
    if ops.len() > 0 {
        law_invariant_always_holds(ops.drop_last());
        law_step_keeps_invariant(apply_all(RegistryModel::empty(), ops.drop_last()), ops.last());
    }
}

/// `get_or_create` for a key that has a session hands out that session: the
/// same handle, the session as it was, and no session is made.
pub proof fn law_get_or_create_finds_existing(r: RegistryModel, key: u64, now: u64)
    requires
        r.sessions.contains_key(key),
    ensures
        r.get_or_create(key, now).handle_of(key) == r.handle_of(key),
        r.get_or_create(key, now).sessions[key].session == r.sessions[key].session,
        r.get_or_create(key, now).sessions.dom() == r.sessions.dom(),
        r.get_or_create(key, now).next_instance == r.next_instance,
{
    assert(r.get_or_create(key, now).sessions.dom() =~= r.sessions.dom());
}

/// However often `get_or_create` is called for one key, every call hands out
/// the handle that the first call handed out, and the registry holds one
/// session for the key.
pub proof fn law_get_or_create_gives_one_session(r: RegistryModel, key: u64, times: Seq<u64>)
    requires
        times.len() > 0,
    ensures
        get_or_create_all(r, key, times).sessions.contains_key(key),
        get_or_create_all(r, key, times).handle_of(key) == r.get_or_create(key, times[0]).handle_of(
            key,
        ),
        get_or_create_all(r, key, times).sessions[key].session == r.get_or_create(
            key,
            times[0],
        ).sessions[key].session,
        get_or_create_all(r, key, times).sessions.dom() == r.sessions.dom().insert(key),
    decreases times.len(),
{
    let before = get_or_create_all(r, key, times.drop_last());
    if times.len() == 1 {
        assert(before == r);
        assert(r.get_or_create(key, times[0]).sessions.dom() =~= r.sessions.dom().insert(key));
    } else {
        law_get_or_create_gives_one_session(r, key, times.drop_last());
        law_get_or_create_finds_existing(before, key, times.last());
        assert(times.drop_last()[0] == times[0]);
    }
}

/// A handle that was given out and names no session now will never name one:
/// no call brings a session back under an old instance number.
pub proof fn law_dead_handle_stays_dead(
    r: RegistryModel,
    handle: SessionHandle,
    op: RegistryOperation,
)
    requires
        r.wf(),
        handle.instance < r.next_instance,
        !r.is_live(handle),
    ensures
        !apply(r, op).is_live(handle),
{
}

/// Stopping is final: once the session that a handle names was stopped, no
/// run of calls makes the handle live again, and an item enqueued by it is
/// refused and changes nothing, also where the key has a new session by then.
pub proof fn law_stopped_session_is_never_reached(
    r: RegistryModel,
    handle: SessionHandle,
    ops: Seq<RegistryOperation>,
    item: PlaylistItem,
    now: u64,
)
    requires
        r.wf(),
        r.is_live(handle),
    ensures
        !apply_all(r.stop(handle.key), ops).is_live(handle),
        apply_all(r.stop(handle.key), ops).enqueue(handle, item, now) == apply_all(
            r.stop(handle.key),
            ops,
        ),
        apply_all(r.stop(handle.key), ops).enqueue_outcome(handle, item) == Err::<
            Enqueued,
            EnqueueError,
        >(EnqueueError::NoSession),
{
    lemma_stays_dead(r.stop(handle.key), handle, ops);
}

/// Whether no playback of the session at `key`, now or later, can go under
/// `token`: the tokens that the registry has seen reach `token`, and so do
/// those of the session that the key has, short of its current playback.
pub open spec fn is_spent(r: RegistryModel, key: u64, token: nat) -> bool {
    &&& r.retired_token >= token
    &&& r.sessions.contains_key(key) ==> {
        &&& r.sessions[key].session.token >= token
        &&& r.sessions[key].session.current is Some ==> r.sessions[key].session.token > token
    }
}

/// The signals of a session that has left the registry, stopped or removed
/// as idle, reach no later session of its destination: whatever is called
/// afterwards, and whether or not the destination has a new session by
/// then, the end or the failure of a playback of the old session is stale
/// and changes nothing.
pub proof fn law_signals_of_removed_sessions_are_stale(
    r: RegistryModel,
    key: u64,
    token: nat,
    ops: Seq<RegistryOperation>,
    now: u64,
)
    requires
        r.wf(),
        r.sessions.contains_key(key),
        token <= r.sessions[key].session.token,
    ensures
        apply_all(r.without(key), ops).advance(key, token, now) == apply_all(r.without(key), ops),
        apply_all(r.without(key), ops).start_failed(key, token, now) == apply_all(
            r.without(key),
            ops,
        ),
{
    lemma_without_keeps_invariant(r, key);
    lemma_stays_spent(r.without(key), key, token, ops);
}

/// Taking a session out keeps the registry's invariant.
proof fn lemma_without_keeps_invariant(r: RegistryModel, key: u64)
    requires
        r.wf(),
    ensures
        r.without(key).wf(),
{
    law_step_keeps_invariant(r, RegistryOperation::Stop { key });
}

/// A token that is spent stays spent, whatever is called.
proof fn lemma_stays_spent(r: RegistryModel, key: u64, token: nat, ops: Seq<RegistryOperation>)
    requires
        r.wf(),
        is_spent(r, key, token),
    ensures
        apply_all(r, ops).wf(),
        is_spent(apply_all(r, ops), key, token),
    decreases ops.len(),
{
    if ops.len() > 0 {
        lemma_stays_spent(r, key, token, ops.drop_last());
        let before = apply_all(r, ops.drop_last());
        law_step_keeps_invariant(before, ops.last());
    }
}

/// [`law_dead_handle_stays_dead`] over a run of calls.
proof fn lemma_stays_dead(r: RegistryModel, handle: SessionHandle, ops: Seq<RegistryOperation>)
    requires
        r.wf(),
        handle.instance < r.next_instance,
        !r.is_live(handle),
    ensures
        apply_all(r, ops).wf(),
        handle.instance < apply_all(r, ops).next_instance,
        !apply_all(r, ops).is_live(handle),
    decreases ops.len(),
{
    if ops.len() > 0 {
        lemma_stays_dead(r, handle, ops.drop_last());
        let before = apply_all(r, ops.drop_last());
        law_step_keeps_invariant(before, ops.last());
        law_dead_handle_stays_dead(before, handle, ops.last());
    }
}

} // verus!
