//! The sessions of all destinations.
//!
//! A [`SessionRegistry`] maps a destination's key to its one live session.
//! Sessions are made on first use and leave the registry when they are
//! stopped or when they have lain idle for a grace period. Each session that
//! is made gets an instance number above that of every session made before,
//! and a [`SessionHandle`] names a session by key and instance: a handle that
//! outlives its session reaches nothing, also where the key has a new session
//! by then. In the same way the tokens of a session that is made begin after
//! every token of the sessions that have left, so that a late signal for an
//! earlier session is stale for every later one.
//!
//! Times are plain numbers on a clock of the caller's choice.

use crate::item::PlaylistItem;
use crate::session::{
    AdvanceOutcome, EnqueueError, Enqueued, FailureOutcome, Session, SessionModel, TrackToken,
};
use std::collections::HashMap;
use vstd::prelude::*;

verus! {

/// Names a destination.
pub type SessionKey = u64;

/// A point in time, in units of the caller's choice, on a clock that does
/// not go back.
pub type Timestamp = u64;

/// Names one session of a registry: the destination and the instance.
#[derive(Clone, Copy, Debug, PartialEq, Eq, Structural)]
pub struct SessionHandle {
    pub key: SessionKey,
    pub instance: u64,
}

/// What a registry holds for one destination, as a mathematical value.
pub struct EntryModel {
    pub session: SessionModel,
    /// The number under which the session was made.
    pub instance: nat,
    /// When the session was last used.
    pub last_activity: u64,
}

/// The state of a registry as a mathematical value.
pub struct RegistryModel {
    pub sessions: Map<u64, EntryModel>,
    /// The instance number of the next session to be made.
    pub next_instance: nat,
    /// The highest token of the sessions that have left the registry. The
    /// tokens of a session that is made begin after it.
    pub retired_token: nat,
}

impl RegistryModel {
    /// A registry without sessions.
    pub open spec fn empty() -> RegistryModel {
        RegistryModel { sessions: Map::empty(), next_instance: 0, retired_token: 0 }
    }

    /// The invariant of a registry: each session it holds is well formed and
    /// not stopped, and was numbered before the next instance number.
    pub open spec fn wf(self) -> bool {
        forall|key: u64| #[trigger]
            self.sessions.contains_key(key) ==> {
                &&& self.sessions[key].session.wf()
                &&& !(self.sessions[key].session.state is Stopped)
                &&& self.sessions[key].instance < self.next_instance
            }
    }

    /// Whether `handle` names a session that the registry holds.
    pub open spec fn is_live(self, handle: SessionHandle) -> bool {
        &&& self.sessions.contains_key(handle.key)
        &&& self.sessions[handle.key].instance == handle.instance
    }

    /// The handle of the session at `key`.
    pub open spec fn handle_of(self, key: u64) -> SessionHandle
        recommends
            self.sessions.contains_key(key),
    {
        SessionHandle { key, instance: self.sessions[key].instance as u64 }
    }

    /// Whether one more session can be numbered.
    pub open spec fn has_instance_room(self) -> bool {
        self.next_instance < u64::MAX
    }

    /// Whether the session at `key`, if there is one, can give out one more
    /// token.
    pub open spec fn has_token_room(self, key: u64) -> bool {
        self.sessions.contains_key(key) ==> self.sessions[key].session.has_token_room()
    }

    /// The registry with the session at `key` replaced by `session`, used at
    /// `now`.
    pub open spec fn with_session(self, key: u64, session: SessionModel, now: u64) -> RegistryModel
        recommends
            self.sessions.contains_key(key),
    {
        RegistryModel {
            sessions: self.sessions.insert(
                key,
                EntryModel { session, instance: self.sessions[key].instance, last_activity: now },
            ),
            ..self
        }
    }

    /// The state after `get_or_create(key, now)`: a session that is there is
    /// kept and marked as used; else a new one is put in under the next
    /// instance number, with tokens that begin after those of every session
    /// that has left.
    pub open spec fn get_or_create(self, key: u64, now: u64) -> RegistryModel {
        if self.sessions.contains_key(key) {
            self.with_session(key, self.sessions[key].session, now)
        } else {
            RegistryModel {
                sessions: self.sessions.insert(
                    key,
                    EntryModel {
                        session: SessionModel::fresh_after(self.retired_token),
                        instance: self.next_instance,
                        last_activity: now,
                    },
                ),
                next_instance: self.next_instance + 1,
                ..self
            }
        }
    }

    /// The state after `enqueue(handle, item, now)`: unchanged where the
    /// handle is dead; else the session takes the item.
    pub open spec fn enqueue(self, handle: SessionHandle, item: PlaylistItem, now: u64)
        -> RegistryModel {
        if self.is_live(handle) {
            self.with_session(handle.key, self.sessions[handle.key].session.enqueue(item), now)
        } else {
            self
        }
    }

    /// What `enqueue(handle, item, now)` reports.
    pub open spec fn enqueue_outcome(self, handle: SessionHandle, item: PlaylistItem) -> Result<
        Enqueued,
        EnqueueError,
    > {
        if self.is_live(handle) {
            self.sessions[handle.key].session.enqueue_outcome(item)
        } else {
            Err(EnqueueError::NoSession)
        }
    }

    /// The state after `advance(key, token, now)`: unchanged where the key has
    /// no session or the token is stale; else the session advances.
    pub open spec fn advance(self, key: u64, token: nat, now: u64) -> RegistryModel {
        if self.sessions.contains_key(key) && self.sessions[key].session.is_current(token) {
            self.with_session(key, self.sessions[key].session.advance(token), now)
        } else {
            self
        }
    }

    /// What `advance(key, token, now)` reports.
    pub open spec fn advance_outcome(self, key: u64, token: nat) -> Option<AdvanceOutcome> {
        if self.sessions.contains_key(key) {
            Some(self.sessions[key].session.advance_outcome(token))
        } else {
            None
        }
    }

    /// The state after `start_failed(key, token, now)`: unchanged where the
    /// key has no session or the token is stale; else the session takes note
    /// of the failure.
    pub open spec fn start_failed(self, key: u64, token: nat, now: u64) -> RegistryModel {
        if self.sessions.contains_key(key) && self.sessions[key].session.is_current(token) {
            self.with_session(key, self.sessions[key].session.start_failed(token), now)
        } else {
            self
        }
    }

    /// What `start_failed(key, token, now)` reports.
    pub open spec fn start_failed_outcome(self, key: u64, token: nat) -> Option<FailureOutcome> {
        if self.sessions.contains_key(key) {
            Some(self.sessions[key].session.start_failed_outcome(token))
        } else {
            None
        }
    }

    /// The state after `skip(key, now)`.
    pub open spec fn skip(self, key: u64, now: u64) -> RegistryModel {
        if self.sessions.contains_key(key) {
            self.with_session(key, self.sessions[key].session.skip(), now)
        } else {
            self
        }
    }

    /// What `skip(key, now)` reports.
    pub open spec fn skip_outcome(self, key: u64) -> Option<AdvanceOutcome> {
        if self.sessions.contains_key(key) {
            Some(self.sessions[key].session.skip_outcome())
        } else {
            None
        }
    }

    /// The state after `pause(key, now)`.
    pub open spec fn pause(self, key: u64, now: u64) -> RegistryModel {
        if self.sessions.contains_key(key) {
            self.with_session(key, self.sessions[key].session.pause(), now)
        } else {
            self
        }
    }

    /// The state after `resume(key, now)`.
    pub open spec fn resume(self, key: u64, now: u64) -> RegistryModel {
        if self.sessions.contains_key(key) {
            self.with_session(key, self.sessions[key].session.resume(), now)
        } else {
            self
        }
    }

    /// The registry without the session at `key`. The session's tokens count
    /// as seen from then on.
    pub open spec fn without(self, key: u64) -> RegistryModel {
        if self.sessions.contains_key(key) {
            RegistryModel {
                sessions: self.sessions.remove(key),
                retired_token: if self.sessions[key].session.token > self.retired_token {
                    self.sessions[key].session.token
                } else {
                    self.retired_token
                },
                ..self
            }
        } else {
            self
        }
    }

    /// The state after `stop(key)`: the key has no session.
    pub open spec fn stop(self, key: u64) -> RegistryModel {
        self.without(key)
    }

    /// Whether `remove_if_idle(key, deadline)` removes the session at `key`:
    /// it is there, nothing is playing, loaded or queued in it, and it was
    /// last used before `deadline`.
    pub open spec fn is_evictable(self, key: u64, deadline: u64) -> bool {
        &&& self.sessions.contains_key(key)
        &&& self.sessions[key].session.is_vacant()
        &&& self.sessions[key].last_activity < deadline
    }

    /// The state after `remove_if_idle(key, deadline)`.
    pub open spec fn remove_if_idle(self, key: u64, deadline: u64) -> RegistryModel {
        if self.is_evictable(key, deadline) {
            self.without(key)
        } else {
            self
        }
    }
}

/// What the registry keeps for one destination.
#[derive(Debug)]
struct Entry {
    session: Session,
    instance: u64,
    last_activity: u64,
}

impl View for Entry {
    type V = EntryModel;

    closed spec fn view(&self) -> EntryModel {
        EntryModel {
            session: self.session@,
            instance: self.instance as nat,
            last_activity: self.last_activity,
        }
    }
}

/// The sessions of all destinations, at most one for each key.
#[derive(Debug)]
pub struct SessionRegistry {
    sessions: HashMap<u64, Entry>,
    next_instance: u64,
    retired_token: TrackToken,
}

impl View for SessionRegistry {
    type V = RegistryModel;

    closed spec fn view(&self) -> RegistryModel {
        RegistryModel {
            sessions: Map::new(
                |key: u64| self.sessions@.contains_key(key),
                |key: u64| self.sessions@[key]@,
            ),
            next_instance: self.next_instance as nat,
            retired_token: self.retired_token as nat,
        }
    }
}

impl Default for SessionRegistry {
    fn default() -> (r: SessionRegistry)
        ensures
            r@ == RegistryModel::empty(),
            r.wf(),
    {
        SessionRegistry::new()
    }
}

impl SessionRegistry {
    /// Whether the registry's invariant holds.
    pub open spec fn wf(&self) -> bool {
        self@.wf()
    }

    /// A registry without sessions.
    pub fn new() -> (r: SessionRegistry)
        ensures
            r@ == RegistryModel::empty(),
            r.wf(),
    {
        let r = SessionRegistry { sessions: HashMap::new(), next_instance: 0, retired_token: 0 };
        assert(r@.sessions =~= Map::empty());
        r
    }

    /// Takes the entry at `key` out of the table.
    fn take(&mut self, key: SessionKey) -> (taken: Option<Entry>)
        ensures
            final(self).next_instance == old(self).next_instance,
            final(self).retired_token == old(self).retired_token,
            final(self)@.sessions == old(self)@.sessions.remove(key),
            match taken {
                Some(entry) => old(self)@.sessions.contains_key(key) && entry@ == old(
                    self,
                )@.sessions[key],
                None => !old(self)@.sessions.contains_key(key),
            },
    {
        self.sessions.remove(&key)
    }

    /// Puts `entry` into the table at `key`.
    fn put(&mut self, key: SessionKey, entry: Entry)
        ensures
            final(self).next_instance == old(self).next_instance,
            final(self).retired_token == old(self).retired_token,
            final(self)@.sessions == old(self)@.sessions.insert(key, entry@),
    {
        let _ = self.sessions.insert(key, entry);
    }

    /// Takes the session at `key` out of the registry for good and counts its
    /// tokens as seen.
    fn retire(&mut self, key: SessionKey) -> (retired: Option<Session>)
        ensures
            final(self)@ == old(self)@.without(key),
            match retired {
                Some(session) => old(self)@.sessions.contains_key(key) && session@ == old(
                    self,
                )@.sessions[key].session,
                None => !old(self)@.sessions.contains_key(key),
            },
    {
        match self.take(key) {
            Some(entry) => {
                if entry.session.track_token() > self.retired_token {
                    self.retired_token = entry.session.track_token();
                }
                Some(entry.session)
            },
            None => {
                assert(self@.sessions =~= old(self)@.sessions);
                None
            },
        }
    }

    /// The handle of the session at `key`. Where the key has none, a new idle
    /// session is put in first, in the same step. Either way the session is
    /// marked as used at `now`.
    pub fn get_or_create(&mut self, key: SessionKey, now: Timestamp) -> (handle: SessionHandle)
        requires
            old(self).wf(),
            old(self)@.has_instance_room(),
        ensures
            final(self).wf(),
            final(self)@ == old(self)@.get_or_create(key, now),
            handle == final(self)@.handle_of(key),
            final(self)@.is_live(handle),
    {
        let ghost before = self@;
        match self.take(key) {
            Some(entry) => {
                let instance = entry.instance;
                self.put(key, Entry { session: entry.session, instance, last_activity: now });
                assert(self@.sessions =~= before.get_or_create(key, now).sessions);
                SessionHandle { key, instance }
            },
            None => {
                let instance = self.next_instance;
                let session = Session::starting_after(self.retired_token);
                self.put(key, Entry { session, instance, last_activity: now });
                self.next_instance = instance + 1;
                assert(self@.sessions =~= before.get_or_create(key, now).sessions);
                SessionHandle { key, instance }
            },
        }
    }

    /// Removes the session at `key` where it is there, holds nothing and was
    /// last used before `deadline`; else changes nothing. Returns whether it
    /// removed one.
    pub fn remove_if_idle(&mut self, key: SessionKey, deadline: Timestamp) -> (removed: bool)
        requires
            old(self).wf(),
        ensures
            final(self).wf(),
            final(self)@ == old(self)@.remove_if_idle(key, deadline),
            removed == old(self)@.is_evictable(key, deadline),
    {
        let evictable = match self.sessions.get(&key) {
            Some(entry) => entry.session.is_vacant() && entry.last_activity < deadline,
            None => false,
        };
        if evictable {
            let _ = self.retire(key);
        }
        evictable
    }

    /// Hands `item` to the session that `handle` names. A handle whose
    /// session has left the registry reaches nothing: the item is dropped and
    /// `NoSession` reported, whatever else the key holds by then.
    pub fn enqueue(&mut self, handle: SessionHandle, item: PlaylistItem, now: Timestamp) -> (r:
        Result<Enqueued, EnqueueError>)
        requires
            old(self).wf(),
            old(self)@.has_token_room(handle.key),
        ensures
            final(self).wf(),
            final(self)@ == old(self)@.enqueue(handle, item, now),
            r == old(self)@.enqueue_outcome(handle, item),
    {
        let ghost before = self@;
        match self.take(handle.key) {
            Some(entry) => {
                let Entry { mut session, instance, last_activity } = entry;
                if instance == handle.instance {
                    let r = session.enqueue(item);
                    self.put(handle.key, Entry { session, instance, last_activity: now });
                    assert(self@.sessions =~= before.enqueue(handle, item, now).sessions);
                    r
                } else {
                    self.put(handle.key, Entry { session, instance, last_activity });
                    assert(self@.sessions =~= before.sessions);
                    Err(EnqueueError::NoSession)
                }
            },
            None => {
                assert(self@.sessions =~= before.sessions);
                Err(EnqueueError::NoSession)
            },
        }
    }

    /// Reports the end of the playback `token` to the session at `key`.
    /// Returns `None` where the key has no session. A stale token changes
    /// nothing, not even the time of last use.
    pub fn advance(&mut self, key: SessionKey, token: TrackToken, now: Timestamp) -> (r: Option<
        AdvanceOutcome,
    >)
        requires
            old(self).wf(),
            old(self)@.has_token_room(key),
        ensures
            final(self).wf(),
            final(self)@ == old(self)@.advance(key, token as nat, now),
            r == old(self)@.advance_outcome(key, token as nat),
    {
        let ghost before = self@;
        match self.take(key) {
            Some(entry) => {
                let Entry { mut session, instance, last_activity } = entry;
                let outcome = session.advance(token);
                let used = match outcome {
                    AdvanceOutcome::Stale => last_activity,
                    _ => now,
                };
                self.put(key, Entry { session, instance, last_activity: used });
                assert(self@.sessions =~= before.advance(key, token as nat, now).sessions);
                Some(outcome)
            },
            None => {
                assert(self@.sessions =~= before.sessions);
                None
            },
        }
    }

    /// Reports to the session at `key` that the playback `token` could not be
    /// started. Returns `None` where the key has no session. A stale token
    /// changes nothing, not even the time of last use.
    pub fn start_failed(&mut self, key: SessionKey, token: TrackToken, now: Timestamp) -> (r:
        Option<FailureOutcome>)
        requires
            old(self).wf(),
            old(self)@.has_token_room(key),
        ensures
            final(self).wf(),
            final(self)@ == old(self)@.start_failed(key, token as nat, now),
            r == old(self)@.start_failed_outcome(key, token as nat),
    {
        let ghost before = self@;
        match self.take(key) {
            Some(entry) => {
                let Entry { mut session, instance, last_activity } = entry;
                let outcome = session.start_failed(token);
                let used = match outcome {
                    FailureOutcome::Stale => last_activity,
                    _ => now,
                };
                self.put(key, Entry { session, instance, last_activity: used });
                assert(self@.sessions =~= before.start_failed(key, token as nat, now).sessions);
                Some(outcome)
            },
            None => {
                assert(self@.sessions =~= before.sessions);
                None
            },
        }
    }

    /// Skips the current track of the session at `key`. Returns `None` where
    /// the key has no session.
    pub fn skip(&mut self, key: SessionKey, now: Timestamp) -> (r: Option<AdvanceOutcome>)
        requires
            old(self).wf(),
            old(self)@.has_token_room(key),
        ensures
            final(self).wf(),
            final(self)@ == old(self)@.skip(key, now),
            r == old(self)@.skip_outcome(key),
    {
        let ghost before = self@;
        match self.take(key) {
            Some(entry) => {
                let Entry { mut session, instance, last_activity } = entry;
                let outcome = session.skip();
                self.put(key, Entry { session, instance, last_activity: now });
                assert(self@.sessions =~= before.skip(key, now).sessions);
                Some(outcome)
            },
            None => {
                assert(self@.sessions =~= before.sessions);
                None
            },
        }
    }

    /// Pauses the session at `key`. Returns whether the caller has to pause
    /// the transport: a session is there and was playing.
    pub fn pause(&mut self, key: SessionKey, now: Timestamp) -> (changed: bool)
        requires
            old(self).wf(),
        ensures
            final(self).wf(),
            final(self)@ == old(self)@.pause(key, now),
            changed == (old(self)@.sessions.contains_key(key) && old(
                self,
            )@.sessions[key].session.state is Playing),
    {
        let ghost before = self@;
        match self.take(key) {
            Some(entry) => {
                let Entry { mut session, instance, last_activity } = entry;
                let changed = session.pause();
                self.put(key, Entry { session, instance, last_activity: now });
                assert(self@.sessions =~= before.pause(key, now).sessions);
                changed
            },
            None => {
                assert(self@.sessions =~= before.sessions);
                false
            },
        }
    }

    /// Resumes the session at `key`. Returns whether the caller has to resume
    /// the transport: a session is there and was paused.
    pub fn resume(&mut self, key: SessionKey, now: Timestamp) -> (changed: bool)
        requires
            old(self).wf(),
        ensures
            final(self).wf(),
            final(self)@ == old(self)@.resume(key, now),
            changed == (old(self)@.sessions.contains_key(key) && old(
                self,
            )@.sessions[key].session.state is Paused),
    {
        let ghost before = self@;
        match self.take(key) {
            Some(entry) => {
                let Entry { mut session, instance, last_activity } = entry;
                let changed = session.resume();
                self.put(key, Entry { session, instance, last_activity: now });
                assert(self@.sessions =~= before.resume(key, now).sessions);
                changed
            },
            None => {
                assert(self@.sessions =~= before.sessions);
                false
            },
        }
    }

    /// Stops the session at `key` and takes it out of the registry. Returns
    /// whether there was one, that is, whether the caller has a transport
    /// connection to release.
    pub fn stop(&mut self, key: SessionKey) -> (release: bool)
        requires
            old(self).wf(),
        ensures
            final(self).wf(),
            final(self)@ == old(self)@.stop(key),
            release == old(self)@.sessions.contains_key(key),
    {
        match self.retire(key) {
            Some(mut session) => session.stop(),
            None => false,
        }
    }

    /// Whether `handle` names a session that the registry holds.
    pub fn is_live(&self, handle: SessionHandle) -> (b: bool)
        ensures
            b == self@.is_live(handle),
    {
        match self.sessions.get(&handle.key) {
            Some(entry) => entry.instance == handle.instance,
            None => false,
        }
    }

    /// The session at `key`, if there is one.
    pub fn session(&self, key: SessionKey) -> (s: Option<&Session>)
        ensures
            s is Some <==> self@.sessions.contains_key(key),
            s matches Some(session) ==> session@ == self@.sessions[key].session,
    {
        match self.sessions.get(&key) {
            Some(entry) => Some(&entry.session),
            None => None,
        }
    }

    /// The handle of the session at `key`, if there is one.
    pub fn handle(&self, key: SessionKey) -> (h: Option<SessionHandle>)
        ensures
            h == if self@.sessions.contains_key(key) {
                Some(self@.handle_of(key))
            } else {
                None
            },
    {
        match self.sessions.get(&key) {
            Some(entry) => Some(SessionHandle { key, instance: entry.instance }),
            None => None,
        }
    }

    /// How many sessions the registry holds.
    pub fn len(&self) -> (n: usize)
        ensures
            n == self@.sessions.len(),
    {
        assert(self@.sessions.dom() =~= self.sessions@.dom());
        self.sessions.len()
    }

    /// Whether one more session can be numbered, as `get_or_create` requires.
    pub fn has_instance_room(&self) -> (b: bool)
        ensures
            b == self@.has_instance_room(),
    {
        self.next_instance < u64::MAX
    }

    /// Whether the session at `key`, if there is one, can give out one more
    /// token, as the operations that may start a track require.
    pub fn has_token_room(&self, key: SessionKey) -> (b: bool)
        ensures
            b == self@.has_token_room(key),
    {
        match self.sessions.get(&key) {
            Some(entry) => entry.session.has_token_room(),
            None => true,
        }
    }
}

} // verus!
