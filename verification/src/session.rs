//! The playback state of one destination.
//!
//! [`SessionModel`] is the state machine as mathematics: a queue, the track
//! that is playing, the token of that playback, the phase and the count of
//! start failures in a row, with one function per operation that gives the
//! state after it and one that gives what the operation reports.
//! [`Session`] is the executable state; each of its methods is proved to make
//! exactly the model's step.
//!
//! A session never talks to the transport. Where an operation starts a track
//! it hands back a [`PlayRequest`]; the caller passes it on, and reports the
//! end of the track with [`Session::advance`] or a failed start with
//! [`Session::start_failed`]. Every method takes `&mut self`, so the calls on
//! one session are ordered one after another by whoever shares it.

use crate::item::PlaylistItem;
use std::collections::VecDeque;
use vstd::prelude::*;

verus! {

/// How many start failures in a row a session tolerates: at this many it stops
/// advancing by itself and falls back to idle.
pub const MAX_START_FAILURES: u32 = 3;

/// Tells one playback of a session from every other: each track that a
/// session starts plays under the number after the token before it, and the
/// first one of a session made by itself under 1.
pub type TrackToken = u64;

/// A place in line: 0 for the track that is playing, else the place in the
/// queue, counted from 1.
pub type QueuePosition = usize;

/// The playback phase of a session.
#[derive(Clone, Copy, Debug, PartialEq, Eq, Structural)]
pub enum PlaybackState {
    Idle,
    Playing,
    Paused,
    Stopped,
}

impl PlaybackState {
    /// Whether a track is loaded in this phase.
    pub open spec fn has_track(self) -> bool {
        self is Playing || self is Paused
    }
}

/// What the transport is asked to start: a track and the token under which
/// its end or failure is to be reported.
#[derive(Debug, PartialEq, Eq)]
pub struct PlayRequest {
    pub item: PlaylistItem,
    pub token: TrackToken,
}

/// What [`Session::enqueue`] reports of an accepted item.
#[derive(Debug, PartialEq, Eq)]
pub struct Enqueued {
    /// 0 where the item is now playing, else its place in the queue, counted
    /// from 1.
    pub position: QueuePosition,
    /// The request to pass to the transport, where playback started.
    pub start: Option<PlayRequest>,
}

/// Why an item was refused.
#[derive(Clone, Copy, Debug, PartialEq, Eq, Structural)]
pub enum EnqueueError {
    /// The session was stopped; a stopped session takes no more items.
    Stopped,
    /// The handle names no session of the registry: the session it was made
    /// for was stopped or removed.
    NoSession,
}

/// What [`Session::advance`] and [`Session::skip`] report.
#[derive(Debug, PartialEq, Eq)]
pub enum AdvanceOutcome {
    /// The token is not that of the current playback; nothing changed.
    Stale,
    /// The next track was taken from the queue and is to be started.
    Advanced(PlayRequest),
    /// Nothing is left to play.
    Idle,
}

/// What [`Session::start_failed`] reports. Each variant but `Stale` names the
/// track that could not be started, for whoever observes failures.
#[derive(Debug, PartialEq, Eq)]
pub enum FailureOutcome {
    /// The token is not that of the current playback; nothing changed.
    Stale,
    /// The next track was taken from the queue and is to be started.
    Retried { failed: PlaylistItem, next: PlayRequest },
    /// The queue was empty; the session is idle.
    Drained { failed: PlaylistItem },
    /// Too many starts failed in a row; the session is idle and what is left
    /// of the queue stays queued.
    GaveUp { failed: PlaylistItem },
}

/// The state of a session as a mathematical value.
pub struct SessionModel {
    /// The waiting tracks, the next one first.
    pub queue: Seq<PlaylistItem>,
    /// The track that is loaded, playing or paused.
    pub current: Option<PlaylistItem>,
    /// The token of the latest playback; before the first, the number after
    /// which the tokens begin, 0 in a session made by itself.
    pub token: nat,
    pub state: PlaybackState,
    /// Start failures since a track last started well.
    pub failures: nat,
}

impl SessionModel {
    /// A new session: idle, nothing queued, no token given out yet.
    pub open spec fn fresh() -> SessionModel {
        SessionModel::fresh_after(0)
    }

    /// A new session whose tokens go on after `last`: idle, nothing queued,
    /// and the first track it starts plays under the token after `last`.
    pub open spec fn fresh_after(last: nat) -> SessionModel {
        SessionModel {
            queue: Seq::empty(),
            current: None,
            token: last,
            state: PlaybackState::Idle,
            failures: 0,
        }
    }

    /// The invariant of a session: a track is loaded exactly while playing or
    /// paused, and then under a token of at least 1; failures are counted only
    /// while a track is loaded and stay under the limit; a stopped session
    /// holds nothing.
    pub open spec fn wf(self) -> bool {
        &&& self.current is Some <==> self.state.has_track()
        &&& self.current is Some ==> self.token >= 1
        &&& self.failures < MAX_START_FAILURES
        &&& self.current is None ==> self.failures == 0
        &&& self.state is Stopped ==> self.queue.len() == 0
    }

    /// Whether `token` names the playback that is going on.
    pub open spec fn is_current(self, token: nat) -> bool {
        self.current is Some && self.token == token
    }

    /// Whether one more token can be given out.
    pub open spec fn has_token_room(self) -> bool {
        self.token < u64::MAX
    }

    /// The state after the head of the queue was made the current track under
    /// the next token.
    pub open spec fn started(self) -> SessionModel
        recommends
            self.queue.len() > 0,
    {
        SessionModel {
            queue: self.queue.drop_first(),
            current: Some(self.queue[0]),
            token: self.token + 1,
            state: PlaybackState::Playing,
            failures: self.failures,
        }
    }

    /// The state after playback ended with nothing started in its place.
    pub open spec fn rested(self) -> SessionModel {
        SessionModel { current: None, state: PlaybackState::Idle, failures: 0, ..self }
    }

    /// The request for the current track.
    pub open spec fn request(self) -> PlayRequest
        recommends
            self.current is Some,
    {
        PlayRequest { item: self.current->0, token: self.token as u64 }
    }

    /// The state after `enqueue(item)`: a stopped session is unchanged; else
    /// the item is appended, and an idle session starts the head of the queue.
    pub open spec fn enqueue(self, item: PlaylistItem) -> SessionModel {
        if self.state is Stopped {
            self
        } else if self.state is Idle {
            (SessionModel { queue: self.queue.push(item), ..self }).started()
        } else {
            SessionModel { queue: self.queue.push(item), ..self }
        }
    }

    /// What `enqueue(item)` reports.
    pub open spec fn enqueue_outcome(self, item: PlaylistItem) -> Result<Enqueued, EnqueueError> {
        if self.state is Stopped {
            Err(EnqueueError::Stopped)
        } else if self.state is Idle {
            Ok(
                Enqueued {
                    position: self.queue.len() as usize,
                    start: Some(self.enqueue(item).request()),
                },
            )
        } else {
            Ok(Enqueued { position: (self.queue.len() + 1) as usize, start: None })
        }
    }

    /// The state after `advance(token)`: unchanged on a stale token; else the
    /// head of the queue is started, or the session rests where the queue is
    /// empty. A track that ended had started, so the failure count is cleared.
    pub open spec fn advance(self, token: nat) -> SessionModel {
        if !self.is_current(token) {
            self
        } else if self.queue.len() > 0 {
            (SessionModel { failures: 0, ..self }).started()
        } else {
            self.rested()
        }
    }

    /// What `advance(token)` reports.
    pub open spec fn advance_outcome(self, token: nat) -> AdvanceOutcome {
        if !self.is_current(token) {
            AdvanceOutcome::Stale
        } else if self.queue.len() > 0 {
            AdvanceOutcome::Advanced(self.advance(token).request())
        } else {
            AdvanceOutcome::Idle
        }
    }

    /// The state after `skip()`: that of advancing with the session's own
    /// token, where a track is loaded.
    pub open spec fn skip(self) -> SessionModel {
        if self.current is Some {
            self.advance(self.token)
        } else {
            self
        }
    }

    /// What `skip()` reports.
    pub open spec fn skip_outcome(self) -> AdvanceOutcome {
        if self.current is Some {
            self.advance_outcome(self.token)
        } else {
            AdvanceOutcome::Idle
        }
    }

    /// The state after `stop()`.
    pub open spec fn stop(self) -> SessionModel {
        SessionModel {
            queue: Seq::empty(),
            current: None,
            token: self.token,
            state: PlaybackState::Stopped,
            failures: 0,
        }
    }

    /// The state after `pause()`.
    pub open spec fn pause(self) -> SessionModel {
        if self.state is Playing {
            SessionModel { state: PlaybackState::Paused, ..self }
        } else {
            self
        }
    }

    /// The state after `resume()`.
    pub open spec fn resume(self) -> SessionModel {
        if self.state is Paused {
            SessionModel { state: PlaybackState::Playing, ..self }
        } else {
            self
        }
    }

    /// The state after `start_failed(token)`: unchanged on a stale token. Else
    /// the failure is counted. At the limit the session rests and keeps its
    /// queue; under it the failure stands for the end of the track.
    pub open spec fn start_failed(self, token: nat) -> SessionModel {
        if !self.is_current(token) {
            self
        } else if self.failures + 1 >= MAX_START_FAILURES {
            self.rested()
        } else if self.queue.len() > 0 {
            (SessionModel { failures: self.failures + 1, ..self }).started()
        } else {
            self.rested()
        }
    }

    /// What `start_failed(token)` reports.
    pub open spec fn start_failed_outcome(self, token: nat) -> FailureOutcome {
        if !self.is_current(token) {
            FailureOutcome::Stale
        } else if self.failures + 1 >= MAX_START_FAILURES {
            FailureOutcome::GaveUp { failed: self.current->0 }
        } else if self.queue.len() > 0 {
            FailureOutcome::Retried {
                failed: self.current->0,
                next: self.start_failed(token).request(),
            }
        } else {
            FailureOutcome::Drained { failed: self.current->0 }
        }
    }

    /// Whether nothing is playing, loaded or queued, so that the session can
    /// be disposed of.
    pub open spec fn is_vacant(self) -> bool {
        &&& self.state is Idle || self.state is Stopped
        &&& self.current is None
        &&& self.queue.len() == 0
    }
}

/// The playback state of one destination: its queue, its current track and
/// the token that tells this playback from every other of the session.
#[derive(Debug)]
pub struct Session {
    queue: VecDeque<PlaylistItem>,
    current: Option<PlaylistItem>,
    track_token: TrackToken,
    state: PlaybackState,
    failures: u32,
}

impl View for Session {
    type V = SessionModel;

    closed spec fn view(&self) -> SessionModel {
        SessionModel {
            queue: self.queue@,
            current: self.current,
            token: self.track_token as nat,
            state: self.state,
            failures: self.failures as nat,
        }
    }
}

impl Default for Session {
    fn default() -> (s: Session)
        ensures
            s@ == SessionModel::fresh(),
            s.wf(),
    {
        Session::new()
    }
}

impl Session {
    /// Whether the session's invariant holds.
    pub open spec fn wf(&self) -> bool {
        self@.wf()
    }

    /// A new idle session.
    pub fn new() -> (s: Session)
        ensures
            s@ == SessionModel::fresh(),
            s.wf(),
    {
        Session::starting_after(0)
    }

    /// A new idle session whose tokens go on after `last`. A registry makes
    /// its sessions so, after the tokens that it has seen, so that a signal
    /// for an earlier session of a destination is stale for every later one.
    pub fn starting_after(last: TrackToken) -> (s: Session)
        ensures
            s@ == SessionModel::fresh_after(last as nat),
            s.wf(),
    {
        Session {
            queue: VecDeque::new(),
            current: None,
            track_token: last,
            state: PlaybackState::Idle,
            failures: 0,
        }
    }

    /// Makes the head of the queue the current track under the next token.
    fn start_next(&mut self) -> (req: PlayRequest)
        requires
            old(self)@.queue.len() > 0,
            old(self)@.has_token_room(),
        ensures
            final(self)@ == old(self)@.started(),
            req == final(self)@.request(),
    {
        let next = self.queue.pop_front();
        let item = next.unwrap();
        let copy = item.clone();
        self.current = Some(item);
        self.track_token = self.track_token + 1;
        self.state = PlaybackState::Playing;
        PlayRequest { item: copy, token: self.track_token }
    }

    /// Ends the current playback with nothing started in its place.
    fn rest(&mut self) -> (ended: Option<PlaylistItem>)
        ensures
            final(self)@ == old(self)@.rested(),
            ended == old(self)@.current,
    {
        let ended = self.current.take();
        self.state = PlaybackState::Idle;
        self.failures = 0;
        ended
    }

    /// Appends `item` to the queue and, where the session is idle, starts the
    /// head of the queue at once. A stopped session refuses the item and stays
    /// as it is.
    pub fn enqueue(&mut self, item: PlaylistItem) -> (r: Result<Enqueued, EnqueueError>)
        requires
            old(self).wf(),
            old(self)@.has_token_room(),
        ensures
            final(self).wf(),
            final(self)@ == old(self)@.enqueue(item),
            r == old(self)@.enqueue_outcome(item),
    {
        match self.state {
            PlaybackState::Stopped => Err(EnqueueError::Stopped),
            PlaybackState::Idle => {
                let position = self.queue.len();
                self.queue.push_back(item);
                let req = self.start_next();
                Ok(Enqueued { position, start: Some(req) })
            },
            _ => {
                self.queue.push_back(item);
                Ok(Enqueued { position: self.queue.len(), start: None })
            },
        }
    }

    /// Ends the playback that `expected_token` names: starts the next queued
    /// track, or goes idle where none is queued. A token that is not the
    /// current one changes nothing.
    pub fn advance(&mut self, expected_token: TrackToken) -> (r: AdvanceOutcome)
        requires
            old(self).wf(),
            old(self)@.has_token_room(),
        ensures
            final(self).wf(),
            final(self)@ == old(self)@.advance(expected_token as nat),
            r == old(self)@.advance_outcome(expected_token as nat),
    {
        if self.current.is_none() || self.track_token != expected_token {
            AdvanceOutcome::Stale
        } else if self.queue.len() > 0 {
            self.failures = 0;
            let req = self.start_next();
            AdvanceOutcome::Advanced(req)
        } else {
            let _ = self.rest();
            AdvanceOutcome::Idle
        }
    }

    /// Advances past the current track, whatever its token. With no track
    /// loaded it changes nothing and reports `Idle`.
    pub fn skip(&mut self) -> (r: AdvanceOutcome)
        requires
            old(self).wf(),
            old(self)@.has_token_room(),
        ensures
            final(self).wf(),
            final(self)@ == old(self)@.skip(),
            r == old(self)@.skip_outcome(),
    {
        if self.current.is_some() {
            let token = self.track_token;
            self.advance(token)
        } else {
            AdvanceOutcome::Idle
        }
    }

    /// Empties the session for good. Returns whether it was live before, that
    /// is, whether the caller has a transport connection to release.
    pub fn stop(&mut self) -> (release: bool)
        requires
            old(self).wf(),
        ensures
            final(self).wf(),
            final(self)@ == old(self)@.stop(),
            release == !(old(self)@.state is Stopped),
    {
        let release = match self.state {
            PlaybackState::Stopped => false,
            _ => true,
        };
        self.queue.clear();
        self.current = None;
        self.state = PlaybackState::Stopped;
        self.failures = 0;
        release
    }

    /// Pauses a playing session. Returns whether it did, that is, whether the
    /// caller has to pause the transport.
    pub fn pause(&mut self) -> (changed: bool)
        requires
            old(self).wf(),
        ensures
            final(self).wf(),
            final(self)@ == old(self)@.pause(),
            changed == (old(self)@.state is Playing),
    {
        match self.state {
            PlaybackState::Playing => {
                self.state = PlaybackState::Paused;
                true
            },
            _ => false,
        }
    }

    /// Resumes a paused session. Returns whether it did, that is, whether the
    /// caller has to resume the transport.
    pub fn resume(&mut self) -> (changed: bool)
        requires
            old(self).wf(),
        ensures
            final(self).wf(),
            final(self)@ == old(self)@.resume(),
            changed == (old(self)@.state is Paused),
    {
        match self.state {
            PlaybackState::Paused => {
                self.state = PlaybackState::Playing;
                true
            },
            _ => false,
        }
    }

    /// Takes note that the transport could not start the playback that
    /// `token` names. The failure counts as the end of that track: the next
    /// queued track is started in its place, unless this was the last failure
    /// the session tolerates in a row, or the queue is empty; then the session
    /// goes idle. A token that is not the current one changes nothing.
    pub fn start_failed(&mut self, token: TrackToken) -> (r: FailureOutcome)
        requires
            old(self).wf(),
            old(self)@.has_token_room(),
        ensures
            final(self).wf(),
            final(self)@ == old(self)@.start_failed(token as nat),
            r == old(self)@.start_failed_outcome(token as nat),
    {
        if self.current.is_none() || self.track_token != token {
            return FailureOutcome::Stale;
        }
        let limit_reached = self.failures + 1 >= MAX_START_FAILURES;
        if !limit_reached && self.queue.len() > 0 {
            let failed = self.current.take().unwrap();
            self.failures = self.failures + 1;
            let next = self.start_next();
            FailureOutcome::Retried { failed, next }
        } else {
            let failed = self.rest().unwrap();
            if limit_reached {
                FailureOutcome::GaveUp { failed }
            } else {
                FailureOutcome::Drained { failed }
            }
        }
    }

    /// The phase the session is in.
    pub fn state(&self) -> (s: PlaybackState)
        ensures
            s == self@.state,
    {
        self.state
    }

    /// The token of the latest playback; before the first, the number after
    /// which the tokens begin.
    pub fn track_token(&self) -> (t: TrackToken)
        ensures
            t == self@.token,
    {
        self.track_token
    }

    /// The track that is loaded, if any.
    pub fn current(&self) -> (c: Option<&PlaylistItem>)
        ensures
            c is Some <==> self@.current is Some,
            c matches Some(item) ==> *item == self@.current->0,
    {
        self.current.as_ref()
    }

    /// How many tracks wait in the queue.
    pub fn queue_len(&self) -> (n: usize)
        ensures
            n == self@.queue.len(),
    {
        self.queue.len()
    }

    /// The waiting track at `index`, 0 being the next to play.
    pub fn queued(&self, index: usize) -> (q: Option<&PlaylistItem>)
        ensures
            q is Some <==> index < self@.queue.len(),
            q matches Some(item) ==> *item == self@.queue[index as int],
    {
        if index < self.queue.len() {
            Some(&self.queue[index])
        } else {
            None
        }
    }

    /// How many starts have failed in a row.
    pub fn failures(&self) -> (n: u32)
        ensures
            n == self@.failures,
    {
        self.failures
    }

    /// Whether one more token can be given out, as the operations that may
    /// start a track require.
    pub fn has_token_room(&self) -> (b: bool)
        ensures
            b == self@.has_token_room(),
    {
        self.track_token < u64::MAX
    }

    /// Whether nothing is playing, loaded or queued.
    pub fn is_vacant(&self) -> (b: bool)
        ensures
            b == self@.is_vacant(),
    {
        let resting = match self.state {
            PlaybackState::Idle => true,
            PlaybackState::Stopped => true,
            _ => false,
        };
        resting && self.current.is_none() && self.queue.len() == 0
    }
}

} // verus!
