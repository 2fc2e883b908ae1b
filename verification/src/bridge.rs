//! From the transport's signals to the sessions.
//!
//! The transport knows destinations and tokens, not sessions. It reports
//! that the playback under some token at some destination has ended or has
//! failed, and the bridge passes that on to the session that the destination
//! has now. A signal for a destination without a session is dropped: that
//! happens whenever a session is stopped while a track is still ending.

use crate::registry::{RegistryModel, SessionKey, SessionRegistry, Timestamp};
use crate::session::{AdvanceOutcome, FailureOutcome, TrackToken};
use vstd::prelude::*;

verus! {

/// How a playback came to its end.
#[derive(Clone, Copy, Debug, PartialEq, Eq, Structural)]
pub enum TrackOutcome {
    /// The track played to its end.
    Ended,
    /// The transport could not play the track.
    Failed,
}

/// What the transport reports: the destination, the token of the playback,
/// and how it ended.
#[derive(Clone, Copy, Debug, PartialEq, Eq, Structural)]
pub struct TransportSignal {
    pub key: SessionKey,
    pub token: TrackToken,
    pub outcome: TrackOutcome,
}

/// What became of a signal.
#[derive(Debug, PartialEq, Eq)]
pub enum BridgeOutcome {
    /// The destination has no session; nothing changed.
    Dropped,
    /// The session was told that the track ended.
    Ended(AdvanceOutcome),
    /// The session was told that the track failed.
    Failed(FailureOutcome),
}

/// The registry after `signal` was delivered at `now`.
pub open spec fn delivered(r: RegistryModel, signal: TransportSignal, now: u64) -> RegistryModel {
    match signal.outcome {
        TrackOutcome::Ended => r.advance(signal.key, signal.token as nat, now),
        TrackOutcome::Failed => r.start_failed(signal.key, signal.token as nat, now),
    }
}

/// What delivering `signal` reports.
pub open spec fn delivery_outcome(r: RegistryModel, signal: TransportSignal) -> BridgeOutcome {
    if !r.sessions.contains_key(signal.key) {
        BridgeOutcome::Dropped
    } else {
        match signal.outcome {
            TrackOutcome::Ended => BridgeOutcome::Ended(
                r.sessions[signal.key].session.advance_outcome(signal.token as nat),
            ),
            TrackOutcome::Failed => BridgeOutcome::Failed(
                r.sessions[signal.key].session.start_failed_outcome(signal.token as nat),
            ),
        }
    }
}

/// A signal whose token is not that of the destination's current playback
/// changes nothing in the registry.
pub proof fn law_stale_signal_changes_nothing(r: RegistryModel, signal: TransportSignal, now: u64)
    requires
        r.sessions.contains_key(signal.key) ==> !r.sessions[signal.key].session.is_current(
            signal.token as nat,
        ),
    ensures
        delivered(r, signal, now) == r,
{
}

/// The entry point for the transport's signals.
pub struct PlaybackEventBridge {}

impl PlaybackEventBridge {
    /// Passes `signal` on to the session of its destination: an ended track
    /// advances the session, a failed one is counted as a failed start. A
    /// signal for a destination without a session is dropped, and one with a
    /// stale token changes nothing.
    pub fn deliver(registry: &mut SessionRegistry, signal: TransportSignal, now: Timestamp) -> (r:
        BridgeOutcome)
        requires
            old(registry).wf(),
            old(registry)@.has_token_room(signal.key),
        ensures
            final(registry).wf(),
            final(registry)@ == delivered(old(registry)@, signal, now),
            r == delivery_outcome(old(registry)@, signal),
    {
        match signal.outcome {
            TrackOutcome::Ended => match registry.advance(signal.key, signal.token, now) {
                Some(outcome) => BridgeOutcome::Ended(outcome),
                None => BridgeOutcome::Dropped,
            },
            TrackOutcome::Failed => match registry.start_failed(signal.key, signal.token, now) {
                Some(outcome) => BridgeOutcome::Failed(outcome),
                None => BridgeOutcome::Dropped,
            },
        }
    }
}

} // verus!
