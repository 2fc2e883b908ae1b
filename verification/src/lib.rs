//! Per-destination playback queues.
//!
//! A [`session::Session`] owns the queue and the current track of one
//! streaming destination and decides what is played next. It performs no
//! input or output itself: every operation returns what the caller has to ask
//! of the transport, and the transport's answers come back as further calls.
//! A [`registry::SessionRegistry`] keeps at most one live session per
//! destination, and a [`bridge::PlaybackEventBridge`] routes the transport's
//! end-of-track signals to the session they belong to.
//!
//! [`item`] holds the tracks that are queued, [`resolver`] what is asked of
//! whoever turns a request into a track, and [`command`] the decisions of the
//! play command that feeds the sessions. [`session_laws`] and
//! [`registry_laws`] state and prove what holds of every session and of every
//! registry.

pub mod bridge;
pub mod command;
pub mod item;
pub mod registry;
pub mod registry_laws;
pub mod resolver;
pub mod session;
pub mod session_laws;
