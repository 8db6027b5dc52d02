//! Per-guild playback coordination: a queue of tracks for every voice
//! session, the track that is playing, and the transitions between them.
//!
//! Everything here is a pure transition on plain values. The caller owns the
//! locks, the network and the audio engine: it performs what a transition
//! hands back (a handle to stop, a track to acquire a source for) and reports
//! the result to the next transition.

pub mod time;
pub mod track;
pub mod session;
pub mod store;
pub mod skip;
pub mod resolve;
pub mod play;
pub mod text;
pub mod events;
pub mod commands;
pub mod listing;
pub mod search;
pub mod permission;
pub mod laws;
pub mod request;
