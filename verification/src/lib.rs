//! Core logic of a teleoperation console: a media-graph controller that
//! ingests an RTP video stream and resolves its decoder link at negotiation
//! time, a topic-keyed command channel over a publish/subscribe transport,
//! and an input edge tracker that turns press/release events into idempotent
//! outbound commands.
//!
//! Everything here is plain data and decisions; the surrounding application
//! performs the engine, window and network calls and feeds their outcomes
//! back in as values.

pub mod caps;
pub mod channel;
pub mod graph;
pub mod queue;
pub mod text;
pub mod tracker;
