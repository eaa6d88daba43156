//! Core of a voice-presence notification relay for a group-chat platform.
//!
//! Raw voice-state signals from a gateway also fire for mute and deafen
//! toggles, so they cannot be announced as they arrive. This crate holds the
//! verified logic that turns such a stream into announcements: a per-user
//! presence state machine that suppresses duplicate join signals
//! ([`presence`]), a registry mapping each community to the text channel that
//! receives its announcements ([`router`]), and the dispatch step that
//! connects the two and renders the announcement text ([`dispatch`]).
//!
//! Gateway connection handling, channel enumeration and message sending are
//! left to an unverified host program, which feeds plain values in and
//! performs the send an announcement asks for.
pub mod dispatch;
pub mod presence;
pub mod router;
