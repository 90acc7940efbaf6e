//! A two-party question-room engine: it pairs two participants into a shared
//! session, walks them synchronously through an ordered pack of discussion
//! prompts, gates advancement behind a two-sided readiness barrier, records
//! per-question ratings, and tears the session down once the pack is
//! exhausted.

pub mod codec;
pub mod constants;
pub mod handlers;
pub mod helpers;
pub mod laws;
pub mod messages;
pub mod numfmt;
pub mod room;
pub mod store;
pub mod structures;
pub mod tools;
