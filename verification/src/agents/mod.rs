//! Agent sessions.

pub mod access;
pub mod events;
pub mod events_history;
pub mod events_ingest;
pub mod events_ndjson;
pub mod session_lifecycle;
pub mod session_queries;
pub mod sessions;
pub mod sessions_patch;
