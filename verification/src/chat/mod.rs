//! Chat sessions.

pub mod db;
pub mod events;
pub mod messages;
pub mod sessions;
