//! Agent sessions of the signed-in user.

pub mod create;
pub mod delete;
pub mod events;
pub mod get;
