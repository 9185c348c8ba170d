//! The GitHub App, as tenants use it.

pub mod install;
pub mod repos;
