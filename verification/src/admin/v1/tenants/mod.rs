//! What an operator does to one tenant.

pub mod force_delete;
pub mod impersonate;
pub mod rebind;
