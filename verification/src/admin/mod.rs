//! Endpoints for operators.

pub mod github;
pub mod partition_maintenance;
pub mod v1;
