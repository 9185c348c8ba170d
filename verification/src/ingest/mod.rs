//! Ingestion runs.

pub mod recent;
pub mod stages;
