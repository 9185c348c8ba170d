//! Registration of the platform's own GitHub App.

pub mod app_callback;
pub mod app_manifest;
pub mod app_status;
