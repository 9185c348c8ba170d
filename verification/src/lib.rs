//! The decisions of a multi-tenant control API: who may do what, which checks
//! come first, what is written, what is answered. The functions here compute on
//! plain values; the surrounding service performs the reads and writes they ask
//! for.

pub mod admin;
pub mod agent_sessions;
pub mod agents;
pub mod auth;
pub mod auth_oauth;
pub mod auth_password_reset;
pub mod caller;
pub mod chat;
pub mod clock;
pub mod digest;
pub mod error;
pub mod github;
pub mod health;
pub mod ids;
pub mod ingest;
pub mod json;
pub mod jwt;
pub mod mcp;
pub mod state_token;
pub mod text;
