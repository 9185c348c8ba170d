//! Chat sessions and messages as the database holds them.

use crate::clock::Timestamp;
use crate::ids::Uuid;
use vstd::prelude::*;

verus! {

#[derive(Debug)]
pub struct ChatSessionRow {
    pub id: Uuid,
    pub tenant_id: Uuid,
    pub user_id: Option<Uuid>,
    pub runtime: String,
    pub status: String,
    pub trace_id: String,
    pub created_at: Timestamp,
    pub last_activity_at: Timestamp,
    pub ended_at: Option<Timestamp>,
}

#[derive(Debug)]
pub struct ChatMessageRow {
    pub id: Uuid,
    pub session_id: Uuid,
    pub seq: i32,
    pub role: String,
    pub body: String,
    pub created_at: Timestamp,
}

} // verus!
