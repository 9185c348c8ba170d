//! Shows a session.

use crate::caller::{any_session, require_session, AuthContext};
use crate::clock::Timestamp;
use crate::error::AppError;
use crate::ids::Uuid;
use vstd::prelude::*;

verus! {

/// A session as the database holds it.
#[derive(Debug)]
pub struct StoredSession {
    pub id: Uuid,
    pub tenant_id: Uuid,
    pub runtime: String,
    pub input_prompt: String,
    pub workspace_path: String,
    pub status: String,
    pub trace_id: Option<String>,
    pub created_at: Timestamp,
    pub started_at: Option<Timestamp>,
    pub ended_at: Option<Timestamp>,
}

#[derive(Debug)]
pub struct SessionResponse {
    pub session_id: String,
    pub tenant_id: String,
    pub runtime: String,
    pub status: String,
    pub input_prompt: String,
    pub workspace_path: String,
    pub trace_id: Option<String>,
    pub created_at: String,
    pub started_at: Option<String>,
    pub ended_at: Option<String>,
}

/// Whether `text` is the time's text, where there is a time.
pub open spec fn told(text: Option<String>, t: Option<Timestamp>) -> bool {
    match t {
        Some(x) => text matches Some(s) && s@ == x.text(),
        None => text is None,
    }
}

impl SessionResponse {
    /// Whether this shows `row`.
    pub open spec fn shows(&self, row: StoredSession) -> bool {
        &&& self.session_id@ == row.id.text()
        &&& self.tenant_id@ == row.tenant_id.text()
        &&& self.runtime == row.runtime
        &&& self.status == row.status
        &&& self.input_prompt == row.input_prompt
        &&& self.workspace_path == row.workspace_path
        &&& self.trace_id == row.trace_id
        &&& self.created_at@ == row.created_at.text()
        &&& told(self.started_at, row.started_at)
        &&& told(self.ended_at, row.ended_at)
    }
}

/// A time's text, where there is a time.
fn time_text(t: &Option<Timestamp>) -> (text: Option<String>)
    ensures
        told(text, *t),
{
    match t {
        Some(x) => Some(x.to_text()),
        None => None,
    }
}

/// What to do next.
#[derive(Debug)]
pub enum GetAction {
    /// Look the session up, among those of the tenant.
    Find { id: Uuid, tenant_id: Uuid },
    /// Answer.
    Answer(SessionResponse),
    /// Refuse.
    Refuse(AppError),
}

/// The next step of showing a session, given the row once it was looked for.
pub fn get_session(auth: &AuthContext, session_id: Uuid, row: Option<Option<StoredSession>>) -> (action: GetAction)
    ensures
        match any_session(*auth) {
            Err(e) => action == GetAction::Refuse(e),
            Ok(session) => match row {
                None => action == (GetAction::Find { id: session_id, tenant_id: session.tenant_id }),
                Some(None) => action == GetAction::Refuse(AppError::NotFound),
                Some(Some(found)) => action matches GetAction::Answer(r) && r.shows(found),
            },
        },
        action matches GetAction::Answer(r) ==> {
            let found = row->0->0;
            &&& row matches Some(Some(_))
            &&& r.session_id@ == found.id.text()
            &&& r.tenant_id@ == found.tenant_id.text()
            &&& r.runtime == found.runtime
            &&& r.status == found.status
            &&& r.input_prompt == found.input_prompt
            &&& r.workspace_path == found.workspace_path
            &&& r.trace_id == found.trace_id
            &&& r.created_at@ == found.created_at.text()
            &&& r.started_at is Some == found.started_at is Some
            &&& r.started_at matches Some(t) ==> t@ == found.started_at->0.text()
            &&& r.ended_at is Some == found.ended_at is Some
            &&& r.ended_at matches Some(t) ==> t@ == found.ended_at->0.text()
        },
{
    let session = match require_session(auth) {
        Err(e) => return GetAction::Refuse(e),
        Ok(s) => s,
    };
    match row {
        None => GetAction::Find { id: session_id, tenant_id: session.tenant_id },
        Some(None) => GetAction::Refuse(AppError::NotFound),
        Some(Some(found)) => {
            let created_at = found.created_at.to_text();
            let started_at = time_text(&found.started_at);
            let ended_at = time_text(&found.ended_at);
            GetAction::Answer(
                SessionResponse {
                    session_id: found.id.to_text(),
                    tenant_id: found.tenant_id.to_text(),
                    runtime: found.runtime,
                    status: found.status,
                    input_prompt: found.input_prompt,
                    workspace_path: found.workspace_path,
                    trace_id: found.trace_id,
                    created_at,
                    started_at,
                    ended_at,
                },
            )
        },
    }
}

} // verus!
