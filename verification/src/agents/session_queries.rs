//! `GET /v1/agents/sessions` and `GET /v1/agents/sessions/{id}`: look at sessions.

use crate::caller::{require_verified_session, verified_session, AuthContext};
use crate::clock::{instant_json, opt_instant, opt_instant_json, Timestamp};
use crate::error::AppError;
use crate::ids::Uuid;
use crate::json::{self, json_of, opt_int_json, opt_str_json, Json};
use vstd::prelude::*;

verus! {

/// Most sessions that a list shows.
pub const MAX_SESSIONS: i64 = 100;

/// A session as a list shows it. It names neither the session's API key nor its system prompt.
#[derive(Debug)]
pub struct SessionItem {
    pub id: Uuid,
    pub runtime_kind: String,
    pub status: String,
    pub input_prompt_preview: String,
    pub workspace_path: String,
    pub tokens_used: i64,
    pub token_budget: i64,
    pub created_at: Timestamp,
    pub started_at: Option<Timestamp>,
    pub completed_at: Option<Timestamp>,
}

impl SessionItem {
    /// The session's fields in JSON.
    pub open spec fn fields(&self) -> Map<Seq<char>, Json> {
        map![
            "id"@ => Json::Str(self.id.text()),
            "runtime_kind"@ => Json::Str(self.runtime_kind@),
            "status"@ => Json::Str(self.status@),
            "input_prompt_preview"@ => Json::Str(self.input_prompt_preview@),
            "workspace_path"@ => Json::Str(self.workspace_path@),
            "tokens_used"@ => Json::Int(self.tokens_used as int),
            "token_budget"@ => Json::Int(self.token_budget as int),
            "created_at"@ => instant_json(self.created_at.micros),
            "started_at"@ => opt_instant_json(self.started_at),
            "completed_at"@ => opt_instant_json(self.completed_at),
        ]
    }

    /// The session in JSON.
    pub fn to_json(&self) -> (v: serde_json::Value)
        ensures
            json_of(v) == Json::Object(self.fields()),
            json_of(v) == Json::Object(
                map![
                    "id"@ => Json::Str(self.id.text()),
                    "runtime_kind"@ => Json::Str(self.runtime_kind@),
                    "status"@ => Json::Str(self.status@),
                    "input_prompt_preview"@ => Json::Str(self.input_prompt_preview@),
                    "workspace_path"@ => Json::Str(self.workspace_path@),
                    "tokens_used"@ => Json::Int(self.tokens_used as int),
                    "token_budget"@ => Json::Int(self.token_budget as int),
                    "created_at"@ => instant_json(self.created_at.micros),
                    "started_at"@ => opt_instant_json(self.started_at),
                    "completed_at"@ => opt_instant_json(self.completed_at),
                ],
            ),
    {
        let v = json::with(json::object(), "id", json::uuid(&self.id));
        let v = json::with(v, "runtime_kind", json::string(self.runtime_kind.as_str()));
        let v = json::with(v, "status", json::string(self.status.as_str()));
        let v = json::with(v, "input_prompt_preview", json::string(self.input_prompt_preview.as_str()));
        let v = json::with(v, "workspace_path", json::string(self.workspace_path.as_str()));
        let v = json::with(v, "tokens_used", json::number(self.tokens_used));
        let v = json::with(v, "token_budget", json::number(self.token_budget));
        let v = json::with(v, "created_at", self.created_at.to_json());
        let v = json::with(v, "started_at", opt_instant(&self.started_at));
        json::with(v, "completed_at", opt_instant(&self.completed_at))
    }
}

#[derive(Debug)]
pub struct ListSessionsResponse {
    pub sessions: Vec<SessionItem>,
}

impl ListSessionsResponse {
    /// The list in JSON.
    pub fn to_json(&self) -> (v: serde_json::Value)
        ensures
            json_of(v) == Json::Object(
                map!["sessions"@ => Json::Array(self.sessions@.map_values(|s: SessionItem| Json::Object(s.fields())))],
            ),
    {
        let mut items: Vec<serde_json::Value> = Vec::new();
        let mut i: usize = 0;
        while i < self.sessions.len()
            invariant
                i <= self.sessions@.len(),
                items@.len() == i,
                forall|j: int| 0 <= j < i ==> json_of(#[trigger] items@[j]) == Json::Object(self.sessions@[j].fields()),
            decreases self.sessions@.len() - i,
        {
            items.push(self.sessions[i].to_json());
            i += 1;
        }
        assert(items@.map_values(|x: serde_json::Value| json_of(x)) =~= self.sessions@.map_values(
            |s: SessionItem| Json::Object(s.fields()),
        ));
        json::with(json::object(), "sessions", json::array(items))
    }
}

/// A session in full. It names neither the session's API key nor its system prompt.
#[derive(Debug)]
pub struct SessionDetail {
    pub id: Uuid,
    pub runtime_kind: String,
    pub status: String,
    pub input_prompt_preview: String,
    pub workspace_path: String,
    pub tokens_used: i64,
    pub token_budget: i64,
    pub created_at: Timestamp,
    pub started_at: Option<Timestamp>,
    pub completed_at: Option<Timestamp>,
    pub pid: Option<i32>,
    pub exit_code: Option<i32>,
    pub failed_at: Option<Timestamp>,
    pub failure_reason: Option<String>,
}

impl SessionDetail {
    /// The session in JSON.
    pub fn to_json(&self) -> (v: serde_json::Value)
        ensures
            json_of(v) == Json::Object(
                map![
                    "id"@ => Json::Str(self.id.text()),
                    "runtime_kind"@ => Json::Str(self.runtime_kind@),
                    "status"@ => Json::Str(self.status@),
                    "input_prompt_preview"@ => Json::Str(self.input_prompt_preview@),
                    "workspace_path"@ => Json::Str(self.workspace_path@),
                    "tokens_used"@ => Json::Int(self.tokens_used as int),
                    "token_budget"@ => Json::Int(self.token_budget as int),
                    "created_at"@ => instant_json(self.created_at.micros),
                    "started_at"@ => opt_instant_json(self.started_at),
                    "completed_at"@ => opt_instant_json(self.completed_at),
                    "pid"@ => opt_int_json(
                        match self.pid {
                            Some(x) => Some(x as int),
                            None => None,
                        },
                    ),
                    "exit_code"@ => opt_int_json(
                        match self.exit_code {
                            Some(x) => Some(x as int),
                            None => None,
                        },
                    ),
                    "failed_at"@ => opt_instant_json(self.failed_at),
                    "failure_reason"@ => opt_str_json(self.failure_reason),
                ],
            ),
    {
        let v = json::with(json::object(), "id", json::uuid(&self.id));
        let v = json::with(v, "runtime_kind", json::string(self.runtime_kind.as_str()));
        let v = json::with(v, "status", json::string(self.status.as_str()));
        let v = json::with(v, "input_prompt_preview", json::string(self.input_prompt_preview.as_str()));
        let v = json::with(v, "workspace_path", json::string(self.workspace_path.as_str()));
        let v = json::with(v, "tokens_used", json::number(self.tokens_used));
        let v = json::with(v, "token_budget", json::number(self.token_budget));
        let v = json::with(v, "created_at", self.created_at.to_json());
        let v = json::with(v, "started_at", opt_instant(&self.started_at));
        let v = json::with(v, "completed_at", opt_instant(&self.completed_at));
        let v = json::with(v, "pid", json::opt_small_number(&self.pid));
        let v = json::with(v, "exit_code", json::opt_small_number(&self.exit_code));
        let v = json::with(v, "failed_at", opt_instant(&self.failed_at));
        json::with(v, "failure_reason", json::opt_string(&self.failure_reason))
    }
}

/// A session row: whose it is, and what it says.
#[derive(Debug)]
pub struct SessionDetailRow {
    pub tenant_id: Uuid,
    pub detail: SessionDetail,
}

/// What to do next for a list.
#[derive(Debug)]
pub enum ListSessionsAction {
    /// Read the tenant's sessions, the newest first, at most `limit`.
    Query { tenant_id: Uuid, limit: i64 },
    /// Answer.
    Answer(ListSessionsResponse),
    /// Refuse.
    Refuse(AppError),
}

/// The next step of listing sessions, given the rows once they are read.
pub fn list_sessions(auth: &AuthContext, rows: Option<Vec<SessionItem>>) -> (action: ListSessionsAction)
    ensures
        match verified_session(*auth) {
            Err(e) => action == ListSessionsAction::Refuse(e),
            Ok(session) => match rows {
                None => action == (ListSessionsAction::Query { tenant_id: session.tenant_id, limit: MAX_SESSIONS }),
                Some(sessions) => action == ListSessionsAction::Answer(ListSessionsResponse { sessions }),
            },
        },
        action matches ListSessionsAction::Query { tenant_id, limit } ==> (auth matches AuthContext::Session(info)
            && info.email_verified && tenant_id == info.tenant_id && limit == 100),
{
    match require_verified_session(auth) {
        Err(e) => ListSessionsAction::Refuse(e),
        Ok(session) => match rows {
            None => ListSessionsAction::Query { tenant_id: session.tenant_id, limit: MAX_SESSIONS },
            Some(sessions) => ListSessionsAction::Answer(ListSessionsResponse { sessions }),
        },
    }
}

/// What to do next for one session.
#[derive(Debug)]
pub enum GetSessionAction {
    /// Read the session by its ID alone.
    FindSession { id: Uuid },
    /// Answer.
    Answer(SessionDetail),
    /// Refuse.
    Refuse(AppError),
}

/// The next step of showing a session, given its row once it was looked for. A
/// session of another tenant is refused, not reported as missing.
pub fn get_session(auth: &AuthContext, session_id: Uuid, row: Option<Option<SessionDetailRow>>) -> (action:
    GetSessionAction)
    ensures
        match verified_session(*auth) {
            Err(e) => action == GetSessionAction::Refuse(e),
            Ok(session) => match row {
                None => action == (GetSessionAction::FindSession { id: session_id }),
                Some(None) => action == GetSessionAction::Refuse(AppError::NotFound),
                Some(Some(r)) => action == if r.tenant_id != session.tenant_id {
                    GetSessionAction::Refuse(AppError::InsufficientRole)
                } else {
                    GetSessionAction::Answer(r.detail)
                },
            },
        },
        action is Answer ==> match (*auth, row) {
            (AuthContext::Session(info), Some(Some(r))) => info.email_verified && r.tenant_id == info.tenant_id,
            _ => false,
        },
{
    let session = match require_verified_session(auth) {
        Err(e) => return GetSessionAction::Refuse(e),
        Ok(s) => s,
    };
    match row {
        None => GetSessionAction::FindSession { id: session_id },
        Some(None) => GetSessionAction::Refuse(AppError::NotFound),
        Some(Some(r)) => if r.tenant_id != session.tenant_id {
            GetSessionAction::Refuse(AppError::InsufficientRole)
        } else {
            GetSessionAction::Answer(r.detail)
        },
    }
}

} // verus!
