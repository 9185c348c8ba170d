//! `POST /v1/chat/sessions`, `GET /v1/chat/sessions` and
//! `GET /v1/chat/sessions/{id}`: start chat sessions and look at them.

use crate::agents::session_lifecycle::{parse_runtime, runtime_named};
use crate::caller::{require_verified_session, verified_session, AuthContext, Scope};
use crate::chat::db::{ChatMessageRow, ChatSessionRow};
use crate::clock::Timestamp;
use crate::error::AppError;
use crate::ids::Uuid;
use vstd::prelude::*;
use vstd::string::*;
use vstd::utf8::*;

verus! {

/// Most bytes of a runtime's name.
pub const MAX_RUNTIME_LEN: usize = 32;

/// Most sessions that a list shows.
pub const SESSION_LIST_LIMIT: i64 = 50;

/// Most messages that a session is shown with.
pub const SESSION_MESSAGE_LIMIT: i64 = 100;

/// A caller that was let in to the chat.
#[derive(Debug, Clone, Copy, PartialEq, Eq)]
pub struct ChatCaller {
    pub tenant_id: Uuid,
    pub user_id: Uuid,
}

/// What a request to the chat comes to: a verified session is let in, and so is an
/// API key with any scope at all.
pub open spec fn chat_caller(auth: AuthContext) -> Result<ChatCaller, AppError> {
    match auth {
        AuthContext::ApiKey(key) => if key.scopes@.len() > 0 {
            Ok(ChatCaller { tenant_id: key.tenant_id, user_id: key.user_id })
        } else {
            Err(AppError::InsufficientScope)
        },
        _ => match verified_session(auth) {
            Ok(info) => Ok(ChatCaller { tenant_id: info.tenant_id, user_id: info.user_id }),
            Err(e) => Err(e),
        },
    }
}

/// Lets in a verified session, or an API key with any scope at all.
pub fn require_chat_auth(auth: &AuthContext) -> (r: Result<ChatCaller, AppError>)
    ensures
        r == chat_caller(*auth),
{
    match auth {
        AuthContext::ApiKey(key) => {
            let allowed = key.has(Scope::Read) || key.has(Scope::Write) || key.has(Scope::Agent) || key.has(Scope::Admin);
            proof {
                if key.scopes@.len() > 0 {
                    let s = key.scopes@[0];
                    assert(key.carries(s));
                    match s {
                        Scope::Read => {},
                        Scope::Write => {},
                        Scope::Agent => {},
                        Scope::Admin => {},
                    }
                }
            }
            if allowed {
                Ok(ChatCaller { tenant_id: key.tenant_id, user_id: key.user_id })
            } else {
                Err(AppError::InsufficientScope)
            }
        },
        _ => match require_verified_session(auth) {
            Ok(info) => Ok(ChatCaller { tenant_id: info.tenant_id, user_id: info.user_id }),
            Err(e) => Err(e),
        },
    }
}

/// What a request to the chat comes to, which may be switched off altogether.
pub open spec fn chat_entry(enabled: bool, auth: AuthContext) -> Result<ChatCaller, AppError> {
    if !enabled {
        Err(AppError::ChatFeatureDisabled)
    } else {
        chat_caller(auth)
    }
}

/// Lets a caller in, if the chat is switched on.
pub fn enter_chat(enabled: bool, auth: &AuthContext) -> (r: Result<ChatCaller, AppError>)
    ensures
        r == chat_entry(enabled, *auth),
{
    if !enabled {
        return Err(AppError::ChatFeatureDisabled);
    }
    require_chat_auth(auth)
}

#[derive(Debug)]
pub struct CreateChatSessionRequest {
    /// Runtime to use: `claude_code`, `opencode`, or `pi`.
    pub runtime: String,
}

#[derive(Debug)]
pub struct CreateChatSessionResponse {
    pub session_id: Uuid,
    pub status: &'static str,
}

/// A message as it is shown.
#[derive(Debug)]
pub struct ChatMessageDto {
    pub id: Uuid,
    pub seq: i32,
    pub role: String,
    pub body: String,
    pub created_at: Timestamp,
}

impl ChatMessageDto {
    /// How a row is shown.
    pub open spec fn of(row: ChatMessageRow) -> ChatMessageDto {
        ChatMessageDto { id: row.id, seq: row.seq, role: row.role, body: row.body, created_at: row.created_at }
    }

    /// How a row is shown.
    pub fn from_row(row: ChatMessageRow) -> (m: ChatMessageDto)
        ensures
            m == ChatMessageDto::of(row),
            m.id == row.id,
            m.seq == row.seq,
            m.role == row.role,
            m.body == row.body,
            m.created_at == row.created_at,
    {
        ChatMessageDto { id: row.id, seq: row.seq, role: row.role, body: row.body, created_at: row.created_at }
    }
}

/// How rows are shown.
pub fn message_dtos(rows: Vec<ChatMessageRow>) -> (messages: Vec<ChatMessageDto>)
    ensures
        messages@ == rows@.map_values(|r: ChatMessageRow| ChatMessageDto::of(r)),
        messages@.len() == rows@.len(),
        forall|i: int|
            0 <= i < rows@.len() ==> {
                &&& (#[trigger] messages@[i]).id == rows@[i].id
                &&& messages@[i].seq == rows@[i].seq
                &&& messages@[i].role == rows@[i].role
                &&& messages@[i].body == rows@[i].body
                &&& messages@[i].created_at == rows@[i].created_at
            },
{
    let ghost all = rows@;
    let mut messages: Vec<ChatMessageDto> = Vec::new();
    for row in it: rows
        invariant
            it.seq() == all,
            messages@.len() == it.index(),
            forall|j: int| 0 <= j < messages@.len() ==> #[trigger] messages@[j] == ChatMessageDto::of(all[j]),
    {
        messages.push(ChatMessageDto::from_row(row));
    }
    assert(messages@ =~= all.map_values(|r: ChatMessageRow| ChatMessageDto::of(r)));
    messages
}

/// A session as it is shown.
#[derive(Debug)]
pub struct ChatSessionDto {
    pub id: Uuid,
    pub runtime: String,
    pub status: String,
    pub created_at: Timestamp,
    pub last_activity_at: Timestamp,
    pub messages: Vec<ChatMessageDto>,
}

/// A session as a list shows it.
#[derive(Debug)]
pub struct ChatSessionSummary {
    pub id: Uuid,
    pub tenant_id: Uuid,
    pub user_id: Option<Uuid>,
    pub runtime: String,
    pub status: String,
    pub trace_id: String,
    pub created_at: Timestamp,
    pub last_activity_at: Timestamp,
    pub ended_at: Option<Timestamp>,
}

impl ChatSessionSummary {
    /// How a row is shown in a list.
    pub open spec fn of(r: ChatSessionRow) -> ChatSessionSummary {
        ChatSessionSummary {
            id: r.id,
            tenant_id: r.tenant_id,
            user_id: r.user_id,
            runtime: r.runtime,
            status: r.status,
            trace_id: r.trace_id,
            created_at: r.created_at,
            last_activity_at: r.last_activity_at,
            ended_at: r.ended_at,
        }
    }

    /// How a row is shown in a list.
    pub fn from_row(r: ChatSessionRow) -> (s: ChatSessionSummary)
        ensures
            s == ChatSessionSummary::of(r),
            s.id == r.id,
            s.tenant_id == r.tenant_id,
            s.user_id == r.user_id,
            s.runtime == r.runtime,
            s.status == r.status,
            s.trace_id == r.trace_id,
            s.created_at == r.created_at,
            s.last_activity_at == r.last_activity_at,
            s.ended_at == r.ended_at,
    {
        ChatSessionSummary {
            id: r.id,
            tenant_id: r.tenant_id,
            user_id: r.user_id,
            runtime: r.runtime,
            status: r.status,
            trace_id: r.trace_id,
            created_at: r.created_at,
            last_activity_at: r.last_activity_at,
            ended_at: r.ended_at,
        }
    }
}

#[derive(Debug)]
pub struct ListChatSessionsResponse {
    pub sessions: Vec<ChatSessionSummary>,
}

/// A session row to insert.
#[derive(Debug)]
pub struct NewChatSession {
    pub id: Uuid,
    pub tenant_id: Uuid,
    pub user_id: Uuid,
    pub runtime: String,
    pub trace_id: String,
}

/// What to do next.
#[derive(Debug)]
pub enum CreateChatAction {
    /// Insert the row.
    Insert(NewChatSession),
    /// Accept.
    Accept(CreateChatSessionResponse),
    /// Refuse.
    Refuse(AppError),
}

/// Whether a runtime can be chosen for a chat.
pub open spec fn known_runtime(runtime: Seq<char>) -> bool {
    encode_utf8(runtime).len() <= MAX_RUNTIME_LEN && runtime_named(runtime) is Some
}

/// The next step of starting a session, given the row and whether it was inserted
/// once that was tried. No agent is started before the first message.
pub fn create_chat_session(
    enabled: bool,
    auth: &AuthContext,
    req: &CreateChatSessionRequest,
    inserted: Option<(Uuid, bool)>,
) -> (action: CreateChatAction)
    ensures
        match chat_entry(enabled, *auth) {
            Err(e) => action == CreateChatAction::Refuse(e),
            Ok(caller) => if !known_runtime(req.runtime@) {
                action == CreateChatAction::Refuse(AppError::InvalidInput)
            } else {
                match inserted {
                    None => {
                        &&& action matches CreateChatAction::Insert(row)
                        &&& row.id.is_v4()
                        &&& row.tenant_id == caller.tenant_id
                        &&& row.user_id == caller.user_id
                        &&& row.runtime@ == req.runtime@
                        &&& exists|trace: Uuid| trace.is_v4() && row.trace_id@ == #[trigger] trace.simple_text()
                    },
                    Some((_, false)) => action == CreateChatAction::Refuse(AppError::Internal),
                    Some((id, true)) => action matches CreateChatAction::Accept(resp) && resp.session_id == id
                        && resp.status@ == "active"@,
                }
            },
        },
        action is Insert ==> req.runtime@ == "claude_code"@ || req.runtime@ == "opencode"@ || req.runtime@ == "pi"@,
        action matches CreateChatAction::Insert(row) ==> row.runtime@ == req.runtime@ && match *auth {
            AuthContext::Session(info) => row.tenant_id == info.tenant_id && row.user_id == info.user_id,
            AuthContext::ApiKey(key) => row.tenant_id == key.tenant_id && row.user_id == key.user_id,
            _ => false,
        },
{
    let caller = match enter_chat(enabled, auth) {
        Err(e) => return CreateChatAction::Refuse(e),
        Ok(c) => c,
    };
    if req.runtime.as_str().as_bytes().len() > MAX_RUNTIME_LEN || parse_runtime(req.runtime.as_str()).is_none() {
        return CreateChatAction::Refuse(AppError::InvalidInput);
    }
    match inserted {
        None => {
            let trace = Uuid::new_v4();
            let trace_id = trace.to_simple_text();
            assert(trace_id@ == trace.simple_text());
            CreateChatAction::Insert(
                NewChatSession {
                    id: Uuid::new_v4(),
                    tenant_id: caller.tenant_id,
                    user_id: caller.user_id,
                    runtime: req.runtime.clone(),
                    trace_id,
                },
            )
        },
        Some((id, done)) => if done {
            CreateChatAction::Accept(CreateChatSessionResponse { session_id: id, status: "active" })
        } else {
            CreateChatAction::Refuse(AppError::Internal)
        },
    }
}

/// What to do next for a list.
#[derive(Debug)]
pub enum ListChatAction {
    /// Read the user's sessions, at most `limit`.
    Query { tenant_id: Uuid, user_id: Uuid, limit: i64 },
    /// Answer.
    Answer(ListChatSessionsResponse),
    /// Refuse.
    Refuse(AppError),
}

/// The next step of listing sessions, given the rows once they are read.
pub fn list_chat_sessions(enabled: bool, auth: &AuthContext, rows: Option<Vec<ChatSessionRow>>) -> (action:
    ListChatAction)
    ensures
        match chat_entry(enabled, *auth) {
            Err(e) => action == ListChatAction::Refuse(e),
            Ok(caller) => match rows {
                None => action == (ListChatAction::Query {
                    tenant_id: caller.tenant_id,
                    user_id: caller.user_id,
                    limit: SESSION_LIST_LIMIT,
                }),
                Some(rows) => action matches ListChatAction::Answer(resp) && resp.sessions@ == rows@.map_values(
                    |r: ChatSessionRow| ChatSessionSummary::of(r),
                ),
            },
        },
        action matches ListChatAction::Answer(resp) ==> rows is Some && resp.sessions@.len() == rows->0@.len()
            && forall|i: int|
            0 <= i < rows->0@.len() ==> {
                let (shown, row) = (#[trigger] resp.sessions@[i], rows->0@[i]);
                &&& shown.id == row.id
                &&& shown.tenant_id == row.tenant_id
                &&& shown.user_id == row.user_id
                &&& shown.runtime == row.runtime
                &&& shown.status == row.status
                &&& shown.trace_id == row.trace_id
                &&& shown.created_at == row.created_at
                &&& shown.last_activity_at == row.last_activity_at
                &&& shown.ended_at == row.ended_at
            },
        action matches ListChatAction::Query { tenant_id, user_id, limit } ==> limit == 50 && match *auth {
            AuthContext::Session(info) => tenant_id == info.tenant_id && user_id == info.user_id,
            AuthContext::ApiKey(key) => tenant_id == key.tenant_id && user_id == key.user_id,
            _ => false,
        },
{
    let caller = match enter_chat(enabled, auth) {
        Err(e) => return ListChatAction::Refuse(e),
        Ok(c) => c,
    };
    match rows {
        None => ListChatAction::Query {
            tenant_id: caller.tenant_id,
            user_id: caller.user_id,
            limit: SESSION_LIST_LIMIT,
        },
        Some(rows) => {
            let ghost all = rows@;
            let mut sessions: Vec<ChatSessionSummary> = Vec::new();
            for row in it: rows
                invariant
                    it.seq() == all,
                    sessions@.len() == it.index(),
                    forall|j: int| 0 <= j < sessions@.len() ==> #[trigger] sessions@[j] == ChatSessionSummary::of(all[j]),
            {
                sessions.push(ChatSessionSummary::from_row(row));
            }
            assert(sessions@ =~= all.map_values(|r: ChatSessionRow| ChatSessionSummary::of(r)));
            ListChatAction::Answer(ListChatSessionsResponse { sessions })
        },
    }
}

/// What was learnt last.
#[derive(Debug)]
pub enum ShowChatProgress {
    /// Nothing yet.
    Begin,
    /// The tenant's session with the ID, if there is one.
    Found(Option<ChatSessionRow>),
    /// The session's messages.
    Listed(ChatSessionRow, Vec<ChatMessageRow>),
}

/// What to do next for one session.
#[derive(Debug)]
pub enum ShowChatAction {
    /// Look the session up, among those of the tenant.
    FindSession { id: Uuid, tenant_id: Uuid },
    /// Read the session's first messages, at most `limit`.
    ListMessages { session_id: Uuid, session: ChatSessionRow, tenant_id: Uuid, limit: i64 },
    /// Answer.
    Answer(ChatSessionDto),
    /// Refuse.
    Refuse(AppError),
}

/// The next step of showing a session with its messages.
pub fn get_chat_session(enabled: bool, auth: &AuthContext, session_id: Uuid, progress: ShowChatProgress) -> (action:
    ShowChatAction)
    ensures
        match chat_entry(enabled, *auth) {
            Err(e) => action == ShowChatAction::Refuse(e),
            Ok(caller) => match progress {
                ShowChatProgress::Begin => action == (ShowChatAction::FindSession {
                    id: session_id,
                    tenant_id: caller.tenant_id,
                }),
                ShowChatProgress::Found(None) => action == ShowChatAction::Refuse(AppError::ChatSessionNotFound),
                ShowChatProgress::Found(Some(session)) => action == (ShowChatAction::ListMessages {
                    session_id,
                    session,
                    tenant_id: caller.tenant_id,
                    limit: SESSION_MESSAGE_LIMIT,
                }),
                ShowChatProgress::Listed(session, rows) => {
                    &&& action matches ShowChatAction::Answer(dto)
                    &&& dto.id == session.id
                    &&& dto.runtime == session.runtime
                    &&& dto.status == session.status
                    &&& dto.created_at == session.created_at
                    &&& dto.last_activity_at == session.last_activity_at
                    &&& dto.messages@ == rows@.map_values(|r: ChatMessageRow| ChatMessageDto::of(r))
                },
            },
        },
        action matches ShowChatAction::ListMessages { session_id: id, limit, .. } ==> id == session_id && limit == 100,
        action matches ShowChatAction::Answer(dto) ==> match progress {
            ShowChatProgress::Listed(session, rows) => dto.messages@.len() == rows@.len() && forall|i: int|
                0 <= i < rows@.len() ==> {
                    let (shown, row) = (#[trigger] dto.messages@[i], rows@[i]);
                    &&& shown.id == row.id
                    &&& shown.seq == row.seq
                    &&& shown.role == row.role
                    &&& shown.body == row.body
                    &&& shown.created_at == row.created_at
                },
            _ => false,
        },
{
    let caller = match enter_chat(enabled, auth) {
        Err(e) => return ShowChatAction::Refuse(e),
        Ok(c) => c,
    };
    match progress {
        ShowChatProgress::Begin => ShowChatAction::FindSession { id: session_id, tenant_id: caller.tenant_id },
        ShowChatProgress::Found(None) => ShowChatAction::Refuse(AppError::ChatSessionNotFound),
        ShowChatProgress::Found(Some(session)) => ShowChatAction::ListMessages {
            session_id,
            session,
            tenant_id: caller.tenant_id,
            limit: SESSION_MESSAGE_LIMIT,
        },
        ShowChatProgress::Listed(session, rows) => ShowChatAction::Answer(
            ChatSessionDto {
                id: session.id,
                runtime: session.runtime,
                status: session.status,
                created_at: session.created_at,
                last_activity_at: session.last_activity_at,
                messages: message_dtos(rows),
            },
        ),
    }
}

/// A message is shown as it is kept: under its own ID and number, with its role, its
/// body and its time. So messages with different IDs are never shown as the same one.
pub proof fn messages_are_shown_as_they_are(a: ChatMessageRow, b: ChatMessageRow)
    ensures
        ChatMessageDto::of(a).id == a.id,
        ChatMessageDto::of(a).seq == a.seq,
        ChatMessageDto::of(a).role == a.role,
        ChatMessageDto::of(a).body == a.body,
        ChatMessageDto::of(a).created_at == a.created_at,
        a.id != b.id ==> ChatMessageDto::of(a).id != ChatMessageDto::of(b).id,
{
}

/// A session is listed as it is kept.
pub proof fn sessions_are_listed_as_they_are(row: ChatSessionRow)
    ensures
        ChatSessionSummary::of(row).id == row.id,
        ChatSessionSummary::of(row).tenant_id == row.tenant_id,
        ChatSessionSummary::of(row).user_id == row.user_id,
        ChatSessionSummary::of(row).runtime == row.runtime,
        ChatSessionSummary::of(row).status == row.status,
        ChatSessionSummary::of(row).trace_id == row.trace_id,
        ChatSessionSummary::of(row).created_at == row.created_at,
        ChatSessionSummary::of(row).last_activity_at == row.last_activity_at,
        ChatSessionSummary::of(row).ended_at == row.ended_at,
{
}

/// Who is let in to the chat: nobody while it is switched off; a session with a
/// verified address, and a key with a scope, each as the user and tenant it is of.
pub proof fn the_chat_is_for_users(enabled: bool, auth: AuthContext)
    ensures
        !enabled ==> chat_entry(enabled, auth) == Err::<ChatCaller, AppError>(AppError::ChatFeatureDisabled),
        enabled ==> match auth {
            AuthContext::Session(info) => chat_entry(enabled, auth) == if info.email_verified {
                Ok::<ChatCaller, AppError>(ChatCaller { tenant_id: info.tenant_id, user_id: info.user_id })
            } else {
                Err(AppError::EmailNotVerified)
            },
            AuthContext::ApiKey(key) => chat_entry(enabled, auth) == if key.scopes@.len() > 0 {
                Ok::<ChatCaller, AppError>(ChatCaller { tenant_id: key.tenant_id, user_id: key.user_id })
            } else {
                Err(AppError::InsufficientScope)
            },
            AuthContext::ExpiredSession => chat_entry(enabled, auth) == Err::<ChatCaller, AppError>(
                AppError::SessionExpired,
            ),
            _ => chat_entry(enabled, auth) == Err::<ChatCaller, AppError>(AppError::Unauthorized),
        },
{
}

} // verus!
