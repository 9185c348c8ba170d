//! `POST /v1/agents/sessions` and `DELETE /v1/agents/sessions/{id}`: start and end
//! agent sessions; `DELETE /internal/agent/sessions/{id}/api-key`: revoke the key
//! of one.
//!
//! The whole prompt goes to the agent runner; the database keeps no more than its
//! first 256 characters.

use crate::agents::session_lifecycle::{
    default_workspace, default_workspace_is_safe, is_terminal_status, parse_runtime, preview_of, prompt_preview, runtime_named,
    safe_path, terminal_status, validate_workspace_path, AgentRuntime,
};
use crate::caller::{require_session_or_agent_key, session_or_key, AuthContext, Scope};
use crate::error::AppError;
use crate::ids::Uuid;
use crate::text::same;
use vstd::prelude::*;
use vstd::string::*;
use vstd::utf8::*;

verus! {

/// Most bytes of an initial prompt (64 KiB).
pub const INITIAL_MESSAGE_MAX_BYTES: usize = 65_536;

/// Topic of the commands to agent runners.
pub const TOPIC_AGENT_COMMANDS: &'static str = "rb.agent.commands";

/// The token budget that a session is registered with.
pub const SESSION_TOKEN_BUDGET: i64 = 100_000;

#[derive(Debug)]
pub struct CreateSessionRequest {
    /// One of `claude_code`, `opencode`, `pi`.
    pub runtime: String,
    pub initial_prompt: String,
    /// Workspace sub-path; by default the tenant's ID, a slash and the session's ID.
    pub workspace_path: Option<String>,
}

#[derive(Debug)]
pub struct CreateSessionResponse {
    pub session_id: Uuid,
    pub status: &'static str,
}

/// The session and API-key rows to insert.
#[derive(Debug)]
pub struct NewAgentSession {
    pub session_id: Uuid,
    pub tenant_id: Uuid,
    pub user_id: Uuid,
    pub runtime: String,
    pub preview: String,
    pub workspace_rel: String,
    pub api_key_id: Uuid,
    pub api_key_name: String,
    pub api_key_scope: &'static str,
}

/// A command to the agent runners.
#[derive(Debug)]
pub enum AgentCommand {
    Start { runtime: AgentRuntime, initial_prompt: String, workspace_path: String, api_key: String },
    Input { input: String },
    Terminate { force: bool, reason: &'static str },
}

/// A command and the session it is for.
#[derive(Debug)]
pub struct AgentSessionCommand {
    pub session_id: String,
    pub command: AgentCommand,
}

/// A command on its way to the agent runners. Those under one key are consumed in
/// the order they were published in.
#[derive(Debug)]
pub struct AgentMessage {
    pub topic: &'static str,
    pub key: Vec<u8>,
    pub tenant_id: Uuid,
    pub command: AgentSessionCommand,
}

impl AgentMessage {
    /// Whether this goes to the runners under the key of `session`, for that session
    /// of `tenant`.
    pub open spec fn goes_to(&self, tenant: Uuid, session: Uuid) -> bool {
        &&& self.topic@ == "rb.agent.commands"@
        &&& self.key@ == session.bytes()
        &&& self.tenant_id == tenant
        &&& self.command.session_id@ == session.text()
    }
}

/// The message that carries `command` to the session.
pub fn agent_message(tenant_id: Uuid, session_id: Uuid, command: AgentCommand) -> (m: AgentMessage)
    ensures
        m.goes_to(tenant_id, session_id),
        m.command.command == command,
        m.topic@ == "rb.agent.commands"@,
        m.key@ == session_id.bytes(),
        m.tenant_id == tenant_id,
        m.command.session_id@ == session_id.text(),
{
    AgentMessage {
        topic: TOPIC_AGENT_COMMANDS,
        key: session_id.to_bytes(),
        tenant_id,
        command: AgentSessionCommand { session_id: session_id.to_text(), command },
    }
}

/// How publishing a command went.
#[derive(Debug, Clone, Copy, PartialEq, Eq)]
pub enum Published {
    Done,
    Failed,
    /// There is no producer.
    NoProducer,
}

/// The rows that were inserted, and the session's API key.
#[derive(Debug)]
pub struct StoredSession {
    pub row: NewAgentSession,
    pub api_key: String,
}

/// What was learnt last.
#[derive(Debug)]
pub enum CreateProgress {
    /// Nothing yet.
    Begin,
    /// Whether the tenant creates sessions too fast, and after how many seconds it may try again.
    RateChecked(Option<u64>),
    /// Whether the tenant had a slot free, which is now taken.
    TenantSlot(bool),
    /// Whether the process had a slot free, which is now taken.
    ProcessSlot(bool),
    /// The rows, unless they could not be inserted.
    Stored(Option<StoredSession>),
    /// How publishing went.
    Published(NewAgentSession, Published),
}

/// What to take back before a refusal is answered.
#[derive(Debug, Clone, Copy, PartialEq, Eq)]
pub struct Undo {
    /// Give the tenant's slot back.
    pub release_tenant_slot: bool,
    /// Delete the rows of this session and of this API key.
    pub delete_rows: Option<(Uuid, Uuid)>,
    /// Take this session out of the registry.
    pub forget: Option<Uuid>,
}

/// What to do next.
#[derive(Debug)]
pub enum CreateAction {
    /// Ask the tenant's rate limiter.
    CheckRate { tenant_id: Uuid },
    /// Take one of the tenant's slots if one is free.
    TakeTenantSlot { tenant_id: Uuid },
    /// Take one of the process's slots if one is free.
    TakeProcessSlot,
    /// Make an API key, and insert it and the session in one transaction.
    Store(NewAgentSession),
    /// Publish the message, and no other.
    Publish { message: AgentMessage, row: NewAgentSession },
    /// Register the session, then answer.
    Accept { response: CreateSessionResponse, tenant_id: Uuid, user_id: Uuid, runtime: String, token_budget: i64 },
    /// Take back what `undo` says, then refuse.
    Refuse { error: AppError, undo: Undo },
}

/// Nothing to take back.
pub open spec fn nothing() -> Undo {
    Undo { release_tenant_slot: false, delete_rows: None, forget: None }
}

/// The tenant's slot alone to give back.
pub open spec fn slot_only() -> Undo {
    Undo { release_tenant_slot: true, delete_rows: None, forget: None }
}

/// What is wrong with a request, if anything is, and what to take back then. The
/// runtime is looked at first, then the prompt, then the workspace path.
pub open spec fn flaw(req: CreateSessionRequest) -> Option<(AppError, Undo)> {
    if runtime_named(req.runtime@) is None {
        Some((AppError::InvalidInput, nothing()))
    } else if encode_utf8(req.initial_prompt@).len() > INITIAL_MESSAGE_MAX_BYTES {
        Some((AppError::InvalidInput, slot_only()))
    } else if (req.workspace_path matches Some(p) && !safe_path(p@)) {
        Some((AppError::InvalidInput, slot_only()))
    } else {
        None
    }
}

/// What is wrong with a request.
fn request_flaw(req: &CreateSessionRequest) -> (r: Option<(AppError, Undo)>)
    ensures
        r == flaw(*req),
        runtime_named(req.runtime@) is None ==> (r matches Some((e, undo)) && e == AppError::InvalidInput
            && !undo.release_tenant_slot),
        runtime_named(req.runtime@) is Some && (encode_utf8(req.initial_prompt@).len() > 65_536 || (req.workspace_path
            matches Some(p) && !safe_path(p@))) ==> (r matches Some((e, undo)) && e == AppError::InvalidInput
            && undo.release_tenant_slot && undo.delete_rows is None && undo.forget is None),
        r is None <==> runtime_named(req.runtime@) is Some && encode_utf8(req.initial_prompt@).len() <= 65_536 && (
        req.workspace_path matches Some(p) ==> safe_path(p@)),
{
    let nothing = Undo { release_tenant_slot: false, delete_rows: None, forget: None };
    let slot = Undo { release_tenant_slot: true, delete_rows: None, forget: None };
    if parse_runtime(req.runtime.as_str()).is_none() {
        return Some((AppError::InvalidInput, nothing));
    }
    if req.initial_prompt.as_str().as_bytes().len() > INITIAL_MESSAGE_MAX_BYTES {
        return Some((AppError::InvalidInput, slot));
    }
    match &req.workspace_path {
        Some(p) => match validate_workspace_path(p.as_str()) {
            Err(e) => Some((e, slot)),
            Ok(()) => None,
        },
        None => None,
    }
}

impl NewAgentSession {
    /// Whether these are the rows for `req`, made for `tenant` and `user`.
    pub open spec fn made_for(&self, tenant: Uuid, user: Uuid, req: CreateSessionRequest) -> bool {
        &&& self.session_id.is_v4()
        &&& self.api_key_id.is_v4()
        &&& self.tenant_id == tenant
        &&& self.user_id == user
        &&& self.runtime@ == req.runtime@
        &&& self.preview@ == preview_of(req.initial_prompt@)
        &&& safe_path(self.workspace_rel@)
        &&& match req.workspace_path {
            Some(p) => self.workspace_rel@ == p@,
            None => self.workspace_rel@ == default_workspace(tenant, self.session_id),
        }
        &&& self.api_key_name@ == "agent-session-"@ + self.session_id.text()
        &&& self.api_key_scope@ == "agent"@
    }
}

/// The rows for `req`.
fn new_agent_session(tenant_id: Uuid, user_id: Uuid, req: &CreateSessionRequest) -> (row: NewAgentSession)
    requires
        flaw(*req) is None,
    ensures
        row.made_for(tenant_id, user_id, *req),
        row.tenant_id == tenant_id,
        row.user_id == user_id,
        row.runtime@ == req.runtime@,
        req.initial_prompt@.len() <= 256 ==> row.preview@ == req.initial_prompt@,
        req.initial_prompt@.len() > 256 ==> row.preview@ == req.initial_prompt@.subrange(0, 256),
        req.workspace_path matches Some(p) ==> row.workspace_rel@ == p@,
        req.workspace_path is None ==> row.workspace_rel@ == tenant_id.text() + "/"@ + row.session_id.text(),
        row.api_key_name@ == "agent-session-"@ + row.session_id.text(),
        row.api_key_scope@ == "agent"@,
{
    let session_id = Uuid::new_v4();
    let workspace_rel = match &req.workspace_path {
        Some(p) => p.clone(),
        None => {
            let mut s = tenant_id.to_text();
            s.append("/");
            s.append(session_id.to_text().as_str());
            proof {
                default_workspace_is_safe(tenant_id, session_id);
            }
            s
        },
    };
    let mut api_key_name = "agent-session-".to_owned();
    api_key_name.append(session_id.to_text().as_str());
    NewAgentSession {
        session_id,
        tenant_id,
        user_id,
        runtime: req.runtime.clone(),
        preview: prompt_preview(req.initial_prompt.as_str()),
        workspace_rel,
        api_key_id: Uuid::new_v4(),
        api_key_name,
        api_key_scope: "agent",
    }
}

/// Whether `action` refuses with `error` and takes back what `undo` says.
pub open spec fn refuses(action: CreateAction, error: AppError, undo: Undo) -> bool {
    action == (CreateAction::Refuse { error, undo })
}

/// The next step of creating a session.
///
/// The tenant's rate and slots are looked at before the request itself; the
/// process's slots after it. A session whose start cannot be published is taken
/// back.
pub fn create_session(auth: &AuthContext, req: &CreateSessionRequest, progress: CreateProgress) -> (action: CreateAction)
    ensures
        action matches CreateAction::Refuse { undo, .. } ==> session_or_key(*auth, set![Scope::Agent]) is Ok
            && runtime_named(req.runtime@) is Some && (progress == CreateProgress::TenantSlot(true) || progress
            is ProcessSlot || progress is Published) ==> undo.release_tenant_slot,
        match session_or_key(*auth, set![Scope::Agent]) {
            Err(e) => refuses(action, e, nothing()),
            Ok(caller) => match progress {
                CreateProgress::Begin => action == (CreateAction::CheckRate { tenant_id: caller.tenant_id }),
                CreateProgress::RateChecked(Some(retry_after_secs)) => refuses(
                    action,
                    AppError::SessionRateLimitExceeded { retry_after_secs },
                    nothing(),
                ),
                CreateProgress::RateChecked(None) => action == (CreateAction::TakeTenantSlot {
                    tenant_id: caller.tenant_id,
                }),
                CreateProgress::TenantSlot(false) => refuses(action, AppError::TenantSessionCapExceeded, nothing()),
                CreateProgress::TenantSlot(true) => match flaw(*req) {
                    Some((error, undo)) => refuses(action, error, undo),
                    None => action is TakeProcessSlot,
                },
                CreateProgress::ProcessSlot(false) => refuses(action, AppError::SessionCapExceeded, slot_only()),
                CreateProgress::ProcessSlot(true) => match flaw(*req) {
                    Some((error, undo)) => refuses(action, error, undo),
                    None => action matches CreateAction::Store(row) && row.made_for(
                        caller.tenant_id,
                        caller.user_id,
                        *req,
                    ),
                },
                CreateProgress::Stored(None) => refuses(action, AppError::Internal, nothing()),
                CreateProgress::Stored(Some(_)) if runtime_named(req.runtime@) is None => refuses(
                    action,
                    AppError::InvalidInput,
                    nothing(),
                ),
                CreateProgress::Stored(Some(stored)) => {
                    &&& action matches CreateAction::Publish { message, row }
                    &&& row == stored.row
                    &&& message.goes_to(caller.tenant_id, stored.row.session_id)
                    &&& message.command.command matches AgentCommand::Start {
                        runtime,
                        initial_prompt,
                        workspace_path,
                        api_key,
                    }
                    &&& Some(runtime) == runtime_named(req.runtime@)
                    &&& initial_prompt@ == req.initial_prompt@
                    &&& workspace_path@ == stored.row.workspace_rel@
                    &&& api_key == stored.api_key
                },
                CreateProgress::Published(row, Published::Failed) => refuses(
                    action,
                    AppError::Internal,
                    Undo {
                        release_tenant_slot: true,
                        delete_rows: Some((row.session_id, row.api_key_id)),
                        forget: None,
                    },
                ),
                CreateProgress::Published(row, Published::NoProducer) => refuses(
                    action,
                    AppError::KafkaNotConfigured,
                    Undo { release_tenant_slot: true, delete_rows: None, forget: Some(row.session_id) },
                ),
                CreateProgress::Published(row, Published::Done) => {
                    &&& action matches CreateAction::Accept { response, tenant_id, user_id, runtime, token_budget }
                    &&& response.session_id == row.session_id
                    &&& response.status@ == "pending"@
                    &&& tenant_id == caller.tenant_id
                    &&& user_id == caller.user_id
                    &&& runtime@ == req.runtime@
                    &&& token_budget == SESSION_TOKEN_BUDGET
                },
            },
        },
        action matches CreateAction::Store(row) ==> {
            &&& row.session_id.is_v4() && row.api_key_id.is_v4()
            &&& row.runtime@ == req.runtime@
            &&& row.preview@ == req.initial_prompt@.take(row.preview@.len() as int)
            &&& row.preview@.len() == if req.initial_prompt@.len() > 256 {
                256
            } else {
                req.initial_prompt@.len()
            }
            &&& req.workspace_path matches Some(p) ==> row.workspace_rel@ == p@
            &&& req.workspace_path is None ==> row.workspace_rel@ == row.tenant_id.text() + "/"@ + row.session_id.text()
            &&& row.api_key_scope@ == "agent"@
            &&& match *auth {
                AuthContext::Session(info) => row.tenant_id == info.tenant_id && row.user_id == info.user_id,
                AuthContext::ApiKey(key) => row.tenant_id == key.tenant_id && row.user_id == key.user_id,
                _ => false,
            }
        },
        action matches CreateAction::Publish { message, row } ==> message.topic@ == "rb.agent.commands"@ && message.key@
            == row.session_id.bytes() && message.command.session_id@ == row.session_id.text(),
        action matches CreateAction::Accept { token_budget, .. } ==> token_budget == 100_000,
{
    let nothing = Undo { release_tenant_slot: false, delete_rows: None, forget: None };
    let slot = Undo { release_tenant_slot: true, delete_rows: None, forget: None };
    let caller = match require_session_or_agent_key(auth) {
        Ok(c) => c,
        Err(error) => return CreateAction::Refuse { error, undo: nothing },
    };
    match progress {
        CreateProgress::Begin => CreateAction::CheckRate { tenant_id: caller.tenant_id },
        CreateProgress::RateChecked(Some(retry_after_secs)) => CreateAction::Refuse {
            error: AppError::SessionRateLimitExceeded { retry_after_secs },
            undo: nothing,
        },
        CreateProgress::RateChecked(None) => CreateAction::TakeTenantSlot { tenant_id: caller.tenant_id },
        CreateProgress::TenantSlot(false) => CreateAction::Refuse {
            error: AppError::TenantSessionCapExceeded,
            undo: nothing,
        },
        CreateProgress::TenantSlot(true) => match request_flaw(req) {
            Some((error, undo)) => CreateAction::Refuse { error, undo },
            None => CreateAction::TakeProcessSlot,
        },
        CreateProgress::ProcessSlot(false) => CreateAction::Refuse { error: AppError::SessionCapExceeded, undo: slot },
        CreateProgress::ProcessSlot(true) => match request_flaw(req) {
            Some((error, undo)) => CreateAction::Refuse { error, undo },
            None => {
                let row = new_agent_session(caller.tenant_id, caller.user_id, req);
                assert(row.preview@ =~= req.initial_prompt@.take(row.preview@.len() as int));
                CreateAction::Store(row)
            },
        },
        CreateProgress::Stored(None) => CreateAction::Refuse { error: AppError::Internal, undo: nothing },
        CreateProgress::Stored(Some(stored)) => {
            let runtime = match parse_runtime(req.runtime.as_str()) {
                Some(r) => r,
                None => return CreateAction::Refuse { error: AppError::InvalidInput, undo: nothing },
            };
            let start = AgentCommand::Start {
                runtime,
                initial_prompt: req.initial_prompt.clone(),
                workspace_path: stored.row.workspace_rel.clone(),
                api_key: stored.api_key,
            };
            let message = agent_message(caller.tenant_id, stored.row.session_id, start);
            CreateAction::Publish { message, row: stored.row }
        },
        CreateProgress::Published(row, outcome) => match outcome {
            Published::Failed => CreateAction::Refuse {
                error: AppError::Internal,
                undo: Undo {
                    release_tenant_slot: true,
                    delete_rows: Some((row.session_id, row.api_key_id)),
                    forget: None,
                },
            },
            Published::NoProducer => CreateAction::Refuse {
                error: AppError::KafkaNotConfigured,
                undo: Undo { release_tenant_slot: true, delete_rows: None, forget: Some(row.session_id) },
            },
            Published::Done => CreateAction::Accept {
                response: CreateSessionResponse { session_id: row.session_id, status: "pending" },
                tenant_id: caller.tenant_id,
                user_id: caller.user_id,
                runtime: req.runtime.clone(),
                token_budget: SESSION_TOKEN_BUDGET,
            },
        },
    }
}

/// A session row as ending it needs it.
#[derive(Debug)]
pub struct EndingSession {
    pub tenant_id: Uuid,
    pub status: String,
    pub has_pid: bool,
    pub has_started: bool,
}

impl EndingSession {
    /// Whether no runner will ever report on the session.
    pub open spec fn unclaimed(&self) -> bool {
        self.status@ == "pending"@ && !self.has_pid && !self.has_started
    }
}

/// What was learnt last.
#[derive(Debug)]
pub enum DeleteProgress {
    /// Nothing yet.
    Begin,
    /// The session, if there is one.
    Found(Option<EndingSession>),
    /// Whether the session was marked as cancelled.
    Cancelled(bool),
    /// How publishing went.
    Published(Published),
}

/// What to do next.
#[derive(Debug)]
pub enum DeleteAction {
    /// Look the session up.
    FindSession { id: Uuid },
    /// Mark the session as cancelled.
    Cancel { id: Uuid },
    /// Publish the message.
    Publish(AgentMessage),
    /// Take the session out of the registry and revoke its key as these say, then accept.
    Accept { id: Uuid, forget: bool, revoke_key: bool },
    /// Refuse.
    Refuse(AppError),
}

/// The next step of ending a session. One that has ended already is only
/// forgotten; one that no runner took up yet is cancelled at once; any other is
/// ended by its runner.
pub fn delete_session(auth: &AuthContext, session_id: Uuid, progress: DeleteProgress) -> (action: DeleteAction)
    ensures
        match session_or_key(*auth, set![Scope::Agent]) {
            Err(e) => action == DeleteAction::Refuse(e),
            Ok(caller) => match progress {
                DeleteProgress::Begin => action == (DeleteAction::FindSession { id: session_id }),
                DeleteProgress::Found(None) => action == DeleteAction::Refuse(AppError::NotFound),
                DeleteProgress::Found(Some(row)) => if row.tenant_id != caller.tenant_id {
                    action == DeleteAction::Refuse(AppError::InsufficientRole)
                } else if terminal_status(row.status@) {
                    action == (DeleteAction::Accept { id: session_id, forget: true, revoke_key: false })
                } else if row.unclaimed() {
                    action == (DeleteAction::Cancel { id: session_id })
                } else {
                    &&& action matches DeleteAction::Publish(message)
                    &&& message.goes_to(caller.tenant_id, session_id)
                    &&& message.command.command matches AgentCommand::Terminate { force, reason }
                    &&& !force
                    &&& reason@ == "user requested"@
                },
                DeleteProgress::Cancelled(true) => action == (DeleteAction::Accept {
                    id: session_id,
                    forget: true,
                    revoke_key: true,
                }),
                DeleteProgress::Cancelled(false) => action == DeleteAction::Refuse(AppError::Internal),
                DeleteProgress::Published(Published::Done) => action == (DeleteAction::Accept {
                    id: session_id,
                    forget: false,
                    revoke_key: false,
                }),
                DeleteProgress::Published(Published::Failed) => action == DeleteAction::Refuse(AppError::Internal),
                DeleteProgress::Published(Published::NoProducer) => action == DeleteAction::Refuse(
                    AppError::KafkaNotConfigured,
                ),
            },
        },
        action is Cancel ==> (progress matches DeleteProgress::Found(Some(row)) && row.status@ == "pending"@
            && !row.has_pid && !row.has_started),
        action is Publish ==> (progress matches DeleteProgress::Found(Some(row)) && !(row.status@ == "pending"@
            && !row.has_pid && !row.has_started)),
{
    let caller = match require_session_or_agent_key(auth) {
        Ok(c) => c,
        Err(e) => return DeleteAction::Refuse(e),
    };
    match progress {
        DeleteProgress::Begin => DeleteAction::FindSession { id: session_id },
        DeleteProgress::Found(None) => DeleteAction::Refuse(AppError::NotFound),
        DeleteProgress::Found(Some(row)) => if row.tenant_id != caller.tenant_id {
            DeleteAction::Refuse(AppError::InsufficientRole)
        } else if is_terminal_status(row.status.as_str()) {
            DeleteAction::Accept { id: session_id, forget: true, revoke_key: false }
        } else if same(row.status.as_str(), "pending") && !row.has_pid && !row.has_started {
            DeleteAction::Cancel { id: session_id }
        } else {
            let terminate = AgentCommand::Terminate { force: false, reason: "user requested" };
            DeleteAction::Publish(agent_message(caller.tenant_id, session_id, terminate))
        },
        DeleteProgress::Cancelled(done) => if done {
            DeleteAction::Accept { id: session_id, forget: true, revoke_key: true }
        } else {
            DeleteAction::Refuse(AppError::Internal)
        },
        DeleteProgress::Published(outcome) => match outcome {
            Published::Done => DeleteAction::Accept { id: session_id, forget: false, revoke_key: false },
            Published::Failed => DeleteAction::Refuse(AppError::Internal),
            Published::NoProducer => DeleteAction::Refuse(AppError::KafkaNotConfigured),
        },
    }
}

/// What to do about the API key of a session.
#[derive(Debug)]
pub enum RevokeAction {
    /// Revoke the key, then answer that it is gone.
    Revoke { api_key_id: Uuid },
    /// Answer that it is gone.
    Gone,
    /// Refuse.
    Refuse(AppError),
}

/// What to do about the API key of a session, given the session's key if there is such a session.
pub fn delete_session_api_key(row: Option<Option<Uuid>>) -> (action: RevokeAction)
    ensures
        action == (match row {
            None => RevokeAction::Refuse(AppError::NotFound),
            Some(None) => RevokeAction::Gone,
            Some(Some(api_key_id)) => RevokeAction::Revoke { api_key_id },
        }),
{
    match row {
        None => RevokeAction::Refuse(AppError::NotFound),
        Some(None) => RevokeAction::Gone,
        Some(Some(api_key_id)) => RevokeAction::Revoke { api_key_id },
    }
}

} // verus!
