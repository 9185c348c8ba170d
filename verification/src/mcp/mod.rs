//! `POST /mcp`: the tool server, over JSON-RPC 2.0.

pub mod audit;
pub mod dispatch;

use crate::caller::{AuthContext, Scope};
use crate::error::AppError;
use crate::ids::{uuid_read, Uuid};
use crate::json::{self, json_of, Json};
use crate::mcp::audit::{actor_kind_of, chat_in, tool_call_audit, ChatAuditCtx, ToolAudit};
use crate::mcp::dispatch::ToolOutput;
use crate::text::same;
use vstd::prelude::*;

verus! {

/// What a call is refused for.
#[derive(Debug, Clone, Copy, PartialEq, Eq)]
pub enum McpError {
    ParseError,
    InvalidRequest,
    MethodNotFound,
    InvalidParams,
    ToolNotFound,
    SessionNotFound,
    /// The session belongs to another tenant.
    TenantDrift,
    AuthenticationRequired,
    Unauthorized,
}

impl McpError {
    /// The message that goes with the error code.
    pub open spec fn text(self) -> Seq<char> {
        match self {
            McpError::ParseError => "parse error"@,
            McpError::InvalidRequest => "jsonrpc must be '2.0'"@,
            McpError::MethodNotFound => "method not found"@,
            McpError::InvalidParams => "tools/call requires {name, arguments}"@,
            McpError::ToolNotFound => "unknown tool"@,
            McpError::SessionNotFound => "session not found or expired"@,
            McpError::TenantDrift => "tenant mismatch"@,
            McpError::AuthenticationRequired => "authentication required"@,
            McpError::Unauthorized => "unauthorized"@,
        }
    }

    /// The message that goes with the error code.
    pub fn message(self) -> (s: &'static str)
        ensures
            s@ == self.text(),
            match self {
                McpError::ParseError => s@ == "parse error"@,
                McpError::InvalidRequest => s@ == "jsonrpc must be '2.0'"@,
                McpError::MethodNotFound => s@ == "method not found"@,
                McpError::InvalidParams => s@ == "tools/call requires {name, arguments}"@,
                McpError::ToolNotFound => s@ == "unknown tool"@,
                McpError::SessionNotFound => s@ == "session not found or expired"@,
                McpError::TenantDrift => s@ == "tenant mismatch"@,
                McpError::AuthenticationRequired => s@ == "authentication required"@,
                McpError::Unauthorized => s@ == "unauthorized"@,
            },
    {
        match self {
            McpError::ParseError => "parse error",
            McpError::InvalidRequest => "jsonrpc must be '2.0'",
            McpError::MethodNotFound => "method not found",
            McpError::InvalidParams => "tools/call requires {name, arguments}",
            McpError::ToolNotFound => "unknown tool",
            McpError::SessionNotFound => "session not found or expired",
            McpError::TenantDrift => "tenant mismatch",
            McpError::AuthenticationRequired => "authentication required",
            McpError::Unauthorized => "unauthorized",
        }
    }
}

/// What a tool is called with.
#[derive(Debug)]
pub struct ToolCallParams {
    pub name: String,
    pub arguments: Option<serde_json::Value>,
}

/// A request, with its parameters read as those of a tool call where they are such.
#[derive(Debug)]
pub struct JsonRpcRequest {
    pub jsonrpc: String,
    pub id: Option<serde_json::Value>,
    pub method: String,
    pub call: Option<ToolCallParams>,
}

/// A tool.
#[derive(Debug, Clone, Copy, PartialEq, Eq)]
pub enum Tool {
    SearchItems,
    GetItem,
}

/// The tool with a name.
pub open spec fn tool_named(name: Seq<char>) -> Option<Tool> {
    if name == "search_items"@ {
        Some(Tool::SearchItems)
    } else if name == "get_item"@ {
        Some(Tool::GetItem)
    } else {
        None
    }
}

/// The tool with a name.
pub fn find_tool(name: &str) -> (t: Option<Tool>)
    ensures
        t == tool_named(name@),
        t == Some(Tool::SearchItems) <==> name@ == "search_items"@,
        t == Some(Tool::GetItem) <==> name@ == "get_item"@,
{
    proof {
        reveal_strlit("search_items");
        reveal_strlit("get_item");
        assert("search_items"@.len() == 12 && "get_item"@.len() == 8);
    }
    if same(name, "search_items") {
        Some(Tool::SearchItems)
    } else if same(name, "get_item") {
        Some(Tool::GetItem)
    } else {
        None
    }
}

/// The tenant and the user that a request is made for: by a session whose e-mail
/// address is verified, by an API key with the `read` or the `agent` scope, or by a
/// chat's runtime with the token that it was started with. Agent keys are those
/// that sessions run with.
pub open spec fn tool_caller(auth: AuthContext) -> Option<(Uuid, Uuid)> {
    match auth {
        AuthContext::Session(info) => if info.email_verified {
            Some((info.tenant_id, info.user_id))
        } else {
            None
        },
        AuthContext::ApiKey(key) => if key.carries(Scope::Read) || key.carries(Scope::Agent) {
            Some((key.tenant_id, key.user_id))
        } else {
            None
        },
        AuthContext::McpJwt(info) => Some((info.tenant_id, info.user_id)),
        _ => None,
    }
}

/// The tenant and the user that a request is made for.
fn find_caller(auth: &AuthContext) -> (r: Option<(Uuid, Uuid)>)
    ensures
        r == tool_caller(*auth),
{
    match auth {
        AuthContext::Session(info) => if info.email_verified {
            Some((info.tenant_id, info.user_id))
        } else {
            None
        },
        AuthContext::ApiKey(key) => if key.has(Scope::Read) || key.has(Scope::Agent) {
            Some((key.tenant_id, key.user_id))
        } else {
            None
        },
        AuthContext::McpJwt(info) => Some((info.tenant_id, info.user_id)),
        _ => None,
    }
}

/// The chat that a request is made for, if one is: its session and the token's ID.
pub open spec fn chat_of(auth: AuthContext) -> Option<(Uuid, Seq<char>)> {
    match auth {
        AuthContext::McpJwt(info) => Some((info.chat_session_id, info.jti@)),
        _ => None,
    }
}

/// The chat that a request is made for, if one is.
fn chat_ctx_of(auth: &AuthContext) -> (r: Option<ChatAuditCtx<'_>>)
    ensures
        chat_in(r) == chat_of(*auth),
{
    match auth {
        AuthContext::McpJwt(info) => Some(
            ChatAuditCtx { chat_session_id: info.chat_session_id, jti: info.jti.as_str() },
        ),
        _ => None,
    }
}

/// The tenant that a request is made for.
pub fn require_auth_tenant(auth: &AuthContext) -> (r: Result<Uuid, ()>)
    ensures
        r == (match tool_caller(*auth) {
            Some(caller) => Ok::<Uuid, ()>(caller.0),
            None => Err(()),
        }),
{
    match find_caller(auth) {
        Some(caller) => Ok(caller.0),
        None => Err(()),
    }
}

/// The session that the header `Mcp-Session-Id` names; the nil UUID where it names none.
pub open spec fn session_named(header: Option<Seq<char>>) -> Uuid {
    match header {
        Some(s) => match uuid_read(s) {
            Some(bits) => Uuid { bits },
            None => Uuid { bits: 0 },
        },
        None => Uuid { bits: 0 },
    }
}

/// What the header holds.
pub open spec fn header_text(header: Option<&str>) -> Option<Seq<char>> {
    match header {
        Some(s) => Some(s@),
        None => None,
    }
}

/// The session that the header `Mcp-Session-Id` names.
pub fn session_id_of(header: Option<&str>) -> (id: Uuid)
    ensures
        id == session_named(header_text(header)),
        match header {
            Some(s) => match uuid_read(s@) {
                Some(bits) => id.bits == bits,
                None => id.bits == 0,
            },
            None => id.bits == 0,
        },
{
    match header {
        Some(s) => match Uuid::parse(s) {
            Some(id) => id,
            None => Uuid { bits: 0 },
        },
        None => Uuid { bits: 0 },
    }
}

/// Whether a caller may use a session, given the tenant that it was made for.
pub open spec fn session_verdict(auth: AuthContext, session_tenant: Option<Uuid>) -> Result<(Uuid, Option<Uuid>), McpError> {
    match tool_caller(auth) {
        None => Err(McpError::Unauthorized),
        Some((tenant_id, user_id)) => match session_tenant {
            None => Err(McpError::SessionNotFound),
            Some(t) => if t == tenant_id {
                Ok((t, Some(user_id)))
            } else {
                Err(McpError::TenantDrift)
            },
        },
    }
}

/// Whether a caller may use a session, given the tenant that it was made for: the
/// session's tenant and the user.
pub fn validate_session(auth: &AuthContext, session_tenant: Option<Uuid>) -> (r: Result<(Uuid, Option<Uuid>), McpError>)
    ensures
        r == session_verdict(*auth, session_tenant),
{
    match find_caller(auth) {
        None => Err(McpError::Unauthorized),
        Some((tenant_id, user_id)) => match session_tenant {
            None => Err(McpError::SessionNotFound),
            Some(t) => if t.bits == tenant_id.bits {
                Ok((t, Some(user_id)))
            } else {
                Err(McpError::TenantDrift)
            },
        },
    }
}

/// Why a tool came to nothing.
#[derive(Debug)]
pub struct ToolFailure {
    pub error: AppError,
    /// What the database said, where it failed.
    pub detail: Option<String>,
}

/// What was learnt last.
#[derive(Debug)]
pub enum McpProgress {
    /// Nothing yet.
    Begin,
    /// A session was made.
    SessionCreated(Uuid),
    /// The tenant that the named session was made for, if there is such a session.
    SessionFound(Option<Uuid>),
    /// What the tool came to.
    ToolRan(Result<ToolOutput, ToolFailure>),
}

/// An answer.
#[derive(Debug)]
pub enum McpAnswer {
    /// 202 without a body.
    Accepted,
    /// An error.
    Failed { id: Option<serde_json::Value>, error: McpError },
    /// The server's capabilities; the header `Mcp-Session-Id` names the session.
    Initialized { id: Option<serde_json::Value>, session_id: Uuid },
    /// An empty object.
    Pong { id: Option<serde_json::Value> },
    /// The list of tools.
    Tools { id: Option<serde_json::Value> },
    /// What the tool came to.
    Called { id: Option<serde_json::Value>, result: Result<ToolOutput, ToolFailure> },
}

/// What to do next.
#[derive(Debug)]
pub enum McpAction {
    /// Make a session for the tenant.
    CreateSession { tenant_id: Uuid },
    /// Look up which tenant the session was made for.
    FindSession { session_id: Uuid },
    /// Run a tool for the tenant.
    RunTool { tool: Tool, tenant_id: Uuid, args: serde_json::Value },
    /// Write the audit row, and answer whether or not that succeeds.
    Record { audit: ToolAudit, answer: McpAnswer },
    /// Answer.
    Answer(McpAnswer),
}

/// Whether `id` repeats the ID of a request.
pub open spec fn echoes(id: Option<serde_json::Value>, of: Option<serde_json::Value>) -> bool {
    match (id, of) {
        (Some(a), Some(b)) => json_of(a) == json_of(b),
        (None, None) => true,
        _ => false,
    }
}

/// A copy of the ID of a request.
fn echo(id: &Option<serde_json::Value>) -> (r: Option<serde_json::Value>)
    ensures
        echoes(r, *id),
{
    match id {
        Some(v) => Some(v.clone()),
        None => None,
    }
}

/// Whether the action answers with an error.
pub open spec fn fails(action: McpAction, id: Option<serde_json::Value>, error: McpError) -> bool {
    action matches McpAction::Answer(McpAnswer::Failed { id: i, error: e }) && echoes(i, id) && e == error
}

/// What a tool is called with; an empty object where the call has no arguments.
pub open spec fn arguments_of(call: ToolCallParams) -> Json {
    match call.arguments {
        Some(v) => json_of(v),
        None => Json::Object(Map::empty()),
    }
}

/// What a tool is called with.
fn call_arguments(call: &ToolCallParams) -> (v: serde_json::Value)
    ensures
        json_of(v) == arguments_of(*call),
{
    match &call.arguments {
        Some(v) => v.clone(),
        None => json::object(),
    }
}

/// Whether `action` is the next step of `initialize`.
pub open spec fn initialize_step(auth: AuthContext, rpc: JsonRpcRequest, progress: McpProgress, action: McpAction) -> bool {
    match tool_caller(auth) {
        None => fails(action, rpc.id, McpError::AuthenticationRequired),
        Some((tenant_id, _)) => match progress {
            McpProgress::SessionCreated(created) => action matches McpAction::Answer(
                McpAnswer::Initialized { id, session_id },
            ) && echoes(id, rpc.id) && session_id == created,
            _ => action == (McpAction::CreateSession { tenant_id }),
        },
    }
}

/// The next step of `initialize`.
fn handle_initialize(auth: &AuthContext, rpc: &JsonRpcRequest, progress: McpProgress) -> (action: McpAction)
    ensures
        initialize_step(*auth, *rpc, progress, action),
{
    match require_auth_tenant(auth) {
        Err(_) => McpAction::Answer(
            McpAnswer::Failed { id: echo(&rpc.id), error: McpError::AuthenticationRequired },
        ),
        Ok(tenant_id) => match progress {
            McpProgress::SessionCreated(session_id) => McpAction::Answer(
                McpAnswer::Initialized { id: echo(&rpc.id), session_id },
            ),
            _ => McpAction::CreateSession { tenant_id },
        },
    }
}

/// Whether `action` is the next step of `tools/list`.
pub open spec fn list_step(
    auth: AuthContext,
    header: Option<Seq<char>>,
    rpc: JsonRpcRequest,
    progress: McpProgress,
    action: McpAction,
) -> bool {
    match (tool_caller(auth), progress) {
        (None, _) => fails(action, rpc.id, McpError::Unauthorized),
        (Some(_), McpProgress::SessionFound(found)) => match session_verdict(auth, found) {
            Err(e) => fails(action, rpc.id, e),
            Ok(_) => action matches McpAction::Answer(McpAnswer::Tools { id }) && echoes(id, rpc.id),
        },
        _ => action == (McpAction::FindSession { session_id: session_named(header) }),
    }
}

/// The next step of `tools/list`.
fn handle_tools_list(auth: &AuthContext, header: Option<&str>, rpc: &JsonRpcRequest, progress: McpProgress) -> (action:
    McpAction)
    ensures
        list_step(*auth, header_text(header), *rpc, progress, action),
{
    if find_caller(auth).is_none() {
        return McpAction::Answer(McpAnswer::Failed { id: echo(&rpc.id), error: McpError::Unauthorized });
    }
    match progress {
        McpProgress::SessionFound(found) => match validate_session(auth, found) {
            Err(error) => McpAction::Answer(McpAnswer::Failed { id: echo(&rpc.id), error }),
            Ok(_) => McpAction::Answer(McpAnswer::Tools { id: echo(&rpc.id) }),
        },
        _ => McpAction::FindSession { session_id: session_id_of(header) },
    }
}

/// How a tool call is recorded.
pub open spec fn outcome_of(result: Result<ToolOutput, ToolFailure>) -> Seq<char> {
    match result {
        Ok(_) => "success"@,
        Err(_) => "error"@,
    }
}

/// Whether `action` is the next step of `tools/call`. Every call of a tool by its
/// name leaves one audit row.
pub open spec fn call_step(
    auth: AuthContext,
    header: Option<Seq<char>>,
    rpc: JsonRpcRequest,
    progress: McpProgress,
    action: McpAction,
) -> bool {
    match tool_caller(auth) {
        None => fails(action, rpc.id, McpError::Unauthorized),
        Some((caller_tenant, user_id)) => match progress {
            McpProgress::SessionFound(found) => match (session_verdict(auth, found), rpc.call) {
                (Err(e), _) => fails(action, rpc.id, e),
                (Ok(_), None) => fails(action, rpc.id, McpError::InvalidParams),
                (Ok(_), Some(call)) => match tool_named(call.name@) {
                    None => {
                        &&& action matches McpAction::Record { audit, answer }
                        &&& audit.records(
                            caller_tenant,
                            Some(user_id),
                            call.name@,
                            arguments_of(call),
                            "error"@,
                            chat_of(auth),
                        )
                        &&& fails(McpAction::Answer(answer), rpc.id, McpError::ToolNotFound)
                    },
                    Some(named) => {
                        &&& action matches McpAction::RunTool { tool, tenant_id, args }
                        &&& tool == named
                        &&& tenant_id == caller_tenant
                        &&& json_of(args) == arguments_of(call)
                    },
                },
            },
            McpProgress::ToolRan(ran) => match rpc.call {
                None => fails(action, rpc.id, McpError::InvalidParams),
                Some(call) => {
                    &&& action matches McpAction::Record { audit, answer }
                    &&& audit.records(
                        caller_tenant,
                        Some(user_id),
                        call.name@,
                        arguments_of(call),
                        outcome_of(ran),
                        chat_of(auth),
                    )
                    &&& answer matches McpAnswer::Called { id, result }
                    &&& echoes(id, rpc.id)
                    &&& result == ran
                },
            },
            _ => action == (McpAction::FindSession { session_id: session_named(header) }),
        },
    }
}

/// The next step of `tools/call`.
fn handle_tools_call(auth: &AuthContext, header: Option<&str>, rpc: &JsonRpcRequest, progress: McpProgress) -> (action:
    McpAction)
    ensures
        call_step(*auth, header_text(header), *rpc, progress, action),
{
    let (tenant_id, user_id) = match find_caller(auth) {
        None => return McpAction::Answer(McpAnswer::Failed { id: echo(&rpc.id), error: McpError::Unauthorized }),
        Some(caller) => caller,
    };
    match progress {
        McpProgress::SessionFound(found) => {
            match validate_session(auth, found) {
                Err(error) => return McpAction::Answer(McpAnswer::Failed { id: echo(&rpc.id), error }),
                Ok(_) => {},
            }
            let call = match &rpc.call {
                None => {
                    return McpAction::Answer(
                        McpAnswer::Failed { id: echo(&rpc.id), error: McpError::InvalidParams },
                    );
                },
                Some(call) => call,
            };
            let args = call_arguments(call);
            match find_tool(call.name.as_str()) {
                None => McpAction::Record {
                    audit: tool_call_audit(
                        tenant_id,
                        Some(user_id),
                        call.name.as_str(),
                        &args,
                        "error",
                        chat_ctx_of(auth),
                    ),
                    answer: McpAnswer::Failed { id: echo(&rpc.id), error: McpError::ToolNotFound },
                },
                Some(tool) => McpAction::RunTool { tool, tenant_id, args },
            }
        },
        McpProgress::ToolRan(result) => {
            let call = match &rpc.call {
                None => {
                    return McpAction::Answer(
                        McpAnswer::Failed { id: echo(&rpc.id), error: McpError::InvalidParams },
                    );
                },
                Some(call) => call,
            };
            let args = call_arguments(call);
            let outcome = match &result {
                Ok(_) => "success",
                Err(_) => "error",
            };
            McpAction::Record {
                audit: tool_call_audit(
                    tenant_id,
                    Some(user_id),
                    call.name.as_str(),
                    &args,
                    outcome,
                    chat_ctx_of(auth),
                ),
                answer: McpAnswer::Called { id: echo(&rpc.id), result },
            }
        },
        _ => McpAction::FindSession { session_id: session_id_of(header) },
    }
}

/// Whether `action` is the next step of answering a request.
pub open spec fn mcp_step(
    auth: AuthContext,
    header: Option<Seq<char>>,
    request: Option<JsonRpcRequest>,
    progress: McpProgress,
    action: McpAction,
) -> bool {
    match request {
        None => fails(action, None, McpError::ParseError),
        Some(rpc) => if rpc.jsonrpc@ != "2.0"@ {
            fails(action, rpc.id, McpError::InvalidRequest)
        } else if rpc.method@ == "initialize"@ {
            initialize_step(auth, rpc, progress, action)
        } else if rpc.method@ == "notifications/initialized"@ {
            action == McpAction::Answer(McpAnswer::Accepted)
        } else if rpc.method@ == "ping"@ {
            action matches McpAction::Answer(McpAnswer::Pong { id }) && echoes(id, rpc.id)
        } else if rpc.method@ == "tools/list"@ {
            list_step(auth, header, rpc, progress, action)
        } else if rpc.method@ == "tools/call"@ {
            call_step(auth, header, rpc, progress, action)
        } else {
            fails(action, rpc.id, McpError::MethodNotFound)
        },
    }
}

/// The next step of answering a request; there is none where the body is no request.
pub fn mcp_handler(auth: &AuthContext, header: Option<&str>, request: &Option<JsonRpcRequest>, progress: McpProgress) -> (action:
    McpAction)
    ensures
        mcp_step(*auth, header_text(header), *request, progress, action),
{
    let rpc = match request {
        None => return McpAction::Answer(McpAnswer::Failed { id: None, error: McpError::ParseError }),
        Some(rpc) => rpc,
    };
    if !same(rpc.jsonrpc.as_str(), "2.0") {
        return McpAction::Answer(McpAnswer::Failed { id: echo(&rpc.id), error: McpError::InvalidRequest });
    }
    let method = rpc.method.as_str();
    if same(method, "initialize") {
        handle_initialize(auth, rpc, progress)
    } else if same(method, "notifications/initialized") {
        McpAction::Answer(McpAnswer::Accepted)
    } else if same(method, "ping") {
        McpAction::Answer(McpAnswer::Pong { id: echo(&rpc.id) })
    } else if same(method, "tools/list") {
        handle_tools_list(auth, header, rpc, progress)
    } else if same(method, "tools/call") {
        handle_tools_call(auth, header, rpc, progress)
    } else {
        McpAction::Answer(McpAnswer::Failed { id: echo(&rpc.id), error: McpError::MethodNotFound })
    }
}

/// A tool runs only for the tenant that both the caller and the session belong to,
/// and only by a request of a caller who may use tools.
pub proof fn tools_stay_in_the_tenant(
    auth: AuthContext,
    header: Option<Seq<char>>,
    request: Option<JsonRpcRequest>,
    progress: McpProgress,
    action: McpAction,
)
    requires
        mcp_step(auth, header, request, progress, action),
        action is RunTool,
    ensures
        tool_caller(auth) is Some,
        action->RunTool_tenant_id == (tool_caller(auth)->Some_0).0,
        progress == McpProgress::SessionFound(Some(action->RunTool_tenant_id)),
{
}

/// What a tool came to is answered only together with the audit row of the call,
/// and a call of a tool that there is none of leaves such a row too. The row tells
/// calls of chats from those of agents and users.
pub proof fn tool_calls_are_recorded(
    auth: AuthContext,
    header: Option<Seq<char>>,
    rpc: JsonRpcRequest,
    progress: McpProgress,
    action: McpAction,
)
    requires
        mcp_step(auth, header, Some(rpc), progress, action),
    ensures
        !(action matches McpAction::Answer(McpAnswer::Called { .. })),
        action matches McpAction::Answer(McpAnswer::Failed { error, .. }) ==> error != McpError::ToolNotFound,
        action matches McpAction::Record { audit, .. } ==> rpc.call is Some && tool_caller(auth) is Some
            && audit.tenant_id == (tool_caller(auth)->Some_0).0 && audit.action@ == "mcp.tools.call."@
            + rpc.call->Some_0.name@ && audit.actor_kind@ == actor_kind_of(auth is McpJwt),
{
}

/// Who may use tools, and as whom: a session with a verified address, a key with the
/// `read` or the `agent` scope, and a chat's runtime with its token.
pub proof fn tools_are_for_callers(auth: AuthContext)
    ensures
        match auth {
            AuthContext::Session(info) => tool_caller(auth) == if info.email_verified {
                Some((info.tenant_id, info.user_id))
            } else {
                None
            },
            AuthContext::ApiKey(key) => tool_caller(auth) == if key.scopes@.contains(Scope::Read)
                || key.scopes@.contains(Scope::Agent) {
                Some((key.tenant_id, key.user_id))
            } else {
                None
            },
            AuthContext::McpJwt(info) => tool_caller(auth) == Some((info.tenant_id, info.user_id)),
            AuthContext::ExpiredSession | AuthContext::Anonymous => tool_caller(auth) is None,
        },
{
}

/// A session may be used by callers of its own tenant alone.
pub proof fn sessions_are_for_their_tenant(auth: AuthContext, session_tenant: Option<Uuid>)
    ensures
        tool_caller(auth) is None ==> session_verdict(auth, session_tenant) == Err::<(Uuid, Option<Uuid>), McpError>(
            McpError::Unauthorized,
        ),
        tool_caller(auth) matches Some((tenant, user)) ==> match session_tenant {
            None => session_verdict(auth, session_tenant) == Err::<(Uuid, Option<Uuid>), McpError>(
                McpError::SessionNotFound,
            ),
            Some(t) => if t == tenant {
                session_verdict(auth, session_tenant) == Ok::<(Uuid, Option<Uuid>), McpError>((t, Some(user)))
            } else {
                session_verdict(auth, session_tenant) == Err::<(Uuid, Option<Uuid>), McpError>(McpError::TenantDrift)
            },
        },
{
}

/// Each method does its own: a request of another version is no request, the
/// notification is accepted, a ping is answered, and an unknown method is told so.
/// `initialize` makes a session for the caller's tenant and names it; `tools/list` shows
/// the tools to who may use the session that the header names. Whoever may not use
/// tools gets an error. The answer repeats the request's ID.
pub proof fn methods_do_their_own(
    auth: AuthContext,
    header: Option<Seq<char>>,
    rpc: JsonRpcRequest,
    progress: McpProgress,
    action: McpAction,
)
    requires
        mcp_step(auth, header, Some(rpc), progress, action),
    ensures
        rpc.jsonrpc@ != "2.0"@ ==> (action matches McpAction::Answer(McpAnswer::Failed { id, error }) && error
            == McpError::InvalidRequest && same_id(id, rpc.id)),
        rpc.jsonrpc@ == "2.0"@ && rpc.method@ == "notifications/initialized"@ ==> (action matches McpAction::Answer(
            McpAnswer::Accepted,
        )),
        rpc.jsonrpc@ == "2.0"@ && rpc.method@ == "ping"@ ==> (action matches McpAction::Answer(McpAnswer::Pong { id })
            && same_id(id, rpc.id)),
        rpc.jsonrpc@ == "2.0"@ && rpc.method@ != "initialize"@ && rpc.method@ != "notifications/initialized"@
            && rpc.method@ != "ping"@ && rpc.method@ != "tools/list"@ && rpc.method@ != "tools/call"@ ==> (action
            matches McpAction::Answer(McpAnswer::Failed { id, error }) && error == McpError::MethodNotFound && same_id(
            id,
            rpc.id,
        )),
        rpc.jsonrpc@ == "2.0"@ && rpc.method@ == "initialize"@ ==> match (tool_caller(auth), progress) {
            (None, _) => action matches McpAction::Answer(McpAnswer::Failed { id, error }) && error
                == McpError::AuthenticationRequired && same_id(id, rpc.id),
            (Some(_), McpProgress::SessionCreated(made)) => action matches McpAction::Answer(
                McpAnswer::Initialized { id, session_id },
            ) && session_id == made && same_id(id, rpc.id),
            (Some((tenant, _)), _) => action matches McpAction::CreateSession { tenant_id } && tenant_id == tenant,
        },
        rpc.jsonrpc@ == "2.0"@ && rpc.method@ == "tools/list"@ ==> match (tool_caller(auth), progress) {
            (None, _) => action matches McpAction::Answer(McpAnswer::Failed { id, error }) && error
                == McpError::Unauthorized && same_id(id, rpc.id),
            (Some((tenant, _)), McpProgress::SessionFound(found)) => if found == Some(tenant) {
                action matches McpAction::Answer(McpAnswer::Tools { id }) && same_id(id, rpc.id)
            } else {
                action matches McpAction::Answer(McpAnswer::Failed { id, error }) && same_id(id, rpc.id) && error
                    == if found is None {
                    McpError::SessionNotFound
                } else {
                    McpError::TenantDrift
                }
            },
            (Some(_), _) => action matches McpAction::FindSession { session_id } && session_id == session_named(header),
        },
{
    reveal_strlit("initialize");
    reveal_strlit("notifications/initialized");
    reveal_strlit("ping");
    reveal_strlit("tools/list");
    reveal_strlit("tools/call");
    assert("initialize"@.len() == 10 && "notifications/initialized"@.len() == 25 && "ping"@.len() == 4);
    assert("tools/list"@.len() == 10 && "tools/call"@.len() == 10);
    assert("initialize"@[0] == 'i' && "tools/list"@[0] == 't' && "tools/call"@[0] == 't');
    assert("tools/list"@[6] == 'l' && "tools/call"@[6] == 'c');
}

/// Whether `id` is the ID of a request again.
pub open spec fn same_id(id: Option<serde_json::Value>, asked: Option<serde_json::Value>) -> bool {
    &&& id is Some <==> asked is Some
    &&& id is Some ==> json_of(id->0) == json_of(asked->0)
}

/// A tool call runs the tool that it names, with its own arguments, for the caller's
/// tenant, once the session that the header names is found to be the tenant's; and what
/// the tool came to is handed back as it is, with a record of how it went.
pub proof fn calls_run_what_they_name(
    auth: AuthContext,
    header: Option<Seq<char>>,
    rpc: JsonRpcRequest,
    progress: McpProgress,
    action: McpAction,
)
    requires
        mcp_step(auth, header, Some(rpc), progress, action),
        rpc.jsonrpc@ == "2.0"@,
        rpc.method@ == "tools/call"@,
    ensures
        tool_caller(auth) is None ==> (action matches McpAction::Answer(McpAnswer::Failed { id, error }) && error
            == McpError::Unauthorized && same_id(id, rpc.id)),
        tool_caller(auth) matches Some((tenant, user)) ==> match progress {
            McpProgress::SessionFound(found) => if found != Some(tenant) {
                action matches McpAction::Answer(McpAnswer::Failed { id, error }) && same_id(id, rpc.id) && error
                    == if found is None {
                    McpError::SessionNotFound
                } else {
                    McpError::TenantDrift
                }
            } else {
                match rpc.call {
                    None => action matches McpAction::Answer(McpAnswer::Failed { id, error }) && error
                        == McpError::InvalidParams && same_id(id, rpc.id),
                    Some(call) => if call.name@ == "search_items"@ || call.name@ == "get_item"@ {
                        &&& action matches McpAction::RunTool { tool, tenant_id, args }
                        &&& tenant_id == tenant
                        &&& tool == if call.name@ == "search_items"@ {
                            Tool::SearchItems
                        } else {
                            Tool::GetItem
                        }
                        &&& call.arguments matches Some(given) ==> json_of(args) == json_of(given)
                        &&& call.arguments is None ==> json_of(args) == Json::Object(Map::empty())
                    } else {
                        &&& action matches McpAction::Record { audit, answer }
                        &&& audit.outcome@ == "error"@
                        &&& answer matches McpAnswer::Failed { id, error }
                        &&& error == McpError::ToolNotFound
                        &&& same_id(id, rpc.id)
                    },
                }
            },
            McpProgress::ToolRan(ran) => rpc.call matches Some(call) ==> {
                &&& action matches McpAction::Record { audit, answer }
                &&& audit.tenant_id == tenant
                &&& audit.actor_user_id == Some(user)
                &&& audit.action@ == "mcp.tools.call."@ + call.name@
                &&& ran is Ok ==> audit.outcome@ == "success"@
                &&& ran is Err ==> audit.outcome@ == "error"@
                &&& audit.actor_kind@ == if auth is McpJwt {
                    "chat"@
                } else {
                    "agent"@
                }
                &&& answer matches McpAnswer::Called { id, result }
                &&& result == ran
                &&& same_id(id, rpc.id)
            },
            _ => action matches McpAction::FindSession { session_id } && session_id == session_named(header),
        },
{
    reveal_strlit("initialize");
    reveal_strlit("notifications/initialized");
    reveal_strlit("ping");
    reveal_strlit("tools/list");
    reveal_strlit("tools/call");
    reveal_strlit("search_items");
    reveal_strlit("get_item");
    assert("initialize"@.len() == 10 && "notifications/initialized"@.len() == 25 && "ping"@.len() == 4);
    assert("tools/list"@.len() == 10 && "tools/call"@.len() == 10);
    assert("initialize"@[0] == 'i' && "tools/list"@[6] == 'l' && "tools/call"@[6] == 'c' && "tools/call"@[0] == 't');
    assert("search_items"@.len() == 12 && "get_item"@.len() == 8);
}

} // verus!
