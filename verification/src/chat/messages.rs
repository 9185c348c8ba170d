//! `POST /v1/chat/sessions/{id}/messages` and
//! `GET /v1/chat/sessions/{id}/messages`: say something, and read what was said.

use crate::agents::session_lifecycle::{default_workspace, parse_runtime, runtime_named};
use crate::agents::sessions::{agent_message, AgentCommand, AgentMessage};
use crate::caller::AuthContext;
use crate::chat::db::{ChatMessageRow, ChatSessionRow};
use crate::chat::sessions::{chat_entry, enter_chat, message_dtos, ChatMessageDto};
use crate::error::AppError;
use crate::ids::Uuid;
use crate::text::same;
use vstd::prelude::*;
use vstd::string::*;
use vstd::utf8::*;

verus! {

/// Most bytes of a message (64 KiB).
pub const MESSAGE_BODY_MAX_BYTES: usize = 65_536;

#[derive(Debug)]
pub struct PostMessageRequest {
    pub content: String,
}

#[derive(Debug, Clone, Copy, PartialEq, Eq)]
pub struct PostMessageResponse {
    pub message_id: Uuid,
    pub seq: i32,
}

/// The service's settings, as far as messages depend on them.
#[derive(Debug)]
pub struct ChatSettings {
    pub enabled: bool,
    /// Whether commands can be published.
    pub has_producer: bool,
    /// The secret that tool-server tokens are signed with.
    pub mcp_jwt_secret: String,
    /// For how many seconds tool-server tokens are good.
    pub mcp_jwt_ttl_secs: i64,
}

/// Why a message was not kept.
#[derive(Debug, Clone, Copy, PartialEq, Eq)]
pub enum InsertFailure {
    /// The tenant has no such session any more.
    NoSession,
    /// A database statement failed.
    Database,
}

/// What the tool-server token of a session says.
#[derive(Debug, Clone, Copy, PartialEq, Eq)]
pub struct McpTokenClaims {
    pub sub: Uuid,
    pub tenant_id: Uuid,
    pub user_id: Uuid,
}

/// A message that was kept.
#[derive(Debug)]
pub struct KeptMessage {
    pub message_id: Uuid,
    pub seq: i32,
    /// The runtime of the session.
    pub runtime: String,
}

/// What was learnt last.
#[derive(Debug)]
pub enum PostProgress {
    /// Nothing yet.
    Begin,
    /// The tenant's session with the ID, if there is one.
    Found(Option<ChatSessionRow>),
    /// The message, unless it was not kept.
    Inserted(Result<KeptMessage, InsertFailure>),
    /// The tool-server token, unless it could not be made.
    Minted(KeptMessage, Option<String>),
    /// Whether the commands were published.
    Published(PostMessageResponse, bool),
}

/// What to do next.
#[derive(Debug)]
pub enum PostAction {
    /// Look the session up, among those of the tenant.
    FindSession { id: Uuid, tenant_id: Uuid },
    /// Keep the message as the next one of the session, if the tenant has that session
    /// still; `appended` says under which number.
    Insert {
        message_id: Uuid,
        session_id: Uuid,
        tenant_id: Uuid,
        role: &'static str,
        body: String,
        runtime: String,
    },
    /// Make a tool-server token with these claims, signed with this secret and good for
    /// so many seconds.
    MintToken { secret: String, ttl_secs: i64, claims: McpTokenClaims, message: KeptMessage },
    /// Publish the messages in this order, and no others.
    Publish { messages: Vec<AgentMessage>, response: PostMessageResponse },
    /// Accept.
    Accept(PostMessageResponse),
    /// Refuse.
    Refuse(AppError),
}

/// Whether `message` hands `content` to the session.
pub open spec fn is_input(message: AgentMessage, tenant: Uuid, session: Uuid, content: Seq<char>) -> bool {
    &&& message.goes_to(tenant, session)
    &&& message.command.command matches AgentCommand::Input { input }
    &&& input@ == content
}

/// Whether `message` starts the session's agent in its own workspace, without a prompt.
pub open spec fn is_start(
    message: AgentMessage,
    tenant: Uuid,
    session: Uuid,
    runtime_name: Seq<char>,
    token: Seq<char>,
) -> bool {
    &&& message.goes_to(tenant, session)
    &&& message.command.command matches AgentCommand::Start { runtime, initial_prompt, workspace_path, api_key }
    &&& Some(runtime) == runtime_named(runtime_name)
    &&& initial_prompt@ == Seq::<char>::empty()
    &&& workspace_path@ == default_workspace(tenant, session)
    &&& api_key@ == token
}

fn input_message(tenant_id: Uuid, session_id: Uuid, content: &str) -> (m: AgentMessage)
    ensures
        is_input(m, tenant_id, session_id, content@),
{
    agent_message(tenant_id, session_id, AgentCommand::Input { input: content.to_owned() })
}

/// Whether `action` is the next step of posting a message.
pub open spec fn post_step(
    settings: ChatSettings,
    auth: AuthContext,
    session_id: Uuid,
    req: PostMessageRequest,
    progress: PostProgress,
    action: PostAction,
) -> bool {
    match chat_entry(settings.enabled, auth) {
        Err(e) => action == PostAction::Refuse(e),
        Ok(caller) => if encode_utf8(req.content@).len() > MESSAGE_BODY_MAX_BYTES {
            action == PostAction::Refuse(AppError::InvalidInput)
        } else {
            match progress {
                PostProgress::Begin => action == (PostAction::FindSession {
                    id: session_id,
                    tenant_id: caller.tenant_id,
                }),
                PostProgress::Found(None) => action == PostAction::Refuse(AppError::ChatSessionNotFound),
                PostProgress::Found(Some(session)) => if session.status@ != "active"@ {
                    action == PostAction::Refuse(AppError::ChatSessionNotActive)
                } else {
                    &&& action matches PostAction::Insert {
                        message_id,
                        session_id: kept_in,
                        tenant_id,
                        role,
                        body,
                        runtime,
                    }
                    &&& message_id.is_v4()
                    &&& kept_in == session_id
                    &&& tenant_id == caller.tenant_id
                    &&& role@ == "user"@
                    &&& body@ == req.content@
                    &&& runtime == session.runtime
                },
                PostProgress::Inserted(Err(InsertFailure::NoSession)) => action == PostAction::Refuse(
                    AppError::ChatSessionNotFound,
                ),
                PostProgress::Inserted(Err(InsertFailure::Database)) => action == PostAction::Refuse(
                    AppError::Internal,
                ),
                PostProgress::Inserted(Ok(message)) => if !settings.has_producer {
                    action == PostAction::Refuse(AppError::KafkaNotConfigured)
                } else if message.seq != 1 {
                    &&& action matches PostAction::Publish { messages, response }
                    &&& messages@.len() == 1
                    &&& is_input(messages@[0], caller.tenant_id, session_id, req.content@)
                    &&& response == (PostMessageResponse { message_id: message.message_id, seq: message.seq })
                } else if runtime_named(message.runtime@) is None {
                    action == PostAction::Refuse(AppError::InvalidInput)
                } else if settings.mcp_jwt_secret@.len() == 0 {
                    action == PostAction::Refuse(AppError::Internal)
                } else {
                    &&& action matches PostAction::MintToken { secret, ttl_secs, claims, message: kept }
                    &&& secret@ == settings.mcp_jwt_secret@
                    &&& ttl_secs == settings.mcp_jwt_ttl_secs
                    &&& claims == (McpTokenClaims {
                        sub: session_id,
                        tenant_id: caller.tenant_id,
                        user_id: caller.user_id,
                    })
                    &&& kept == message
                },
                PostProgress::Minted(_, None) => action == PostAction::Refuse(AppError::Internal),
                PostProgress::Minted(message, Some(token)) => if runtime_named(message.runtime@) is None {
                    action == PostAction::Refuse(AppError::InvalidInput)
                } else {
                    &&& action matches PostAction::Publish { messages, response }
                    &&& messages@.len() == 2
                    &&& is_start(messages@[0], caller.tenant_id, session_id, message.runtime@, token@)
                    &&& is_input(messages@[1], caller.tenant_id, session_id, req.content@)
                    &&& response == (PostMessageResponse { message_id: message.message_id, seq: message.seq })
                },
                PostProgress::Published(_, false) => action == PostAction::Refuse(AppError::Internal),
                PostProgress::Published(response, true) => action == PostAction::Accept(response),
            }
        },
    }
}

/// The next step of posting a message.
///
/// The first message of a session starts its agent and is then handed to it; every
/// other one is only handed on. All that is published for a session goes under its
/// key.
pub fn post_chat_message(
    settings: &ChatSettings,
    auth: &AuthContext,
    session_id: Uuid,
    req: &PostMessageRequest,
    progress: PostProgress,
) -> (action: PostAction)
    ensures
        post_step(*settings, *auth, session_id, *req, progress, action),
{
    let caller = match enter_chat(settings.enabled, auth) {
        Err(e) => return PostAction::Refuse(e),
        Ok(c) => c,
    };
    if req.content.as_str().as_bytes().len() > MESSAGE_BODY_MAX_BYTES {
        return PostAction::Refuse(AppError::InvalidInput);
    }
    match progress {
        PostProgress::Begin => PostAction::FindSession { id: session_id, tenant_id: caller.tenant_id },
        PostProgress::Found(None) => PostAction::Refuse(AppError::ChatSessionNotFound),
        PostProgress::Found(Some(session)) => if !same(session.status.as_str(), "active") {
            PostAction::Refuse(AppError::ChatSessionNotActive)
        } else {
            PostAction::Insert {
                message_id: Uuid::new_v4(),
                session_id,
                tenant_id: caller.tenant_id,
                role: "user",
                body: req.content.clone(),
                runtime: session.runtime,
            }
        },
        PostProgress::Inserted(outcome) => match outcome {
            Err(InsertFailure::NoSession) => PostAction::Refuse(AppError::ChatSessionNotFound),
            Err(InsertFailure::Database) => PostAction::Refuse(AppError::Internal),
            Ok(message) => {
                if !settings.has_producer {
                    return PostAction::Refuse(AppError::KafkaNotConfigured);
                }
                if message.seq != 1 {
                    let mut messages: Vec<AgentMessage> = Vec::new();
                    messages.push(input_message(caller.tenant_id, session_id, req.content.as_str()));
                    return PostAction::Publish {
                        messages,
                        response: PostMessageResponse { message_id: message.message_id, seq: message.seq },
                    };
                }
                if parse_runtime(message.runtime.as_str()).is_none() {
                    return PostAction::Refuse(AppError::InvalidInput);
                }
                if settings.mcp_jwt_secret.as_str().is_empty() {
                    return PostAction::Refuse(AppError::Internal);
                }
                PostAction::MintToken {
                    secret: settings.mcp_jwt_secret.clone(),
                    ttl_secs: settings.mcp_jwt_ttl_secs,
                    claims: McpTokenClaims { sub: session_id, tenant_id: caller.tenant_id, user_id: caller.user_id },
                    message,
                }
            },
        },
        PostProgress::Minted(message, token) => match token {
            None => PostAction::Refuse(AppError::Internal),
            Some(api_key) => {
                let runtime = match parse_runtime(message.runtime.as_str()) {
                    None => return PostAction::Refuse(AppError::InvalidInput),
                    Some(r) => r,
                };
                let mut workspace_path = caller.tenant_id.to_text();
                workspace_path.append("/");
                workspace_path.append(session_id.to_text().as_str());
                let start = AgentCommand::Start { runtime, initial_prompt: String::new(), workspace_path, api_key };
                let mut messages: Vec<AgentMessage> = Vec::new();
                messages.push(agent_message(caller.tenant_id, session_id, start));
                messages.push(input_message(caller.tenant_id, session_id, req.content.as_str()));
                PostAction::Publish {
                    messages,
                    response: PostMessageResponse { message_id: message.message_id, seq: message.seq },
                }
            },
        },
        PostProgress::Published(response, done) => if done {
            PostAction::Accept(response)
        } else {
            PostAction::Refuse(AppError::Internal)
        },
    }
}

/// A message of a session, as it is kept.
pub struct LoggedMessage {
    pub seq: int,
    pub message_id: Uuid,
    pub role: Seq<char>,
    pub body: Seq<char>,
}

/// The largest number in a session's messages; 0 where there are none.
pub open spec fn largest_seq(log: Seq<LoggedMessage>) -> int
    decreases log.len(),
{
    if log.len() == 0 {
        0
    } else {
        let before = largest_seq(log.drop_last());
        if log.last().seq > before {
            log.last().seq
        } else {
            before
        }
    }
}

/// A session's messages once one more is kept, under the number after the largest.
pub open spec fn appended(log: Seq<LoggedMessage>, message_id: Uuid, role: Seq<char>, body: Seq<char>) -> Seq<
    LoggedMessage,
> {
    log.push(LoggedMessage { seq: largest_seq(log) + 1, message_id, role, body })
}

/// Whether the messages have the numbers from 1 on, in order.
pub open spec fn numbered(log: Seq<LoggedMessage>) -> bool {
    forall|i: int| 0 <= i < log.len() ==> (#[trigger] log[i]).seq == i + 1
}

proof fn lemma_largest(log: Seq<LoggedMessage>)
    requires
        numbered(log),
    ensures
        largest_seq(log) == log.len(),
    decreases log.len(),
{
    if log.len() > 0 {
        let rest = log.drop_last();
        assert forall|i: int| 0 <= i < rest.len() implies (#[trigger] rest[i]).seq == i + 1 by {
            assert(rest[i] == log[i]);
        }
        lemma_largest(rest);
        assert(log[log.len() - 1].seq == log.len());
    }
}

/// The messages of a session have the numbers from 1 on, without a gap and without a
/// repetition: an empty session has, and keeping one more keeps it so.
pub proof fn messages_are_numbered_on(
    log: Seq<LoggedMessage>,
    message_id: Uuid,
    role: Seq<char>,
    body: Seq<char>,
)
    requires
        numbered(log),
    ensures
        numbered(Seq::<LoggedMessage>::empty()),
        numbered(appended(log, message_id, role, body)),
        appended(log, message_id, role, body).last().seq == log.len() + 1,
{
    lemma_largest(log);
}

/// Only the first message of a session starts an agent: once there is one, a message
/// that is kept under the next number is handed on and nothing else.
pub proof fn an_agent_is_started_once(
    log: Seq<LoggedMessage>,
    settings: ChatSettings,
    auth: AuthContext,
    session_id: Uuid,
    req: PostMessageRequest,
    message: KeptMessage,
    action: PostAction,
)
    requires
        numbered(log),
        message.seq == largest_seq(log) + 1,
        post_step(settings, auth, session_id, req, PostProgress::Inserted(Ok(message)), action),
    ensures
        action is MintToken ==> log.len() == 0,
        log.len() > 0 && action is Publish ==> action->messages@.len() == 1 && (action->messages@[0].command.command
            is Input),
{
    lemma_largest(log);
}

#[derive(Debug, Clone, Copy, Default)]
pub struct ListMessagesParams {
    /// Only messages after this one.
    pub after_seq: Option<i32>,
    /// Max messages to return (default 50, max 200).
    pub limit: Option<i64>,
}

#[derive(Debug)]
pub struct ListMessagesResponse {
    pub messages: Vec<ChatMessageDto>,
    pub has_more: bool,
}

/// Page size when the query does not say.
pub const DEFAULT_MESSAGES: i64 = 50;

/// The largest page.
pub const MAX_MESSAGES: i64 = 200;

/// The page size for a requested one.
pub open spec fn message_limit(requested: Option<i64>) -> i64 {
    match requested {
        None => DEFAULT_MESSAGES,
        Some(n) => if n < 1 {
            1
        } else if n > MAX_MESSAGES {
            MAX_MESSAGES
        } else {
            n
        },
    }
}

impl ListMessagesParams {
    /// The page size.
    pub fn effective_limit(&self) -> (n: i64)
        ensures
            n == message_limit(self.limit),
            1 <= n <= MAX_MESSAGES,
            self.limit is None ==> n == 50,
            self.limit matches Some(k) ==> (1 <= k <= 200 ==> n == k) && (k < 1 ==> n == 1) && (k > 200 ==> n == 200),
    {
        match self.limit {
            None => DEFAULT_MESSAGES,
            Some(n) => if n < 1 {
                1
            } else if n > MAX_MESSAGES {
                MAX_MESSAGES
            } else {
                n
            },
        }
    }
}

/// What was learnt last.
#[derive(Debug)]
pub enum ListProgress {
    /// Nothing yet.
    Begin,
    /// Whether the tenant has such a session.
    Found(bool),
    /// The messages that were read.
    Listed(Vec<ChatMessageRow>),
}

/// What to do next.
#[derive(Debug)]
pub enum ListAction {
    /// Look the session up, among those of the tenant.
    FindSession { id: Uuid, tenant_id: Uuid },
    /// Read the messages of the session after this one in ascending order, at most
    /// this many.
    Query { session_id: Uuid, tenant_id: Uuid, after_seq: Option<i32>, rows: i64 },
    /// Answer.
    Answer(ListMessagesResponse),
    /// Refuse.
    Refuse(AppError),
}

/// The next step of reading messages. One row more than the page holds is read, to
/// see whether there are more.
pub fn list_chat_messages(
    enabled: bool,
    auth: &AuthContext,
    session_id: Uuid,
    params: &ListMessagesParams,
    progress: ListProgress,
) -> (action: ListAction)
    ensures
        match chat_entry(enabled, *auth) {
            Err(e) => action == ListAction::Refuse(e),
            Ok(caller) => match progress {
                ListProgress::Begin => action == (ListAction::FindSession {
                    id: session_id,
                    tenant_id: caller.tenant_id,
                }),
                ListProgress::Found(false) => action == ListAction::Refuse(AppError::ChatSessionNotFound),
                ListProgress::Found(true) => action == (ListAction::Query {
                    session_id,
                    tenant_id: caller.tenant_id,
                    after_seq: params.after_seq,
                    rows: (message_limit(params.limit) + 1) as i64,
                }),
                ListProgress::Listed(rows) => {
                    let limit = message_limit(params.limit) as int;
                    &&& action matches ListAction::Answer(resp)
                    &&& resp.has_more == (rows@.len() > limit)
                    &&& resp.messages@ == (if rows@.len() > limit {
                        rows@.take(limit)
                    } else {
                        rows@
                    }).map_values(|r: ChatMessageRow| ChatMessageDto::of(r))
                },
            },
        },
        action matches ListAction::Answer(resp) ==> match progress {
            ListProgress::Listed(rows) => {
                &&& resp.messages@.len() <= rows@.len()
                &&& resp.has_more == (resp.messages@.len() < rows@.len())
                &&& forall|i: int|
                    0 <= i < resp.messages@.len() ==> {
                        let (shown, row) = (#[trigger] resp.messages@[i], rows@[i]);
                        &&& shown.id == row.id
                        &&& shown.seq == row.seq
                        &&& shown.role == row.role
                        &&& shown.body == row.body
                        &&& shown.created_at == row.created_at
                    }
            },
            _ => false,
        },
{
    let caller = match enter_chat(enabled, auth) {
        Err(e) => return ListAction::Refuse(e),
        Ok(c) => c,
    };
    let limit: i64 = params.effective_limit();
    match progress {
        ListProgress::Begin => ListAction::FindSession { id: session_id, tenant_id: caller.tenant_id },
        ListProgress::Found(false) => ListAction::Refuse(AppError::ChatSessionNotFound),
        ListProgress::Found(true) => ListAction::Query {
            session_id,
            tenant_id: caller.tenant_id,
            after_seq: params.after_seq,
            rows: limit + 1,
        },
        ListProgress::Listed(rows) => {
            let mut page = rows;
            let has_more = page.len() > limit as usize;
            if has_more {
                page.truncate(limit as usize);
            }
            ListAction::Answer(ListMessagesResponse { messages: message_dtos(page), has_more })
        },
    }
}

/// A page of messages is as long as it is asked for, between 1 and 200, and 50 long if
/// it is not; one row more is read than it holds.
pub proof fn pages_of_messages(requested: i64)
    ensures
        message_limit(None) == 50,
        1 <= requested <= 200 ==> message_limit(Some(requested)) == requested,
        requested < 1 ==> message_limit(Some(requested)) == 1,
        requested > 200 ==> message_limit(Some(requested)) == 200,
{
}

/// What becomes of a message that is posted, step by step: a chat that is switched off, a
/// caller who may not, and a message that is too long are refused; the session must be
/// there and active; the message is kept as the user's; and it is handed to the session's
/// agent, which the first message starts, all under the session's key.
pub proof fn posted_messages_reach_the_agent(
    settings: ChatSettings,
    auth: AuthContext,
    session_id: Uuid,
    req: PostMessageRequest,
    progress: PostProgress,
    action: PostAction,
)
    requires
        post_step(settings, auth, session_id, req, progress, action),
    ensures
        chat_entry(settings.enabled, auth) matches Err(e) ==> action == PostAction::Refuse(e),
        chat_entry(settings.enabled, auth) is Ok && encode_utf8(req.content@).len() > 65_536 ==> action
            == PostAction::Refuse(AppError::InvalidInput),
        chat_entry(settings.enabled, auth) matches Ok(caller) ==> encode_utf8(req.content@).len() <= 65_536
            ==> match progress {
            PostProgress::Begin => action matches PostAction::FindSession { id, tenant_id } && id == session_id
                && tenant_id == caller.tenant_id,
            PostProgress::Found(None) => action == PostAction::Refuse(AppError::ChatSessionNotFound),
            PostProgress::Found(Some(row)) => if row.status@ == "active"@ {
                &&& action matches PostAction::Insert { session_id: s, tenant_id, role, body, runtime, .. }
                &&& s == session_id
                &&& tenant_id == caller.tenant_id
                &&& role@ == "user"@
                &&& body@ == req.content@
                &&& runtime == row.runtime
            } else {
                action == PostAction::Refuse(AppError::ChatSessionNotActive)
            },
            PostProgress::Inserted(Err(why)) => action == PostAction::Refuse(
                if why == InsertFailure::NoSession {
                    AppError::ChatSessionNotFound
                } else {
                    AppError::Internal
                },
            ),
            PostProgress::Inserted(Ok(kept)) => {
                &&& !settings.has_producer ==> action == PostAction::Refuse(AppError::KafkaNotConfigured)
                &&& settings.has_producer && kept.seq != 1 ==> {
                    &&& action matches PostAction::Publish { messages, response }
                    &&& messages@.len() == 1
                    &&& handed_on(messages@[0], caller.tenant_id, session_id, req.content@)
                    &&& response.message_id == kept.message_id && response.seq == kept.seq
                }
                &&& settings.has_producer && kept.seq == 1 && action is MintToken ==> {
                    &&& action->claims.sub == session_id
                    &&& action->claims.tenant_id == caller.tenant_id
                    &&& action->claims.user_id == caller.user_id
                    &&& action->secret@ == settings.mcp_jwt_secret@
                    &&& settings.mcp_jwt_secret@.len() > 0
                    &&& action->message == kept
                }
                &&& settings.has_producer && kept.seq == 1 && (kept.runtime@ == "claude_code"@ || kept.runtime@
                    == "opencode"@ || kept.runtime@ == "pi"@) && settings.mcp_jwt_secret@.len() > 0 ==> action is MintToken
            },
            PostProgress::Minted(kept, token) => match action {
                PostAction::Publish { messages, response } => {
                    &&& token is Some
                    &&& messages@.len() == 2
                    &&& messages@[0].command.command matches AgentCommand::Start {
                        runtime,
                        initial_prompt,
                        workspace_path,
                        api_key,
                    }
                    &&& Some(runtime) == runtime_named(kept.runtime@)
                    &&& initial_prompt@.len() == 0
                    &&& workspace_path@ == caller.tenant_id.text() + "/"@ + session_id.text()
                    &&& api_key@ == token->0@
                    &&& messages@[0].topic@ == "rb.agent.commands"@
                    &&& messages@[0].key@ == session_id.bytes()
                    &&& messages@[0].tenant_id == caller.tenant_id
                    &&& messages@[0].command.session_id@ == session_id.text()
                    &&& handed_on(messages@[1], caller.tenant_id, session_id, req.content@)
                    &&& response.message_id == kept.message_id && response.seq == kept.seq
                },
                PostAction::Refuse(e) => (token is None && e == AppError::Internal) || (token is Some && runtime_named(
                    kept.runtime@,
                ) is None && e == AppError::InvalidInput),
                _ => false,
            },
            PostProgress::Published(response, done) => if done {
                action == PostAction::Accept(response)
            } else {
                action == PostAction::Refuse(AppError::Internal)
            },
        },
{
}

/// Whether `message` hands `content` to the session's agent, under the session's key.
pub open spec fn handed_on(message: AgentMessage, tenant: Uuid, session: Uuid, content: Seq<char>) -> bool {
    &&& message.topic@ == "rb.agent.commands"@
    &&& message.key@ == session.bytes()
    &&& message.tenant_id == tenant
    &&& message.command.session_id@ == session.text()
    &&& message.command.command matches AgentCommand::Input { input }
    &&& input@ == content
}

} // verus!
