//! Starts an agent session for the signed-in user.

use crate::agents::session_lifecycle::AgentRuntime;
use crate::agents::sessions::Published;
use crate::caller::{any_session, require_session, AuthContext};
use crate::clock::{now_milliseconds, LAST_MILLISECOND};
use crate::error::AppError;
use crate::ids::Uuid;
use crate::text::{chars_of, lemma_first_place, lowercase_of, same, split_at_first, split_once, string_between};
use vstd::prelude::*;
use vstd::string::*;
use vstd::utf8::*;

verus! {

/// Most bytes of a prompt; the rest is cut off.
pub const MAX_INPUT_PROMPT_LENGTH: usize = 1000;

#[derive(Debug)]
pub struct CreateSessionRequest {
    pub runtime: String,
    pub input_prompt: String,
}

#[derive(Debug)]
pub struct CreateSessionResponse {
    pub session_id: String,
    pub status: String,
}

/// The first word of a runtime's name: what stands before its first underscore.
pub open spec fn first_word(name: Seq<char>) -> Seq<char> {
    match split_at_first(name, '_') {
        Some((word, _)) => word,
        None => name,
    }
}

/// The first word of a runtime's name.
fn short_name(name: &str) -> (s: String)
    ensures
        s@ == first_word(name@),
        !s@.contains('_'),
        s@.len() <= name@.len(),
        s@ == name@.subrange(0, s@.len() as int),
        s@.len() < name@.len() ==> name@[s@.len() as int] == '_',
{
    assert(name@.subrange(0, name@.len() as int) =~= name@);
    match split_once(name, '_') {
        Some((word, _)) => word,
        None => name.to_owned(),
    }
}

/// The runtime that a name stands for, in whatever case it is written. The one of
/// two words goes by the first of them, too.
pub open spec fn runtime_for(name: Seq<char>) -> Result<AgentRuntime, AppError> {
    let lower = lowercase_of(name);
    if lower == "claude_code"@ || lower == first_word("claude_code"@) {
        Ok(AgentRuntime::ClaudeCode)
    } else if lower == "opencode"@ {
        Ok(AgentRuntime::Opencode)
    } else if lower == "pi"@ {
        Ok(AgentRuntime::Pi)
    } else {
        Err(AppError::InvalidInput)
    }
}

/// The runtime that a name stands for.
pub fn parse_runtime(s: &str) -> (r: Result<AgentRuntime, AppError>)
    ensures
        r == runtime_for(s@),
        r matches Err(e) ==> e == AppError::InvalidInput,
        r == Ok::<AgentRuntime, AppError>(AgentRuntime::Opencode) <==> lowercase_of(s@) == "opencode"@,
        r == Ok::<AgentRuntime, AppError>(AgentRuntime::Pi) <==> lowercase_of(s@) == "pi"@,
        r == Ok::<AgentRuntime, AppError>(AgentRuntime::ClaudeCode) <==> lowercase_of(s@) == "claude_code"@
            || lowercase_of(s@) == "claude_code"@.subrange(0, 6),
{
    proof {
        reveal_strlit("claude_code");
        reveal_strlit("opencode");
        reveal_strlit("pi");
        assert("claude_code"@.len() == 11 && "opencode"@.len() == 8 && "pi"@.len() == 2);
        assert("claude_code"@[6] == '_');
        assert(forall|j: int| 0 <= j < 6 ==> "claude_code"@[j] != '_');
        lemma_first_place("claude_code"@, '_', 6);
        assert("claude_code"@.take(6) =~= "claude_code"@.subrange(0, 6));
    }
    let lower = s.to_lowercase();
    let short = short_name("claude_code");
    if same(lower.as_str(), "claude_code") || same(lower.as_str(), short.as_str()) {
        Ok(AgentRuntime::ClaudeCode)
    } else if same(lower.as_str(), "opencode") {
        Ok(AgentRuntime::Opencode)
    } else if same(lower.as_str(), "pi") {
        Ok(AgentRuntime::Pi)
    } else {
        Err(AppError::InvalidInput)
    }
}

/// A runtime's name in the database.
pub open spec fn stored_name(runtime: AgentRuntime) -> Seq<char> {
    match runtime {
        AgentRuntime::ClaudeCode => "claudecode"@,
        AgentRuntime::Opencode => "opencode"@,
        AgentRuntime::Pi => "pi"@,
    }
}

/// A runtime's name in the database.
pub fn runtime_column(runtime: AgentRuntime) -> (s: &'static str)
    ensures
        s@ == stored_name(runtime),
        runtime == AgentRuntime::ClaudeCode ==> s@ == "claudecode"@,
        runtime == AgentRuntime::Opencode ==> s@ == "opencode"@,
        runtime == AgentRuntime::Pi ==> s@ == "pi"@,
{
    match runtime {
        AgentRuntime::ClaudeCode => "claudecode",
        AgentRuntime::Opencode => "opencode",
        AgentRuntime::Pi => "pi",
    }
}

/// Whether a prompt can be cut: it is short enough, or a character ends where it is cut.
pub open spec fn cuttable(prompt: Seq<char>) -> bool {
    encode_utf8(prompt).len() > MAX_INPUT_PROMPT_LENGTH ==> is_char_boundary(
        encode_utf8(prompt),
        MAX_INPUT_PROMPT_LENGTH as int,
    )
}

/// Whether `kept` is what remains of `prompt`: all of it, or its first bytes.
pub open spec fn cut_of(kept: Seq<char>, prompt: Seq<char>) -> bool {
    if encode_utf8(prompt).len() > MAX_INPUT_PROMPT_LENGTH {
        encode_utf8(kept) == encode_utf8(prompt).subrange(0, MAX_INPUT_PROMPT_LENGTH as int)
    } else {
        kept == prompt
    }
}

/// What remains of a prompt.
pub fn cut_prompt(prompt: &str) -> (kept: String)
    requires
        cuttable(prompt@),
    ensures
        cut_of(kept@, prompt@),
        encode_utf8(prompt@).len() <= 1000 ==> kept@ == prompt@,
        encode_utf8(prompt@).len() > 1000 ==> encode_utf8(kept@) == encode_utf8(prompt@).subrange(0, 1000),
{
    if prompt.as_bytes().len() > MAX_INPUT_PROMPT_LENGTH {
        let (head, _) = prompt.split_at(MAX_INPUT_PROMPT_LENGTH);
        head.to_owned()
    } else {
        prompt.to_owned()
    }
}

/// The directory a session works in.
pub open spec fn workspace_of(tenant_id: Uuid, session_id: Uuid) -> Seq<char> {
    "/data/workspaces/"@ + tenant_id.text() + "/"@ + session_id.text()
}

/// The W3C trace context of a session: its own ID is the trace, and the last
/// sixteen digits of another are the span.
pub open spec fn traceparent_of(session_id: Uuid, span_id: Uuid) -> Seq<char> {
    "00-"@ + session_id.simple_text() + "-"@ + span_id.simple_text().skip(16) + "-01"@
}

/// The trace context of a session.
pub fn traceparent(session_id: &Uuid, span_id: &Uuid) -> (s: String)
    ensures
        s@ == traceparent_of(*session_id, *span_id),
        s@ == "00-"@ + session_id.simple_text() + "-"@ + span_id.simple_text().subrange(16, 32) + "-01"@,
{
    let digits = span_id.to_simple_text();
    let span_chars = chars_of(digits.as_str());
    let span = string_between(&span_chars, 16, span_chars.len());
    assert(span@ =~= span_id.simple_text().skip(16));
    assert(span@ =~= span_id.simple_text().subrange(16, 32));
    let trace = session_id.to_simple_text();
    let mut s = "00-".to_owned();
    s.append(trace.as_str());
    s.append("-");
    s.append(span.as_str());
    s.append("-01");
    s
}

/// The row to insert.
#[derive(Debug)]
pub struct SessionRow {
    pub id: Uuid,
    pub tenant_id: Uuid,
    pub created_by: Uuid,
    pub runtime: &'static str,
    pub input_prompt: String,
    pub workspace_path: String,
    pub status: &'static str,
    pub trace_id: String,
}

/// The command that starts the session, and how it is published.
#[derive(Debug)]
pub struct StartCommand {
    pub topic: &'static str,
    pub key: String,
    pub tenant_id: Uuid,
    pub event_id: Uuid,
    pub session_id: Uuid,
    pub runtime: AgentRuntime,
    pub input_prompt: String,
    pub workspace_path: String,
    pub created_at_ms: i64,
    pub traceparent: String,
    pub api_key: String,
}

/// What was learnt last.
#[derive(Debug)]
pub enum CreateProgress {
    /// Nothing yet.
    Begin,
    /// Whether a slot was free, which is now taken.
    Slot(bool),
    /// The row was inserted, in a transaction that is still open.
    Inserted(SessionRow),
    /// How publishing went.
    Published(SessionRow, Published),
}

/// What to do next.
#[derive(Debug)]
pub enum CreateAction {
    /// Take a slot if one is free.
    TakeSlot,
    /// Begin a transaction and insert the row.
    Insert(SessionRow),
    /// Publish the command.
    Publish(StartCommand, SessionRow),
    /// Commit, give the slot back, and answer.
    Finish(CreateSessionResponse),
    /// Roll back what was begun, give the slot back, and refuse.
    Refuse(AppError),
}

impl SessionRow {
    /// Whether this is the row of a new session.
    pub open spec fn made_for(&self, tenant_id: Uuid, user_id: Uuid, runtime: AgentRuntime, prompt: Seq<char>) -> bool {
        &&& self.id.is_v4()
        &&& self.tenant_id == tenant_id
        &&& self.created_by == user_id
        &&& self.runtime@ == stored_name(runtime)
        &&& cut_of(self.input_prompt@, prompt)
        &&& self.workspace_path@ == workspace_of(tenant_id, self.id)
        &&& self.status@ == "pending"@
        &&& traced(self.trace_id@, self.id)
    }
}

/// Whether `trace` is a trace context of the session.
pub open spec fn traced(trace: Seq<char>, session_id: Uuid) -> bool {
    exists|span_id: Uuid| span_id.is_v4() && trace == #[trigger] traceparent_of(session_id, span_id)
}

/// The API key of the tenant's with this secret.
pub open spec fn session_key(tenant_id: Uuid, secret: Uuid) -> Seq<char> {
    "rb_session_"@ + tenant_id.text() + "_"@ + secret.text()
}

impl StartCommand {
    /// Whether this command starts the session of `row`, made at `now_ms` with
    /// these IDs for the event and for the secret of the session's key.
    pub open spec fn starts_at(
        &self,
        row: SessionRow,
        tenant_id: Uuid,
        runtime: AgentRuntime,
        event_id: Uuid,
        secret: Uuid,
        now_ms: i64,
    ) -> bool {
        &&& self.topic@ == "rb.agent.commands"@
        &&& self.key@ == row.id.text()
        &&& self.tenant_id == tenant_id
        &&& self.event_id == event_id
        &&& self.session_id == row.id
        &&& self.runtime == runtime
        &&& self.input_prompt@ == row.input_prompt@
        &&& self.workspace_path@ == row.workspace_path@
        &&& self.created_at_ms == now_ms
        &&& self.traceparent@ == row.trace_id@
        &&& self.api_key@ == session_key(tenant_id, secret)
    }

    /// Whether this command starts the session of `row`, made with random IDs at some
    /// time the clock can show.
    pub open spec fn starts(&self, row: SessionRow, tenant_id: Uuid, runtime: AgentRuntime) -> bool {
        exists|event_id: Uuid, secret: Uuid, now_ms: i64|
            event_id.is_v4() && secret.is_v4() && 0 <= now_ms && now_ms <= LAST_MILLISECOND && #[trigger] self.starts_at(
                row,
                tenant_id,
                runtime,
                event_id,
                secret,
                now_ms,
            )
    }
}

/// The row of a new session.
fn new_row(tenant_id: Uuid, user_id: Uuid, runtime: AgentRuntime, prompt: &str) -> (row: SessionRow)
    requires
        cuttable(prompt@),
    ensures
        row.made_for(tenant_id, user_id, runtime, prompt@),
        row.tenant_id == tenant_id,
        row.created_by == user_id,
        row.status@ == "pending"@,
        row.workspace_path@ == "/data/workspaces/"@ + tenant_id.text() + "/"@ + row.id.text(),
        encode_utf8(prompt@).len() <= 1000 ==> row.input_prompt@ == prompt@,
        encode_utf8(prompt@).len() > 1000 ==> encode_utf8(row.input_prompt@) == encode_utf8(prompt@).subrange(0, 1000),
{
    let id = Uuid::new_v4();
    let mut workspace_path = "/data/workspaces/".to_owned();
    let tenant_text = tenant_id.to_text();
    let id_text = id.to_text();
    workspace_path.append(tenant_text.as_str());
    workspace_path.append("/");
    workspace_path.append(id_text.as_str());
    let span_id = Uuid::new_v4();
    let trace_id = traceparent(&id, &span_id);
    assert(traced(trace_id@, id));
    SessionRow {
        id,
        tenant_id,
        created_by: user_id,
        runtime: runtime_column(runtime),
        input_prompt: cut_prompt(prompt),
        workspace_path,
        status: "pending",
        trace_id,
    }
}

/// The command that starts a session, made at `now_ms` with these IDs for the event
/// and for the secret of the session's key.
pub fn start_command(
    tenant_id: Uuid,
    runtime: AgentRuntime,
    row: &SessionRow,
    event_id: Uuid,
    secret: Uuid,
    now_ms: i64,
) -> (c: StartCommand)
    ensures
        c.starts_at(*row, tenant_id, runtime, event_id, secret, now_ms),
        c.topic@ == "rb.agent.commands"@,
        c.key@ == row.id.text(),
        c.tenant_id == tenant_id,
        c.event_id == event_id,
        c.session_id == row.id,
        c.runtime == runtime,
        c.input_prompt@ == row.input_prompt@,
        c.workspace_path@ == row.workspace_path@,
        c.created_at_ms == now_ms,
        c.traceparent@ == row.trace_id@,
        c.api_key@ == "rb_session_"@ + tenant_id.text() + "_"@ + secret.text(),
{
    let mut api_key = "rb_session_".to_owned();
    let tenant_text = tenant_id.to_text();
    let secret_text = secret.to_text();
    api_key.append(tenant_text.as_str());
    api_key.append("_");
    api_key.append(secret_text.as_str());
    StartCommand {
        topic: "rb.agent.commands",
        key: row.id.to_text(),
        tenant_id,
        event_id,
        session_id: row.id,
        runtime,
        input_prompt: row.input_prompt.clone(),
        workspace_path: row.workspace_path.clone(),
        created_at_ms: now_ms,
        traceparent: row.trace_id.clone(),
        api_key,
    }
}

/// The next step of starting a session. The row becomes visible only once the
/// command is published.
pub fn create_session(auth: &AuthContext, req: &CreateSessionRequest, progress: CreateProgress) -> (action: CreateAction)
    requires
        any_session(*auth) is Ok && runtime_for(req.runtime@) is Ok ==> cuttable(req.input_prompt@),
    ensures
        match (any_session(*auth), runtime_for(req.runtime@)) {
            (Err(e), _) => action == CreateAction::Refuse(e),
            (Ok(_), Err(e)) => action == CreateAction::Refuse(e),
            (Ok(session), Ok(runtime)) => match progress {
                CreateProgress::Begin => action is TakeSlot,
                CreateProgress::Slot(false) => action == CreateAction::Refuse(AppError::SessionCapExceeded),
                CreateProgress::Slot(true) => action matches CreateAction::Insert(row) && row.made_for(
                    session.tenant_id,
                    session.user_id,
                    runtime,
                    req.input_prompt@,
                ),
                CreateProgress::Inserted(row) => action matches CreateAction::Publish(command, kept) && kept == row
                    && command.starts(row, session.tenant_id, runtime),
                CreateProgress::Published(_, Published::NoProducer) => action == CreateAction::Refuse(
                    AppError::KafkaNotConfigured,
                ),
                CreateProgress::Published(_, Published::Failed) => action == CreateAction::Refuse(
                    AppError::KafkaPublish,
                ),
                CreateProgress::Published(row, Published::Done) => action matches CreateAction::Finish(response)
                    && response.session_id@ == row.id.text() && response.status@ == "pending"@,
            },
        },
        action matches CreateAction::Insert(row) ==> {
            &&& auth matches AuthContext::Session(info)
            &&& row.tenant_id == info.tenant_id
            &&& row.created_by == info.user_id
            &&& row.id.is_v4()
            &&& row.status@ == "pending"@
            &&& row.workspace_path@ == "/data/workspaces/"@ + info.tenant_id.text() + "/"@ + row.id.text()
            &&& encode_utf8(req.input_prompt@).len() <= 1000 ==> row.input_prompt@ == req.input_prompt@
        },
        action matches CreateAction::Publish(command, row) ==> command.topic@ == "rb.agent.commands"@ && command.key@
            == row.id.text() && command.session_id == row.id && command.input_prompt@ == row.input_prompt@
            && command.workspace_path@ == row.workspace_path@ && command.traceparent@ == row.trace_id@,
{
    let session = match require_session(auth) {
        Err(e) => return CreateAction::Refuse(e),
        Ok(s) => s,
    };
    let runtime = match parse_runtime(req.runtime.as_str()) {
        Err(e) => return CreateAction::Refuse(e),
        Ok(r) => r,
    };
    match progress {
        CreateProgress::Begin => CreateAction::TakeSlot,
        CreateProgress::Slot(false) => CreateAction::Refuse(AppError::SessionCapExceeded),
        CreateProgress::Slot(true) => CreateAction::Insert(
            new_row(session.tenant_id, session.user_id, runtime, req.input_prompt.as_str()),
        ),
        CreateProgress::Inserted(row) => {
            let (event_id, secret) = (Uuid::new_v4(), Uuid::new_v4());
            let now_ms: i64 = now_milliseconds();
            let command = start_command(session.tenant_id, runtime, &row, event_id, secret, now_ms);
            assert(command.starts_at(row, session.tenant_id, runtime, event_id, secret, now_ms));
            CreateAction::Publish(command, row)
        },
        CreateProgress::Published(_, Published::NoProducer) => CreateAction::Refuse(AppError::KafkaNotConfigured),
        CreateProgress::Published(_, Published::Failed) => CreateAction::Refuse(AppError::KafkaPublish),
        CreateProgress::Published(row, Published::Done) => CreateAction::Finish(
            CreateSessionResponse { session_id: row.id.to_text(), status: "pending".to_owned() },
        ),
    }
}

} // verus!
