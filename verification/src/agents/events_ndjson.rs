//! `GET /v1/agents/sessions/{id}/log.ndjson`: a session's whole transcript, one
//! JSON object per line.

use crate::agents::access::{
    admin_key, barred, caller_tenant, is_admin, is_raw_flag, raw_flag, refusal, tenant_of, Ownership,
};
use crate::agents::events_history::{session_events_of, EventItem, EventsQuery};
use crate::caller::{AuthContext, Scope};
use crate::clock::instant_json;
use crate::error::AppError;
use crate::ids::Uuid;
use crate::json::{self, json_of, json_text, Json};
use vstd::prelude::*;
use vstd::string::*;

verus! {

#[derive(Debug)]
pub struct NdjsonParams {
    /// `1` asks for payloads as they are, which takes an admin key.
    pub raw: Option<String>,
}

impl NdjsonParams {
    /// Whether payloads are asked for as they are.
    pub fn is_raw(&self) -> (r: bool)
        ensures
            r == raw_flag(self.raw),
    {
        is_raw_flag(&self.raw)
    }
}

/// The JSON text of an event, its fields in the order of `EventItem`.
pub open spec fn event_line(row: EventItem) -> Seq<char> {
    "{\"id\":"@ + json_text(Json::Str(row.id.text())) + ",\"session_id\":"@ + json_text(Json::Str(row.session_id.text()))
        + ",\"tenant_id\":"@ + json_text(Json::Str(row.tenant_id.text())) + ",\"event_type\":"@ + json_text(
        Json::Str(row.event_type@),
    ) + ",\"sequence\":"@ + json_text(Json::Int(row.sequence as int)) + ",\"payload\":"@ + json_text(
        json_of(row.payload),
    ) + ",\"created_at\":"@ + json_text(instant_json(row.created_at.micros)) + "}"@
}

/// Whether `s` is one line.
pub open spec fn one_line(s: Seq<char>) -> bool {
    !s.contains('\n')
}

/// Two pieces of one line are one line.
proof fn lemma_one_line(a: Seq<char>, b: Seq<char>)
    requires
        one_line(a),
        one_line(b),
    ensures
        one_line(a + b),
{
    assert forall|i: int| 0 <= i < (a + b).len() implies (a + b)[i] != '\n' by {
        if i < a.len() {
            assert(a.contains(a[i]));
        } else {
            assert(b.contains(b[i - a.len()]));
        }
    }
}

/// Appends a field's name and its value.
fn add_field(line: &mut String, name: &str, value: &serde_json::Value)
    requires
        one_line(old(line)@),
        one_line(name@),
    ensures
        final(line)@ == old(line)@ + name@ + json_text(json_of(*value)),
        one_line(final(line)@),
{
    let text = json::text(value);
    proof {
        lemma_one_line(line@, name@);
        lemma_one_line(line@ + name@, text@);
    }
    line.append(name);
    line.append(text.as_str());
}

/// The JSON text of an event; it is one line.
pub fn event_text(row: &EventItem) -> (s: String)
    ensures
        s@ == event_line(*row),
        one_line(s@),
{
    proof {
        reveal_strlit("{\"id\":");
        reveal_strlit(",\"session_id\":");
        reveal_strlit(",\"tenant_id\":");
        reveal_strlit(",\"event_type\":");
        reveal_strlit(",\"sequence\":");
        reveal_strlit(",\"payload\":");
        reveal_strlit(",\"created_at\":");
        reveal_strlit("}");
    }
    let mut s = String::new();
    add_field(&mut s, "{\"id\":", &json::uuid(&row.id));
    assert(s@ =~= "{\"id\":"@ + json_text(Json::Str(row.id.text())));
    add_field(&mut s, ",\"session_id\":", &json::uuid(&row.session_id));
    add_field(&mut s, ",\"tenant_id\":", &json::uuid(&row.tenant_id));
    add_field(&mut s, ",\"event_type\":", &json::string(row.event_type.as_str()));
    add_field(&mut s, ",\"sequence\":", &json::number(row.sequence));
    add_field(&mut s, ",\"payload\":", &row.payload);
    add_field(&mut s, ",\"created_at\":", &row.created_at.to_json());
    proof {
        lemma_one_line(s@, "}"@);
    }
    s.append("}");
    s
}

/// The line of a transcript for an event: its JSON text and one line break, which
/// is the only one.
pub fn ndjson_line(row: &EventItem) -> (s: String)
    ensures
        s@ == event_line(*row).push('\n'),
        s@ == "{\"id\":"@ + json_text(Json::Str(row.id.text())) + ",\"session_id\":"@ + json_text(
            Json::Str(row.session_id.text()),
        ) + ",\"tenant_id\":"@ + json_text(Json::Str(row.tenant_id.text())) + ",\"event_type\":"@ + json_text(
            Json::Str(row.event_type@),
        ) + ",\"sequence\":"@ + json_text(Json::Int(row.sequence as int)) + ",\"payload\":"@ + json_text(
            json_of(row.payload),
        ) + ",\"created_at\":"@ + json_text(instant_json(row.created_at.micros)) + "}"@ + seq!['\n'],
        forall|i: int| 0 <= i < s@.len() - 1 ==> s@[i] != '\n',
{
    let mut s = event_text(row);
    let ghost t = s@;
    s.push('\n');
    assert(s@ =~= t + seq!['\n']);
    assert forall|i: int| 0 <= i < s@.len() - 1 implies s@[i] != '\n' by {
        assert(s@[i] == t[i]);
    }
    s
}

/// What reading the next event came to.
#[derive(Debug)]
pub enum LogRead {
    /// An event.
    Row(EventItem),
    /// There are no more.
    End,
    /// Reading failed, and why.
    Failed(String),
}

/// What is done with what was read.
#[derive(Debug)]
pub enum LogAction {
    /// Send the line, and read on.
    Send { line: String },
    /// End the transcript.
    Close,
    /// Break the transcript off with this error.
    Abort { error: String },
}

/// Whether `action` is what is done with `read`.
pub open spec fn line_step(read: LogRead, action: LogAction) -> bool {
    match read {
        LogRead::Row(row) => action matches LogAction::Send { line } && line@ == event_line(row).push('\n'),
        LogRead::End => action is Close,
        LogRead::Failed(why) => action == (LogAction::Abort { error: why }),
    }
}

/// What is done with what was read of a transcript.
pub fn next_line(read: LogRead) -> (action: LogAction)
    ensures
        line_step(read, action),
        match read {
            LogRead::Row(row) => action matches LogAction::Send { line } && line@ == event_line(row).push('\n'),
            LogRead::End => action is Close,
            LogRead::Failed(why) => action matches LogAction::Abort { error } && error == why,
        },
{
    match read {
        LogRead::Row(row) => LogAction::Send { line: ndjson_line(&row) },
        LogRead::End => LogAction::Close,
        LogRead::Failed(error) => LogAction::Abort { error },
    }
}

/// The transcript of events: the line of each, in order.
pub open spec fn transcript(rows: Seq<EventItem>) -> Seq<char>
    decreases rows.len(),
{
    if rows.len() == 0 {
        Seq::empty()
    } else {
        transcript(rows.drop_last()) + event_line(rows.last()).push('\n')
    }
}

/// What the first `n` actions send.
pub open spec fn sent_lines(actions: Seq<LogAction>, n: int) -> Seq<char>
    decreases n,
{
    if n <= 0 {
        Seq::empty()
    } else {
        sent_lines(actions, n - 1) + match actions[n - 1] {
            LogAction::Send { line } => line@,
            _ => Seq::empty(),
        }
    }
}

/// A download holds every event of the session, in ascending order of the sequence
/// numbers, one line for each, and nothing else: that is what is sent when the events
/// that `session_log_ndjson` asks for are read to the end.
pub proof fn transcript_is_complete(
    table: Seq<EventItem>,
    query: EventsQuery,
    session: Uuid,
    reads: Seq<LogRead>,
    actions: Seq<LogAction>,
)
    requires
        query == (EventsQuery { session_id: session, after: None, rows: None }),
        reads.len() == query.selects(table).len() + 1,
        actions.len() == reads.len(),
        forall|i: int| 0 <= i < reads.len() - 1 ==> #[trigger] reads[i] == LogRead::Row(query.selects(table)[i]),
        reads.last() is End,
        forall|i: int| 0 <= i < reads.len() ==> #[trigger] line_step(reads[i], actions[i]),
    ensures
        sent_lines(actions, actions.len() as int) == transcript(session_events_of(table, session)),
        actions.last() is Close,
{
    let rows = query.selects(table);
    lemma_sent_lines(rows, reads, actions, rows.len() as int);
    assert(line_step(reads[rows.len() as int], actions[rows.len() as int]));
    assert(rows.take(rows.len() as int) =~= rows);
    assert(sent_lines(actions, rows.len() as int) + Seq::<char>::empty() =~= sent_lines(actions, rows.len() as int));
}

proof fn lemma_sent_lines(rows: Seq<EventItem>, reads: Seq<LogRead>, actions: Seq<LogAction>, n: int)
    requires
        0 <= n <= rows.len(),
        reads.len() == rows.len() + 1,
        actions.len() == reads.len(),
        forall|i: int| 0 <= i < rows.len() ==> #[trigger] reads[i] == LogRead::Row(rows[i]),
        forall|i: int| 0 <= i < reads.len() ==> #[trigger] line_step(reads[i], actions[i]),
    ensures
        sent_lines(actions, n) == transcript(rows.take(n)),
    decreases n,
{
    if n > 0 {
        lemma_sent_lines(rows, reads, actions, n - 1);
        assert(line_step(reads[n - 1], actions[n - 1]));
        assert(reads[n - 1] == LogRead::Row(rows[n - 1]));
        assert(rows.take(n).drop_last() =~= rows.take(n - 1));
    } else {
        assert(rows.take(0).len() == 0);
    }
}

/// The value of the `Content-Disposition` header.
pub fn disposition(session_id: Uuid) -> (s: String)
    ensures
        s@ == "attachment; filename=\"session-"@ + session_id.text() + ".ndjson\""@,
{
    let mut s = "attachment; filename=\"session-".to_owned();
    s.append(session_id.to_text().as_str());
    s.append(".ndjson\"");
    s
}

/// What to do next.
#[derive(Debug)]
pub enum NdjsonAction {
    /// Look the session up.
    FindSession { id: Uuid },
    /// Read these events, and do for each what `next_line` says, with this
    /// `Content-Disposition`.
    Stream { query: EventsQuery, disposition: String },
    /// Refuse.
    Refuse(AppError),
}

/// The next step of a download, given whose the session is once it was looked for.
pub fn session_log_ndjson(
    auth: &AuthContext,
    session_id: Uuid,
    params: &NdjsonParams,
    session: Option<Option<Ownership>>,
) -> (action: NdjsonAction)
    ensures
        match (tenant_of(*auth), session) {
            (Err(e), _) => action == NdjsonAction::Refuse(e),
            (Ok(_), None) => action == (NdjsonAction::FindSession { id: session_id }),
            (Ok(tenant), Some(row)) => match barred(*auth, tenant, row) {
                Some(e) => action == NdjsonAction::Refuse(e),
                None => if raw_flag(params.raw) && !admin_key(*auth) {
                    action == NdjsonAction::Refuse(AppError::InsufficientScope)
                } else {
                    &&& action matches NdjsonAction::Stream { query, disposition }
                    &&& query == (EventsQuery { session_id, after: None, rows: None })
                    &&& disposition@ == "attachment; filename=\"session-"@ + session_id.text() + ".ndjson\""@
                },
            },
        },
        action is Stream ==> (session matches Some(Some(row)) && match *auth {
            AuthContext::Session(info) => info.email_verified && row.tenant_id == info.tenant_id && row.user_id
                == info.user_id && !(params.raw matches Some(s) && s@ == "1"@),
            AuthContext::ApiKey(key) => row.tenant_id == key.tenant_id && (key.scopes@.contains(Scope::Admin) || (
            row.user_id == key.user_id && !(params.raw matches Some(s) && s@ == "1"@))),
            _ => false,
        }),
{
    let tenant_id = match caller_tenant(auth) {
        Ok(t) => t,
        Err(e) => return NdjsonAction::Refuse(e),
    };
    let row = match session {
        None => return NdjsonAction::FindSession { id: session_id },
        Some(r) => r,
    };
    match refusal(auth, tenant_id, row) {
        Some(e) => return NdjsonAction::Refuse(e),
        None => {},
    }
    if params.is_raw() && !is_admin(auth) {
        return NdjsonAction::Refuse(AppError::InsufficientScope);
    }
    NdjsonAction::Stream {
        query: EventsQuery { session_id, after: None, rows: None },
        disposition: disposition(session_id),
    }
}

} // verus!
