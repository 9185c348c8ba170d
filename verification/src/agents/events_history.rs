//! `GET /v1/agents/sessions/{id}/events/history`: a session's events, page by page.

use crate::agents::access::{
    admin_key, barred, caller_tenant, is_admin, is_raw_flag, raw_flag, refusal, tenant_of, Ownership,
};
use crate::caller::{AuthContext, Scope};
use crate::clock::{instant_json, Timestamp};
use crate::error::AppError;
use crate::ids::Uuid;
use crate::json::{self, json_of, opt_int_json, Json};
use vstd::prelude::*;

verus! {

/// Page size when the query does not say.
pub const DEFAULT_LIMIT: i64 = 100;

/// The largest page.
pub const MAX_LIMIT: i64 = 500;

#[derive(Debug)]
pub struct HistoryParams {
    /// Only events after this sequence number. Without it, from the beginning.
    pub after: Option<i64>,
    /// Page size.
    pub limit: Option<i64>,
    /// `1` asks for payloads as they are, which takes an admin key.
    pub raw: Option<String>,
}

impl HistoryParams {
    /// Whether payloads are asked for as they are.
    pub fn is_raw(&self) -> (r: bool)
        ensures
            r == raw_flag(self.raw),
    {
        is_raw_flag(&self.raw)
    }
}

/// An event of a session.
#[derive(Debug)]
pub struct EventItem {
    pub id: Uuid,
    pub session_id: Uuid,
    pub tenant_id: Uuid,
    pub event_type: String,
    pub sequence: i64,
    pub payload: serde_json::Value,
    pub created_at: Timestamp,
}

impl EventItem {
    /// The event's fields in JSON.
    pub open spec fn fields(&self) -> Map<Seq<char>, Json> {
        map![
            "id"@ => Json::Str(self.id.text()),
            "session_id"@ => Json::Str(self.session_id.text()),
            "tenant_id"@ => Json::Str(self.tenant_id.text()),
            "event_type"@ => Json::Str(self.event_type@),
            "sequence"@ => Json::Int(self.sequence as int),
            "payload"@ => json_of(self.payload),
            "created_at"@ => instant_json(self.created_at.micros),
        ]
    }

    /// The event in JSON.
    pub fn to_json(&self) -> (v: serde_json::Value)
        ensures
            json_of(v) == Json::Object(self.fields()),
            json_of(v) == Json::Object(
                map![
                    "id"@ => Json::Str(self.id.text()),
                    "session_id"@ => Json::Str(self.session_id.text()),
                    "tenant_id"@ => Json::Str(self.tenant_id.text()),
                    "event_type"@ => Json::Str(self.event_type@),
                    "sequence"@ => Json::Int(self.sequence as int),
                    "payload"@ => json_of(self.payload),
                    "created_at"@ => instant_json(self.created_at.micros),
                ],
            ),
    {
        let v = json::with(json::object(), "id", json::uuid(&self.id));
        let v = json::with(v, "session_id", json::uuid(&self.session_id));
        let v = json::with(v, "tenant_id", json::uuid(&self.tenant_id));
        let v = json::with(v, "event_type", json::string(self.event_type.as_str()));
        let v = json::with(v, "sequence", json::number(self.sequence));
        let v = json::with(v, "payload", self.payload.clone());
        json::with(v, "created_at", self.created_at.to_json())
    }
}

#[derive(Debug)]
pub struct HistoryResponse {
    pub events: Vec<EventItem>,
    /// The last sequence number of this page if there are more pages.
    pub next_seq: Option<i64>,
}

impl HistoryResponse {
    /// The page in JSON.
    pub fn to_json(&self) -> (v: serde_json::Value)
        ensures
            json_of(v) == Json::Object(
                map![
                    "events"@ => Json::Array(self.events@.map_values(|e: EventItem| Json::Object(e.fields()))),
                    "next_seq"@ => opt_int_json(
                        match self.next_seq {
                            Some(n) => Some(n as int),
                            None => None,
                        },
                    ),
                ],
            ),
    {
        let mut items: Vec<serde_json::Value> = Vec::new();
        let mut i: usize = 0;
        while i < self.events.len()
            invariant
                i <= self.events@.len(),
                items@.len() == i,
                forall|j: int| 0 <= j < i ==> json_of(#[trigger] items@[j]) == Json::Object(self.events@[j].fields()),
            decreases self.events@.len() - i,
        {
            items.push(self.events[i].to_json());
            i += 1;
        }
        assert(items@.map_values(|x: serde_json::Value| json_of(x)) =~= self.events@.map_values(
            |e: EventItem| Json::Object(e.fields()),
        ));
        let v = json::with(json::object(), "events", json::array(items));
        json::with(v, "next_seq", json::opt_number(&self.next_seq))
    }
}

/// The page size that is asked for, if it is an allowed one.
pub open spec fn page_limit(params: HistoryParams) -> Option<i64> {
    let n = match params.limit {
        Some(n) => n,
        None => DEFAULT_LIMIT,
    };
    if 1 <= n <= MAX_LIMIT {
        Some(n)
    } else {
        None
    }
}

/// The sequence number after which a page starts.
pub open spec fn page_start(params: HistoryParams) -> i64 {
    match params.after {
        Some(n) => n,
        None => i64::MIN,
    }
}

/// The page that rows make up, one more than fits on it if there is more.
pub open spec fn is_page(rows: Seq<EventItem>, limit: int, page: HistoryResponse) -> bool {
    if rows.len() > limit {
        page.events@ == rows.take(limit) && page.next_seq == Some(rows[limit - 1].sequence)
    } else {
        page.events@ == rows && page.next_seq is None
    }
}

/// The page that `rows` make up.
pub fn history_page(rows: Vec<EventItem>, limit: usize) -> (page: HistoryResponse)
    requires
        limit >= 1,
    ensures
        is_page(rows@, limit as int, page),
{
    let mut events = rows;
    if events.len() > limit {
        events.truncate(limit);
        let last: i64 = events[limit - 1].sequence;
        HistoryResponse { events, next_seq: Some(last) }
    } else {
        HistoryResponse { events, next_seq: None }
    }
}

/// The events of `session` in a table of events, in the order of the table.
pub open spec fn session_events_of(table: Seq<EventItem>, session: Uuid) -> Seq<EventItem> {
    table.filter(|e: EventItem| e.session_id == session)
}

/// Those of them after a sequence number.
pub open spec fn session_events_after(table: Seq<EventItem>, session: Uuid, after: i64) -> Seq<EventItem> {
    table.filter(|e: EventItem| e.session_id == session && e.sequence > after)
}

/// Which events of a session to read: those after this sequence number if there is
/// one, in ascending order of the sequence numbers, and at most this many if there is
/// a limit.
#[derive(Debug, Clone, Copy, PartialEq, Eq)]
pub struct EventsQuery {
    pub session_id: Uuid,
    pub after: Option<i64>,
    pub rows: Option<i64>,
}

impl EventsQuery {
    /// What is read from a table of events, which is listed in ascending order of the
    /// sequence numbers.
    pub open spec fn selects(self, table: Seq<EventItem>) -> Seq<EventItem> {
        let hits = match self.after {
            Some(n) => session_events_after(table, self.session_id, n),
            None => session_events_of(table, self.session_id),
        };
        match self.rows {
            Some(n) if n < hits.len() => hits.take(
                if n < 0 {
                    0
                } else {
                    n as int
                },
            ),
            _ => hits,
        }
    }
}

/// What is known so far.
#[derive(Debug)]
pub struct HistoryFacts {
    /// Whose the session is, if there is one.
    pub session: Option<Option<Ownership>>,
    /// The rows that were read.
    pub rows: Option<Vec<EventItem>>,
}

/// What to do next.
#[derive(Debug)]
pub enum HistoryAction {
    /// Look the session up.
    FindSession { id: Uuid },
    /// Read these events.
    Query(EventsQuery),
    /// Answer, with the payloads redacted if `redact` says so.
    Answer { page: HistoryResponse, redact: bool },
    /// Refuse.
    Refuse(AppError),
}

/// The next step of showing a page. One row more than the page holds is read, to
/// see whether there is a next page. Payloads are redacted unless an admin key asks
/// for them as they are.
pub fn session_events_history(
    auth: &AuthContext,
    session_id: Uuid,
    params: &HistoryParams,
    facts: HistoryFacts,
) -> (action: HistoryAction)
    ensures
        match (tenant_of(*auth), page_limit(*params), facts.session) {
            (Err(e), _, _) => action == HistoryAction::Refuse(e),
            (Ok(_), None, _) => action == HistoryAction::Refuse(AppError::InvalidInput),
            (Ok(_), Some(_), None) => action == (HistoryAction::FindSession { id: session_id }),
            (Ok(tenant), Some(limit), Some(row)) => match barred(*auth, tenant, row) {
                Some(e) => action == HistoryAction::Refuse(e),
                None => if raw_flag(params.raw) && !admin_key(*auth) {
                    action == HistoryAction::Refuse(AppError::InsufficientScope)
                } else {
                    match facts.rows {
                        None => action == HistoryAction::Query(
                            EventsQuery {
                                session_id,
                                after: Some(page_start(*params)),
                                rows: Some((limit + 1) as i64),
                            },
                        ),
                        Some(rows) => action matches HistoryAction::Answer { page, redact } && is_page(
                            rows@,
                            limit as int,
                            page,
                        ) && redact == !raw_flag(params.raw),
                    }
                },
            },
        },
        params.limit matches Some(n) ==> n < 1 || n > 500 ==> action is Refuse,
        action matches HistoryAction::Query(query) ==> {
            &&& query.session_id == session_id
            &&& params.after matches Some(n) ==> query.after == Some(n)
            &&& params.after is None ==> query.after == Some(i64::MIN)
            &&& query.rows == Some(
                (match params.limit {
                    Some(n) => n,
                    None => 100,
                } + 1) as i64,
            )
        },
        action matches HistoryAction::Answer { page, redact } ==> {
            let rows = facts.rows->0@;
            &&& facts.rows is Some
            &&& page.events@ == rows.take(page.events@.len() as int)
            &&& page.events@.len() == rows.len() || page.events@.len() == match params.limit {
                Some(n) => n as int,
                None => 100,
            }
            &&& page.events@.len() <= rows.len()
            &&& page.next_seq is Some <==> page.events@.len() < rows.len()
            &&& page.next_seq matches Some(n) ==> page.events@.len() > 0 && n == page.events@.last().sequence
            &&& redact == !(params.raw matches Some(s) && s@ == "1"@)
        },
        action is Query || action is Answer ==> (facts.session matches Some(Some(row)) && match *auth {
            AuthContext::Session(info) => info.email_verified && row.tenant_id == info.tenant_id && row.user_id
                == info.user_id && !(params.raw matches Some(s) && s@ == "1"@),
            AuthContext::ApiKey(key) => row.tenant_id == key.tenant_id && (key.scopes@.contains(Scope::Admin) || (
            row.user_id == key.user_id && !(params.raw matches Some(s) && s@ == "1"@))),
            _ => false,
        }),
{
    let tenant_id = match caller_tenant(auth) {
        Ok(t) => t,
        Err(e) => return HistoryAction::Refuse(e),
    };
    let limit: i64 = match params.limit {
        Some(n) => n,
        None => DEFAULT_LIMIT,
    };
    if limit < 1 || limit > MAX_LIMIT {
        return HistoryAction::Refuse(AppError::InvalidInput);
    }
    let row = match facts.session {
        None => return HistoryAction::FindSession { id: session_id },
        Some(r) => r,
    };
    match refusal(auth, tenant_id, row) {
        Some(e) => return HistoryAction::Refuse(e),
        None => {},
    }
    if params.is_raw() && !is_admin(auth) {
        return HistoryAction::Refuse(AppError::InsufficientScope);
    }
    match facts.rows {
        None => {
            let after: i64 = match params.after {
                Some(n) => n,
                None => i64::MIN,
            };
            HistoryAction::Query(EventsQuery { session_id, after: Some(after), rows: Some(limit + 1) })
        },
        Some(rows) => HistoryAction::Answer { page: history_page(rows, limit as usize), redact: !params.is_raw() },
    }
}

/// Whether the sequence numbers ascend strictly.
pub open spec fn ascending(rows: Seq<EventItem>) -> bool {
    forall|i: int, j: int| 0 <= i < j < rows.len() ==> rows[i].sequence < rows[j].sequence
}

proof fn lemma_filter_split(all: Seq<EventItem>, pred: spec_fn(EventItem) -> bool, k: int)
    requires
        0 <= k <= all.len(),
        forall|i: int| 0 <= i < k ==> !pred(#[trigger] all[i]),
        forall|i: int| k <= i < all.len() ==> pred(#[trigger] all[i]),
    ensures
        all.filter(pred) == all.skip(k),
    decreases all.len(),
{
    reveal(Seq::filter);
    if all.len() == 0 {
        assert(all.filter(pred) =~= all.skip(k));
    } else {
        let rest = all.drop_last();
        if k == all.len() {
            lemma_filter_split(rest, pred, k - 1);
            assert(all.filter(pred) =~= all.skip(k));
        } else {
            lemma_filter_split(rest, pred, k);
            assert(all.skip(k) =~= rest.skip(k).push(all.last()));
        }
    }
}

proof fn lemma_filter_filter(
    all: Seq<EventItem>,
    weak: spec_fn(EventItem) -> bool,
    strong: spec_fn(EventItem) -> bool,
)
    requires
        forall|e: EventItem| #[trigger] strong(e) ==> weak(e),
    ensures
        all.filter(weak).filter(strong) == all.filter(strong),
    decreases all.len(),
{
    reveal(Seq::filter);
    if all.len() > 0 {
        let rest = all.drop_last();
        lemma_filter_filter(rest, weak, strong);
        if weak(all.last()) {
            assert(all.filter(weak).drop_last() =~= rest.filter(weak));
            assert(all.filter(weak).last() == all.last());
        }
    } else {
        assert(all.filter(weak).filter(strong) =~= all.filter(strong));
    }
}

/// Following `next_seq` leads on exactly where the page ended: the page starts what
/// is left of the session's events, and what is left after it are the others. Each
/// page that names a number comes nearer to the end.
pub proof fn next_seq_leads_on(table: Seq<EventItem>, session: Uuid, after: i64, limit: int, page: HistoryResponse)
    requires
        ascending(session_events_after(table, session, after)),
        1 <= limit < i64::MAX,
        is_page(
            EventsQuery { session_id: session, after: Some(after), rows: Some((limit + 1) as i64) }.selects(table),
            limit,
            page,
        ),
    ensures
        match page.next_seq {
            Some(next) => page.events@.len() == limit && next > after && session_events_after(table, session, after)
                == page.events@ + session_events_after(table, session, next),
            None => session_events_after(table, session, after) == page.events@,
        },
{
    let left = session_events_after(table, session, after);
    match page.next_seq {
        None => {},
        Some(next) => {
            let later = |e: EventItem| e.session_id == session && e.sequence > next;
            let wanted = |e: EventItem| e.session_id == session && e.sequence > after;
            assert(left.take(limit + 1)[limit - 1] == left[limit - 1]);
            lemma_selected(table, session, after, limit - 1);
            lemma_filter_filter(table, wanted, later);
            assert forall|i: int| 0 <= i < left.len() implies (#[trigger] left[i]).session_id == session by {
                lemma_selected(table, session, after, i);
            }
            lemma_filter_split(left, later, limit);
            assert(left.filter(later) == session_events_after(table, session, next));
            assert(left.take(limit) + left.skip(limit) =~= left);
            assert(page.events@ =~= left.take(limit));
        },
    }
}

proof fn lemma_selected(table: Seq<EventItem>, session: Uuid, after: i64, i: int)
    requires
        0 <= i < session_events_after(table, session, after).len(),
    ensures
        session_events_after(table, session, after)[i].session_id == session,
        session_events_after(table, session, after)[i].sequence > after,
{
    let wanted = |e: EventItem| e.session_id == session && e.sequence > after;
    table.lemma_filter_pred(wanted, i);
}

/// A walk through a session's history: each page is read after the number that the
/// one before named, and the last names none.
pub struct HistoryWalk {
    pub starts: Seq<i64>,
    pub limits: Seq<int>,
    pub pages: Seq<HistoryResponse>,
}

impl HistoryWalk {
    /// Whether this is a walk through the events of `session`.
    pub open spec fn follows(self, table: Seq<EventItem>, session: Uuid) -> bool {
        &&& self.pages.len() > 0
        &&& self.starts.len() == self.pages.len()
        &&& self.limits.len() == self.pages.len()
        &&& forall|i: int|
            0 <= i < self.pages.len() ==> {
                &&& 1 <= #[trigger] self.limits[i] < i64::MAX
                &&& is_page(
                    EventsQuery {
                        session_id: session,
                        after: Some(self.starts[i]),
                        rows: Some((self.limits[i] + 1) as i64),
                    }.selects(table),
                    self.limits[i],
                    self.pages[i],
                )
                &&& self.pages[i].next_seq == if i + 1 < self.pages.len() {
                    Some(self.starts[i + 1])
                } else {
                    None
                }
            }
    }

    /// The events on the pages from the `i`-th on.
    pub open spec fn events_from(self, i: int) -> Seq<EventItem>
        decreases self.pages.len() - i,
    {
        if i < 0 || i >= self.pages.len() {
            Seq::empty()
        } else {
            self.pages[i].events@ + self.events_from(i + 1)
        }
    }
}

proof fn lemma_walk(walk: HistoryWalk, table: Seq<EventItem>, session: Uuid, i: int)
    requires
        walk.follows(table, session),
        0 <= i < walk.pages.len(),
        ascending(session_events_after(table, session, walk.starts[i])),
    ensures
        walk.events_from(i) == session_events_after(table, session, walk.starts[i]),
    decreases walk.pages.len() - i,
{
    assert(1 <= walk.limits[i] < i64::MAX);
    next_seq_leads_on(table, session, walk.starts[i], walk.limits[i], walk.pages[i]);
    if i + 1 < walk.pages.len() {
        let left = session_events_after(table, session, walk.starts[i]);
        let rest = session_events_after(table, session, walk.starts[i + 1]);
        let k = walk.pages[i].events@.len() as int;
        assert forall|a: int, b: int| 0 <= a < b < rest.len() implies rest[a].sequence < rest[b].sequence by {
            assert(rest[a] == left[k + a] && rest[b] == left[k + b]);
        }
        lemma_walk(walk, table, session, i + 1);
    } else {
        assert(walk.events_from(i + 1) =~= Seq::empty());
        assert(walk.events_from(i) =~= walk.pages[i].events@);
    }
}

/// Following `next_seq` from the start to the end yields every event of the session
/// once, in order, and nothing else: the first request names no number, and no event
/// has the least number there is.
pub proof fn history_walk_is_complete(walk: HistoryWalk, table: Seq<EventItem>, session: Uuid)
    requires
        walk.follows(table, session),
        walk.starts[0] == i64::MIN,
        ascending(session_events_of(table, session)),
        forall|i: int| 0 <= i < table.len() ==> (#[trigger] table[i]).sequence > i64::MIN,
    ensures
        walk.events_from(0) == session_events_of(table, session),
{
    lemma_same_filter(table, session);
    lemma_walk(walk, table, session, 0);
}

proof fn lemma_same_filter(table: Seq<EventItem>, session: Uuid)
    requires
        forall|i: int| 0 <= i < table.len() ==> (#[trigger] table[i]).sequence > i64::MIN,
    ensures
        session_events_after(table, session, i64::MIN) == session_events_of(table, session),
    decreases table.len(),
{
    reveal(Seq::filter);
    if table.len() > 0 {
        let rest = table.drop_last();
        assert forall|i: int| 0 <= i < rest.len() implies (#[trigger] rest[i]).sequence > i64::MIN by {
            assert(rest[i] == table[i]);
        }
        assert(table[table.len() - 1].sequence > i64::MIN);
        lemma_same_filter(rest, session);
    }
}

/// What is read for a request about `session`.
pub open spec fn asked_rows(params: HistoryParams, session: Uuid, table: Seq<EventItem>) -> Seq<EventItem> {
    let query = EventsQuery {
        session_id: session,
        after: Some(page_start(params)),
        rows: Some((page_limit(params)->0 + 1) as i64),
    };
    query.selects(table)
}

/// A request gets only events after the number it names, and from the beginning if it
/// names none: what is read for it are events of the session with numbers beyond
/// `after`, and at most one more than the page holds.
pub proof fn pages_start_after_what_was_asked(params: HistoryParams, table: Seq<EventItem>, session: Uuid, i: int)
    requires
        page_limit(params) is Some,
        0 <= i < asked_rows(params, session, table).len(),
    ensures
        asked_rows(params, session, table)[i].session_id == session,
        params.after matches Some(n) ==> asked_rows(params, session, table)[i].sequence > n,
        params.limit matches Some(n) ==> asked_rows(params, session, table).len() <= n + 1,
        params.limit is None ==> asked_rows(params, session, table).len() <= 101,
        table.contains(asked_rows(params, session, table)[i]),
{
    let start = page_start(params);
    let all = session_events_after(table, session, start);
    lemma_selected(table, session, start, i);
    let wanted = |e: EventItem| e.session_id == session && e.sequence > start;
    assert(table.filter(wanted).contains(all[i]));
    table.lemma_filter_contains_rev(wanted, all[i]);
}

/// A client's walk through a session's history: requests, and the page that each is
/// answered with.
pub struct ClientWalk {
    pub requests: Seq<HistoryParams>,
    pub pages: Seq<HistoryResponse>,
}

impl ClientWalk {
    /// Whether the first request names no number, each other one the number that the
    /// page before named, and the last page names none; and whether each request is
    /// answered with the page of the rows that are read for it.
    pub open spec fn follows(self, table: Seq<EventItem>, session: Uuid) -> bool {
        &&& self.requests.len() == self.pages.len() > 0
        &&& self.requests[0].after is None
        &&& forall|i: int|
            0 <= i < self.pages.len() ==> {
                &&& page_limit(#[trigger] self.requests[i]) is Some
                &&& is_page(
                    asked_rows(self.requests[i], session, table),
                    page_limit(self.requests[i])->0 as int,
                    self.pages[i],
                )
                &&& i + 1 < self.pages.len() ==> self.pages[i].next_seq is Some && self.requests[i + 1].after
                    == self.pages[i].next_seq
                &&& i + 1 == self.pages.len() ==> self.pages[i].next_seq is None
            }
    }

    /// The events on the pages from the `i`-th on.
    pub open spec fn events_from(self, i: int) -> Seq<EventItem>
        decreases self.pages.len() - i,
    {
        if i < 0 || i >= self.pages.len() {
            Seq::empty()
        } else {
            self.pages[i].events@ + self.events_from(i + 1)
        }
    }
}

proof fn lemma_same_pages(client: ClientWalk, walk: HistoryWalk, i: int)
    requires
        client.pages == walk.pages,
    ensures
        client.events_from(i) == walk.events_from(i),
    decreases client.pages.len() - i,
{
    if 0 <= i < client.pages.len() {
        lemma_same_pages(client, walk, i + 1);
    }
}

/// A client that passes `next_seq` back as `after` until there is none reads every
/// event of the session once, in order, and nothing else.
pub proof fn passing_next_seq_back_reads_everything(client: ClientWalk, table: Seq<EventItem>, session: Uuid)
    requires
        client.follows(table, session),
        forall|i: int, j: int|
            0 <= i < j < session_events_of(table, session).len() ==> session_events_of(table, session)[i].sequence
                < session_events_of(table, session)[j].sequence,
        forall|i: int| 0 <= i < table.len() ==> (#[trigger] table[i]).sequence > i64::MIN,
    ensures
        client.events_from(0) == table.filter(|e: EventItem| e.session_id == session),
{
    let walk = HistoryWalk {
        starts: client.requests.map_values(|p: HistoryParams| page_start(p)),
        limits: client.requests.map_values(|p: HistoryParams| page_limit(p)->0 as int),
        pages: client.pages,
    };
    assert forall|i: int| 0 <= i < walk.pages.len() implies {
        &&& 1 <= #[trigger] walk.limits[i] < i64::MAX
        &&& is_page(
            EventsQuery {
                session_id: session,
                after: Some(walk.starts[i]),
                rows: Some((walk.limits[i] + 1) as i64),
            }.selects(table),
            walk.limits[i],
            walk.pages[i],
        )
        &&& walk.pages[i].next_seq == if i + 1 < walk.pages.len() {
            Some(walk.starts[i + 1])
        } else {
            None
        }
    } by {
        assert(page_limit(client.requests[i]) is Some);
        if i + 1 < walk.pages.len() {
            assert(page_limit(client.requests[i + 1]) is Some);
        }
    }
    assert(page_limit(client.requests[0]) is Some);
    history_walk_is_complete(walk, table, session);
    lemma_same_pages(client, walk, 0);
}

} // verus!
