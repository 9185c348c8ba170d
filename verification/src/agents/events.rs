//! `GET /v1/agents/sessions/{id}/events`: the live stream of a session's events.
//!
//! With `from_sequence` the stream starts with what the database holds and then
//! goes over to the live feed without a gap and without repeating anything: the
//! feed is subscribed to before the database is read, and what the database
//! already gave is left out of the feed. A session that has ended is answered with
//! its history and a closing `session.completed` event.

use crate::agents::access::{barred, caller_tenant, refusal, tenant_of, Ownership};
use crate::agents::session_lifecycle::{is_live_status, is_terminal_status, live_status, terminal_status};
use crate::caller::{AuthContext, Scope};
use crate::error::AppError;
use crate::ids::Uuid;
use crate::json::{self, json_of, json_read, json_text, readable, str_field, Json};
use crate::text::same;
use vstd::prelude::*;
use vstd::string::*;

verus! {

#[derive(Debug, Clone, Copy, Default)]
pub struct EventsParams {
    /// Replay the events from this sequence number on before the live feed.
    pub from_sequence: Option<i64>,
}

/// One event of the stream.
#[derive(Debug)]
pub struct SseFrame {
    pub event: &'static str,
    pub data: String,
}

/// An event as the database holds it.
#[derive(Debug)]
pub struct HistoryEventRow {
    pub event_type: String,
    pub sequence: i64,
    pub payload: serde_json::Value,
}

/// What an event of a session says.
pub open spec fn event_json(session: Uuid, event_type: Seq<char>, sequence: i64, payload: Json) -> Json {
    Json::Object(
        map![
            "session_id"@ => Json::Str(session.text()),
            "event_type"@ => Json::Str(event_type),
            "sequence"@ => Json::Int(sequence as int),
            "payload"@ => payload,
        ],
    )
}

/// The session that event data names.
pub open spec fn session_in(data: Seq<char>) -> Option<Seq<char>> {
    match json_read(data) {
        Some(j) => str_field(j, "session_id"@),
        None => None,
    }
}

/// The sequence number in event data.
pub open spec fn sequence_in(data: Seq<char>) -> Option<i64> {
    match json_read(data) {
        Some(Json::Object(m)) => if m.contains_key("sequence"@) {
            match m["sequence"@] {
                Json::Int(n) => if i64::MIN <= n <= i64::MAX {
                    Some(n as i64)
                } else {
                    None
                },
                _ => None,
            }
        } else {
            None
        },
        _ => None,
    }
}

proof fn lemma_event_fields(session: Uuid, event_type: Seq<char>, sequence: i64, payload: Json)
    requires
        readable(payload, 126),
    ensures
        readable(event_json(session, event_type, sequence, payload), 127),
        event_json(session, event_type, sequence, payload) matches Json::Object(m) && m.contains_key("session_id"@)
            && m["session_id"@] == Json::Str(session.text()) && m.contains_key("sequence"@) && m["sequence"@]
            == Json::Int(sequence as int),
{
    reveal_strlit("session_id");
    reveal_strlit("event_type");
    reveal_strlit("sequence");
    reveal_strlit("payload");
    reveal_strlit("$serde_json::private::RawValue");
    let j = event_json(session, event_type, sequence, payload);
    let m = j->Object_0;
    assert("session_id"@.len() == 10 && "event_type"@.len() == 10 && "sequence"@.len() == 8 && "payload"@.len() == 7);
    assert("session_id"@[0] == 's' && "event_type"@[0] == 'e');
    assert("$serde_json::private::RawValue"@.len() == 30);
    assert(!m.contains_key("$serde_json::private::RawValue"@));
    assert forall|k: Seq<char>| #[trigger] m.contains_key(k) implies readable(m[k], 126) by {
        if k == "payload"@ {
            assert(m[k] == payload);
        }
    }
}

/// The data of an event. It reads back as an event of that session with that
/// sequence number, unless the payload is nested too deeply to be read.
pub fn event_data(session_id: Uuid, event_type: &str, sequence: i64, payload: serde_json::Value) -> (s: String)
    ensures
        s@ == json_text(event_json(session_id, event_type@, sequence, json_of(payload))),
        s@ == json_text(
            Json::Object(
                map![
                    "session_id"@ => Json::Str(session_id.text()),
                    "event_type"@ => Json::Str(event_type@),
                    "sequence"@ => Json::Int(sequence as int),
                    "payload"@ => json_of(payload),
                ],
            ),
        ),
        readable(json_of(payload), 126) ==> session_in(s@) == Some(session_id.text()) && sequence_in(s@) == Some(
            sequence,
        ),
{
    let ghost held = json_of(payload);
    let v = json::with(json::object(), "session_id", json::uuid(&session_id));
    let v = json::with(v, "event_type", json::string(event_type));
    let v = json::with(v, "sequence", json::number(sequence));
    let v = json::with(v, "payload", payload);
    let s = json::text(&v);
    proof {
        if readable(held, 126) {
            lemma_event_fields(session_id, event_type@, sequence, held);
        }
    }
    s
}

/// The event of a row from the database, as the live feed would carry it.
pub fn history_row_to_event(session_id: Uuid, row: &HistoryEventRow) -> (frame: SseFrame)
    ensures
        frame.event@ == "session.event"@,
        frame.data@ == json_text(event_json(session_id, row.event_type@, row.sequence, json_of(row.payload))),
        readable(json_of(row.payload), 126) ==> session_in(frame.data@) == Some(session_id.text()) && sequence_in(
            frame.data@,
        ) == Some(row.sequence),
{
    SseFrame {
        event: "session.event",
        data: event_data(session_id, row.event_type.as_str(), row.sequence, row.payload.clone()),
    }
}

/// Whether event data names the session.
pub fn data_matches_session(data: &str, session_id: Uuid) -> (r: bool)
    ensures
        r == (session_in(data@) == Some(session_id.text())),
        r <==> (json_read(data@) matches Some(Json::Object(m)) && m.contains_key("session_id"@) && m["session_id"@]
            == Json::Str(session_id.text())),
{
    match json::read(data) {
        Err(_) => false,
        Ok(v) => match json::text_field(&v, "session_id") {
            None => false,
            Some(s) => same(s, session_id.to_text().as_str()),
        },
    }
}

/// The sequence number in event data.
pub fn extract_sequence(data: &str) -> (r: Option<i64>)
    ensures
        r == sequence_in(data@),
        r matches Some(n) ==> (json_read(data@) matches Some(Json::Object(m)) && m.contains_key("sequence"@)
            && m["sequence"@] == Json::Int(n as int)),
        r is None ==> !(json_read(data@) matches Some(Json::Object(m)) && m.contains_key("sequence"@) && (m["sequence"@]
            matches Json::Int(n) && i64::MIN <= n <= i64::MAX)),
{
    match json::read(data) {
        Err(_) => None,
        Ok(v) => match json::field(&v, "sequence") {
            None => None,
            Some(f) => json::as_i64(f),
        },
    }
}

/// What the closing event of a session says.
pub open spec fn completion_json(session: Uuid, status: Seq<char>) -> Json {
    Json::Object(map!["session_id"@ => Json::Str(session.text()), "status"@ => Json::Str(status)])
}

/// Whether `frame` is the event of `row`.
pub open spec fn frames_row(frame: SseFrame, session: Uuid, row: HistoryEventRow) -> bool {
    frame.event@ == "session.event"@ && frame.data@ == json_text(
        event_json(session, row.event_type@, row.sequence, json_of(row.payload)),
    )
}

/// The whole stream of a session that has ended: its history, then a closing event.
pub fn terminal_history_stream(session_id: Uuid, history: &Vec<HistoryEventRow>, status: &str) -> (frames: Vec<SseFrame>)
    ensures
        frames@.len() == history@.len() + 1,
        forall|i: int| 0 <= i < history@.len() ==> frames_row(#[trigger] frames@[i], session_id, history@[i]),
        frames@.last().event@ == "session.completed"@,
        frames@.last().data@ == json_text(completion_json(session_id, status@)),
        frames@.last().data@ == json_text(
            Json::Object(map!["session_id"@ => Json::Str(session_id.text()), "status"@ => Json::Str(status@)]),
        ),
        forall|i: int|
            0 <= i < history@.len() ==> (#[trigger] frames@[i]).event@ == "session.event"@ && frames@[i].data@
                == json_text(
                Json::Object(
                    map![
                        "session_id"@ => Json::Str(session_id.text()),
                        "event_type"@ => Json::Str(history@[i].event_type@),
                        "sequence"@ => Json::Int(history@[i].sequence as int),
                        "payload"@ => json_of(history@[i].payload),
                    ],
                ),
            ),
{
    let mut frames: Vec<SseFrame> = Vec::new();
    let mut i: usize = 0;
    while i < history.len()
        invariant
            i <= history@.len(),
            frames@.len() == i,
            forall|j: int| 0 <= j < i ==> frames_row(#[trigger] frames@[j], session_id, history@[j]),
        decreases history@.len() - i,
    {
        frames.push(history_row_to_event(session_id, &history[i]));
        i += 1;
    }
    let v = json::with(json::object(), "session_id", json::uuid(&session_id));
    let v = json::with(v, "status", json::string(status));
    frames.push(SseFrame { event: "session.completed", data: json::text(&v) });
    frames
}

/// What the error event for a session that has ended says.
pub open spec fn ended_json(status: Seq<char>) -> Json {
    Json::Object(
        map![
            "error"@ => Json::Str("session_not_running"@),
            "status"@ => Json::Str(status),
            "message"@ => Json::Str("session is in terminal state: "@ + status),
        ],
    )
}

/// The one event that a live stream of an ended session consists of.
pub fn sse_error_response(status: &str) -> (frame: SseFrame)
    ensures
        frame.event@ == "session.error"@,
        frame.data@ == json_text(ended_json(status@)),
        frame.data@ == json_text(
            Json::Object(
                map![
                    "error"@ => Json::Str("session_not_running"@),
                    "status"@ => Json::Str(status@),
                    "message"@ => Json::Str("session is in terminal state: "@ + status@),
                ],
            ),
        ),
{
    let mut message = "session is in terminal state: ".to_owned();
    message.append(status);
    let v = json::with(json::object(), "error", json::string("session_not_running"));
    let v = json::with(v, "status", json::string(status));
    let v = json::with(v, "message", json::string(message.as_str()));
    SseFrame { event: "session.error", data: json::text(&v) }
}

/// A stream that replays the history and then follows the live feed.
#[derive(Debug)]
pub struct HistoryJoin {
    session_id: Uuid,
    history: Vec<HistoryEventRow>,
    next: usize,
    max_history_seq: i64,
}

/// What the live feed brings.
#[derive(Debug)]
pub enum LiveEvent {
    /// An event of some session of the tenant.
    Message { data: String },
    /// This many events were dropped because the reader was too slow.
    Lagged { dropped: u64 },
    /// The feed has ended.
    Closed,
}

/// What the stream does next.
#[derive(Debug)]
pub enum StreamAction {
    /// Send an event from the history.
    Emit(SseFrame),
    /// Send the live event as it is.
    Forward { data: String },
    /// Tell the reader to start over; this many events are lost.
    Reset { dropped: u64 },
    /// Wait for the live feed.
    Wait,
    /// End the stream.
    End,
}

/// Whether a live event is sent on: it is one of the session, and the history does not cover it.
pub open spec fn forwards(session: Uuid, max_history_seq: i64, data: Seq<char>) -> bool {
    session_in(data) == Some(session.text()) && match sequence_in(data) {
        Some(n) => n > max_history_seq,
        None => true,
    }
}

/// The last sequence number that a history from `from_sequence` on covers.
pub open spec fn covered_up_to(history: Seq<HistoryEventRow>, from_sequence: i64) -> i64 {
    if history.len() > 0 {
        history.last().sequence
    } else if from_sequence == i64::MIN {
        i64::MIN
    } else {
        (from_sequence - 1) as i64
    }
}

/// The last sequence number that a history covers.
pub fn last_covered(history: &Vec<HistoryEventRow>, from_sequence: i64) -> (n: i64)
    ensures
        n == covered_up_to(history@, from_sequence),
        history@.len() > 0 ==> n == history@[history@.len() - 1].sequence,
        history@.len() == 0 && from_sequence > i64::MIN ==> n == from_sequence - 1,
        history@.len() == 0 && from_sequence == i64::MIN ==> n == i64::MIN,
{
    if history.len() > 0 {
        history[history.len() - 1].sequence
    } else if from_sequence == i64::MIN {
        i64::MIN
    } else {
        from_sequence - 1
    }
}

impl HistoryJoin {
    /// The session whose stream it is.
    pub closed spec fn session(&self) -> Uuid {
        self.session_id
    }

    /// The rows that are still to be sent.
    pub closed spec fn remaining(&self) -> Seq<HistoryEventRow> {
        self.history@.skip(self.next as int)
    }

    /// The last sequence number that the history covers.
    pub closed spec fn covered(&self) -> i64 {
        self.max_history_seq
    }

    #[verifier::type_invariant]
    spec fn inv(self) -> bool {
        self.next <= self.history@.len()
    }

    /// A stream that starts with `history`.
    pub fn new(session_id: Uuid, history: Vec<HistoryEventRow>, max_history_seq: i64) -> (s: HistoryJoin)
        ensures
            s.session() == session_id,
            s.remaining() == history@,
            s.covered() == max_history_seq,
    {
        let s = HistoryJoin { session_id, history, next: 0, max_history_seq };
        assert(s.remaining() =~= history@);
        s
    }

    /// What the stream does next, given what the live feed brought, if anything.
    ///
    /// As long as there is history, its next row is sent; the feed must not be read
    /// before that is over. Then a live event is sent on if it is one of the session
    /// that the history does not cover.
    pub fn step(&mut self, event: Option<LiveEvent>) -> (action: StreamAction)
        requires
            old(self).remaining().len() > 0 ==> event is None,
        ensures
            stepped(*old(self), event, action, *final(self)),
    {
        proof {
            use_type_invariant(&*self);
        }
        if self.next < self.history.len() {
            let frame = history_row_to_event(self.session_id, &self.history[self.next]);
            self.next = self.next + 1;
            assert(self.remaining() =~= old(self).remaining().drop_first());
            return StreamAction::Emit(frame);
        }
        match event {
            None => StreamAction::Wait,
            Some(LiveEvent::Message { data }) => {
                if !data_matches_session(data.as_str(), self.session_id) {
                    return StreamAction::Wait;
                }
                match extract_sequence(data.as_str()) {
                    Some(seq) => {
                        if seq <= self.max_history_seq {
                            return StreamAction::Wait;
                        }
                    },
                    None => {},
                }
                StreamAction::Forward { data }
            },
            Some(LiveEvent::Lagged { dropped }) => StreamAction::Reset { dropped },
            Some(LiveEvent::Closed) => StreamAction::End,
        }
    }
}

/// Whether a stream in the state `before`, given `event`, does `action` and is then in
/// the state `after`.
pub open spec fn stepped(
    before: HistoryJoin,
    event: Option<LiveEvent>,
    action: StreamAction,
    after: HistoryJoin,
) -> bool {
    &&& after.session() == before.session()
    &&& after.covered() == before.covered()
    &&& before.remaining().len() > 0 ==> {
        &&& action matches StreamAction::Emit(frame)
        &&& frames_row(frame, before.session(), before.remaining()[0])
        &&& after.remaining() == before.remaining().drop_first()
    }
    &&& before.remaining().len() == 0 ==> {
        &&& after.remaining() == before.remaining()
        &&& match event {
            None => action is Wait,
            Some(LiveEvent::Message { data }) => if forwards(before.session(), before.covered(), data@) {
                action == (StreamAction::Forward { data })
            } else {
                action is Wait
            },
            Some(LiveEvent::Lagged { dropped }) => action == (StreamAction::Reset { dropped }),
            Some(LiveEvent::Closed) => action is End,
        }
    }
}

/// An event as a stream sends it: its sequence number, if it has one, and its data.
pub struct SentEvent {
    pub sequence: Option<i64>,
    pub data: Seq<char>,
}

/// The event of a row.
pub open spec fn row_event(session: Uuid, row: HistoryEventRow) -> SentEvent {
    SentEvent {
        sequence: Some(row.sequence),
        data: json_text(event_json(session, row.event_type@, row.sequence, json_of(row.payload))),
    }
}

/// The event that live data carries.
pub open spec fn live_event(data: Seq<char>) -> SentEvent {
    SentEvent { sequence: sequence_in(data), data }
}

/// The events of the rows of a history.
pub open spec fn row_events(session: Uuid, history: Seq<HistoryEventRow>) -> Seq<SentEvent> {
    history.map_values(|r: HistoryEventRow| row_event(session, r))
}

/// What a stream is to send, in order: the history, then the live events of the
/// session that the history does not cover.
pub open spec fn owed(history: Seq<HistoryEventRow>, live: Seq<Seq<char>>, session: Uuid, max_history_seq: i64) -> Seq<
    SentEvent,
> {
    row_events(session, history) + live.filter(|d: Seq<char>| forwards(session, max_history_seq, d)).map_values(
        |d: Seq<char>| live_event(d),
    )
}

/// A run of a stream: the states it goes through, what the live feed brings before
/// each step, and what is done in each.
pub struct StreamRun {
    pub states: Seq<HistoryJoin>,
    pub events: Seq<Option<LiveEvent>>,
    pub actions: Seq<StreamAction>,
}

impl StreamRun {
    /// Whether each step follows from the one before, the feed being left alone while
    /// there is history.
    pub open spec fn follows(self) -> bool {
        &&& self.states.len() == self.events.len() + 1
        &&& self.actions.len() == self.events.len()
        &&& forall|i: int|
            0 <= i < self.events.len() ==> {
                &&& #[trigger] stepped(self.states[i], self.events[i], self.actions[i], self.states[i + 1])
                &&& self.states[i].remaining().len() > 0 ==> self.events[i] is None
            }
    }

    /// The data that the live feed brings during the first `n` steps.
    pub open spec fn live(self, n: int) -> Seq<Seq<char>>
        decreases n,
    {
        if n <= 0 {
            Seq::empty()
        } else {
            match self.events[n - 1] {
                Some(LiveEvent::Message { data }) => self.live(n - 1).push(data@),
                _ => self.live(n - 1),
            }
        }
    }

    /// What is sent during the first `n` steps: the frame of a row that is emitted,
    /// under the row's number, and the data that is sent on.
    pub open spec fn sent(self, n: int) -> Seq<SentEvent>
        decreases n,
    {
        if n <= 0 {
            Seq::empty()
        } else {
            match self.actions[n - 1] {
                StreamAction::Emit(frame) => self.sent(n - 1).push(
                    SentEvent { sequence: Some(self.states[n - 1].remaining()[0].sequence), data: frame.data@ },
                ),
                StreamAction::Forward { data } => self.sent(n - 1).push(live_event(data@)),
                _ => self.sent(n - 1),
            }
        }
    }

    /// Whether the history is over after all steps.
    pub open spec fn caught_up(self) -> bool {
        self.states.last().remaining().len() == 0
    }
}

proof fn lemma_run(run: StreamRun, n: int)
    requires
        run.follows(),
        0 <= n <= run.events.len(),
    ensures
        run.states[n].session() == run.states[0].session(),
        run.states[n].covered() == run.states[0].covered(),
        run.states[n].remaining().len() > 0 ==> run.live(n).len() == 0,
        run.sent(n) + row_events(run.states[0].session(), run.states[n].remaining()) == owed(
            run.states[0].remaining(),
            run.live(n),
            run.states[0].session(),
            run.states[0].covered(),
        ),
    decreases n,
{
    let session = run.states[0].session();
    let max = run.states[0].covered();
    let history = run.states[0].remaining();
    let pred = |d: Seq<char>| forwards(session, max, d);
    reveal(Seq::filter);
    if n == 0 {
        assert(run.live(0).filter(pred) =~= Seq::<Seq<char>>::empty());
        assert(run.sent(0) + row_events(session, history) =~= owed(history, run.live(0), session, max));
    } else {
        lemma_run(run, n - 1);
        let (before, after) = (run.states[n - 1], run.states[n]);
        assert(stepped(before, run.events[n - 1], run.actions[n - 1], run.states[n - 1 + 1]));
        let old_live = run.live(n - 1);
        let rest = row_events(session, before.remaining());
        if before.remaining().len() > 0 {
            let row = before.remaining()[0];
            assert(run.sent(n) =~= run.sent(n - 1).push(row_event(session, row)));
            assert(rest =~= seq![row_event(session, row)] + row_events(session, after.remaining()));
            assert(run.sent(n) + row_events(session, after.remaining()) =~= run.sent(n - 1) + rest);
        } else {
            assert(rest =~= Seq::<SentEvent>::empty());
            assert(row_events(session, after.remaining()) =~= Seq::<SentEvent>::empty());
            assert(run.sent(n - 1) =~= owed(history, old_live, session, max));
            match run.events[n - 1] {
                Some(LiveEvent::Message { data }) => {
                    assert(run.live(n) == old_live.push(data@));
                    assert(run.live(n).drop_last() =~= old_live);
                    if pred(data@) {
                        assert(run.live(n).filter(pred) =~= old_live.filter(pred).push(data@));
                        assert(owed(history, run.live(n), session, max) =~= owed(history, old_live, session, max).push(
                            live_event(data@),
                        ));
                    } else {
                        assert(run.live(n).filter(pred) =~= old_live.filter(pred));
                    }
                },
                _ => {},
            }
            assert(run.sent(n) + row_events(session, after.remaining()) =~= owed(history, run.live(n), session, max));
        }
    }
}

/// A stream sends exactly what it is to send: what it has sent so far, followed by
/// the rows of the history that are left, is the whole history and then those live
/// events of the session that the history does not cover, in the order they came in.
pub proof fn history_join_sends_what_is_owed(run: StreamRun)
    requires
        run.follows(),
    ensures
        run.sent(run.events.len() as int) + row_events(run.states[0].session(), run.states.last().remaining()) == owed(
            run.states[0].remaining(),
            run.live(run.events.len() as int),
            run.states[0].session(),
            run.states[0].covered(),
        ),
        run.caught_up() ==> run.sent(run.events.len() as int) == owed(
            run.states[0].remaining(),
            run.live(run.events.len() as int),
            run.states[0].session(),
            run.states[0].covered(),
        ),
{
    let n = run.events.len() as int;
    lemma_run(run, n);
    if run.caught_up() {
        assert(run.sent(n) + row_events(run.states[0].session(), run.states.last().remaining()) =~= run.sent(n));
    }
}

/// Nothing is sent twice: where the history is in ascending order and the live
/// feed does not repeat a sequence number of the session, a stream sends no
/// sequence number twice.
pub proof fn history_join_sends_nothing_twice(run: StreamRun, from_sequence: i64, i: int, j: int)
    requires
        run.follows(),
        run.states[0].covered() == covered_up_to(run.states[0].remaining(), from_sequence),
        ascending(run.states[0].remaining()),
        numbered_once(run.live(run.events.len() as int), run.states[0].session()),
        0 <= i < j < run.sent(run.events.len() as int).len(),
    ensures
        run.sent(run.events.len() as int)[i].sequence != run.sent(run.events.len() as int)[j].sequence,
{
    let n = run.events.len() as int;
    let (history, live, session) = (run.states[0].remaining(), run.live(n), run.states[0].session());
    history_join_sends_what_is_owed(run);
    lemma_owed_distinct(history, live, session, from_sequence);
    let all = owed(history, live, session, covered_up_to(history, from_sequence));
    assert(run.sent(n)[i] == all[i] && run.sent(n)[j] == all[j]);
}

/// Nothing is lost: once a stream has caught up, every row of the history was sent,
/// and so was every live event of the session beyond what the history covers.
pub proof fn history_join_loses_nothing(run: StreamRun, from_sequence: i64, number: i64)
    requires
        run.follows(),
        run.caught_up(),
        run.states[0].covered() == covered_up_to(run.states[0].remaining(), from_sequence),
        in_history(run.states[0].remaining(), number) || (number > run.states[0].covered() && in_feed(
            run.live(run.events.len() as int),
            run.states[0].session(),
            number,
        )),
    ensures
        exists|i: int|
            0 <= i < run.sent(run.events.len() as int).len() && (#[trigger] run.sent(run.events.len() as int)[i]).sequence
                == Some(number),
{
    let n = run.events.len() as int;
    history_join_sends_what_is_owed(run);
    lemma_owed_complete(run.states[0].remaining(), run.live(n), run.states[0].session(), from_sequence, number);
    let all = owed(
        run.states[0].remaining(),
        run.live(n),
        run.states[0].session(),
        covered_up_to(run.states[0].remaining(), from_sequence),
    );
    let i = choose|i: int| 0 <= i < all.len() && (#[trigger] all[i]).sequence == Some(number);
    assert(run.sent(n)[i].sequence == Some(number));
}

/// Whether the rows are in ascending order.
pub open spec fn ascending(history: Seq<HistoryEventRow>) -> bool {
    forall|i: int, j: int| 0 <= i < j < history.len() ==> history[i].sequence < history[j].sequence
}

/// Whether every event of the session has a sequence number, and no two the same.
pub open spec fn numbered_once(live: Seq<Seq<char>>, session: Uuid) -> bool {
    &&& forall|i: int|
        0 <= i < live.len() && session_in(#[trigger] live[i]) == Some(session.text()) ==> sequence_in(live[i]) is Some
    &&& forall|i: int, j: int|
        #![trigger live[i], live[j]]
        0 <= i < j < live.len() && session_in(live[i]) == Some(session.text()) && session_in(live[j]) == Some(
            session.text(),
        ) ==> sequence_in(live[i]) != sequence_in(live[j])
}

/// Whether a row has the number.
pub open spec fn in_history(history: Seq<HistoryEventRow>, number: i64) -> bool {
    exists|i: int| 0 <= i < history.len() && #[trigger] history[i].sequence == number
}

/// Whether the feed brings an event of the session with the number.
pub open spec fn in_feed(live: Seq<Seq<char>>, session: Uuid, number: i64) -> bool {
    exists|i: int|
        0 <= i < live.len() && session_in(#[trigger] live[i]) == Some(session.text()) && sequence_in(live[i]) == Some(
            number,
        )
}

proof fn lemma_owed_distinct(
    history: Seq<HistoryEventRow>,
    live: Seq<Seq<char>>,
    session: Uuid,
    from_sequence: i64,
)
    requires
        ascending(history),
        numbered_once(live, session),
    ensures
        ({
            let all = owed(history, live, session, covered_up_to(history, from_sequence));
            forall|i: int, j: int|
                #![trigger all[i], all[j]]
                0 <= i < j < all.len() ==> all[i].sequence != all[j].sequence
        }),
{
    let max = covered_up_to(history, from_sequence);
    let pred = |d: Seq<char>| forwards(session, max, d);
    let s = owed(history, live, session, max);
    let n = history.len() as int;
    lemma_filter_keeps_distinct(live, session, max);
    assert forall|i: int, j: int|
        #![trigger s[i], s[j]]
        0 <= i < j < s.len() implies s[i].sequence != s[j].sequence by {
        let kept = live.filter(pred);
        if j < n {
            assert(s[i] == row_event(session, history[i]) && s[j] == row_event(session, history[j]));
        } else {
            assert(s[j] == live_event(kept[j - n]));
            if i < n {
                assert(s[i] == row_event(session, history[i]));
                assert(history[i].sequence <= max);
                assert(forwards(session, max, kept[j - n]));
            } else {
                assert(s[i] == live_event(kept[i - n]));
                assert(sequence_in(kept[i - n]) != sequence_in(kept[j - n]));
            }
        }
    }
}

proof fn lemma_filter_keeps_distinct(live: Seq<Seq<char>>, session: Uuid, max: i64)
    requires
        numbered_once(live, session),
    ensures
        ({
            let kept = live.filter(|d: Seq<char>| forwards(session, max, d));
            &&& forall|i: int| 0 <= i < kept.len() ==> forwards(session, max, #[trigger] kept[i]) && sequence_in(kept[i])
                is Some && live.contains(kept[i])
            &&& forall|i: int, j: int|
                #![trigger kept[i], kept[j]]
                0 <= i < j < kept.len() ==> sequence_in(kept[i]) != sequence_in(kept[j])
        }),
    decreases live.len(),
{
    let pred = |d: Seq<char>| forwards(session, max, d);
    reveal(Seq::filter);
    if live.len() > 0 {
        let rest = live.drop_last();
        assert forall|i: int, j: int|
            #![trigger rest[i], rest[j]]
            0 <= i < j < rest.len() && session_in(rest[i]) == Some(session.text()) && session_in(rest[j]) == Some(
                session.text(),
            ) implies sequence_in(rest[i]) != sequence_in(rest[j]) by {
            assert(rest[i] == live[i] && rest[j] == live[j]);
        }
        assert forall|i: int| 0 <= i < rest.len() && session_in(#[trigger] rest[i]) == Some(session.text()) implies sequence_in(
            rest[i],
        ) is Some by {
            assert(rest[i] == live[i]);
        }
        lemma_filter_keeps_distinct(rest, session, max);
        let kept_rest = rest.filter(pred);
        let kept = live.filter(pred);
        assert forall|i: int| 0 <= i < kept_rest.len() implies live.contains(#[trigger] kept_rest[i]) by {
            let k = choose|k: int| 0 <= k < rest.len() && rest[k] == kept_rest[i];
            assert(live[k] == kept_rest[i]);
        }
        if pred(live.last()) {
            assert(kept == kept_rest.push(live.last()));
            assert forall|i: int, j: int|
                #![trigger kept[i], kept[j]]
                0 <= i < j < kept.len() implies sequence_in(kept[i]) != sequence_in(kept[j]) by {
                if j == kept.len() - 1 {
                    assert(rest.contains(kept_rest[i]));
                    let k = choose|k: int| 0 <= k < rest.len() && rest[k] == kept_rest[i];
                    assert(live[k] == kept[i]);
                    assert(live[live.len() - 1] == kept[j]);
                } else {
                    assert(kept[i] == kept_rest[i] && kept[j] == kept_rest[j]);
                }
            }
            assert forall|i: int| 0 <= i < kept.len() implies forwards(session, max, #[trigger] kept[i]) && sequence_in(
                kept[i],
            ) is Some && live.contains(kept[i]) by {
                if i == kept.len() - 1 {
                    assert(live[live.len() - 1] == kept[i]);
                } else {
                    assert(kept[i] == kept_rest[i]);
                }
            }
        } else {
            assert(kept == kept_rest);
        }
    }
}

proof fn lemma_owed_complete(
    history: Seq<HistoryEventRow>,
    live: Seq<Seq<char>>,
    session: Uuid,
    from_sequence: i64,
    number: i64,
)
    requires
        in_history(history, number) || (number > covered_up_to(history, from_sequence) && in_feed(live, session, number)),
    ensures
        ({
            let all = owed(history, live, session, covered_up_to(history, from_sequence));
            exists|i: int| 0 <= i < all.len() && (#[trigger] all[i]).sequence == Some(number)
        }),
{
    let max = covered_up_to(history, from_sequence);
    let pred = |d: Seq<char>| forwards(session, max, d);
    let all = owed(history, live, session, max);
    if in_history(history, number) {
        let i = choose|i: int| 0 <= i < history.len() && #[trigger] history[i].sequence == number;
        assert(all[i] == row_event(session, history[i]));
    } else {
        let i = choose|i: int|
            0 <= i < live.len() && session_in(#[trigger] live[i]) == Some(session.text()) && sequence_in(live[i])
                == Some(number);
        assert(pred(live[i]));
        live.lemma_filter_contains(pred, i);
        let kept = live.filter(pred);
        let k = choose|k: int| 0 <= k < kept.len() && kept[k] == live[i];
        assert(all[history.len() + k] == live_event(kept[k]));
    }
}

/// A session row as the stream needs it.
#[derive(Debug)]
pub struct StreamedSession {
    pub owner: Ownership,
    pub status: String,
}

/// What is known so far.
#[derive(Debug)]
pub struct StreamFacts {
    /// The session row, if there is one.
    pub session: Option<Option<StreamedSession>>,
    /// The history from `from_sequence` on, in ascending order.
    pub history: Option<Vec<HistoryEventRow>>,
}

/// What to do next.
#[derive(Debug)]
pub enum SessionEventsAction {
    /// Look the session up.
    FindSession { id: Uuid },
    /// Subscribe to the tenant's live feed, then read the session's whole history from
    /// that number on, in ascending order.
    SubscribeThenReadHistory { session_id: Uuid, tenant_id: Uuid, from_sequence: i64 },
    /// Send these events, then close.
    Replay(Vec<SseFrame>),
    /// Run this stream over the live feed subscribed to before.
    Join(HistoryJoin),
    /// Follow the session's live feed, from after this event if one is named.
    Follow { session_id: Uuid, tenant_id: Uuid, last_event_id: Option<String> },
    /// Refuse.
    Refuse(AppError),
}

/// The ownership that a row states.
pub open spec fn owner_of(row: Option<StreamedSession>) -> Option<Ownership> {
    match row {
        Some(r) => Some(r.owner),
        None => None,
    }
}

/// `s`, unless it is empty.
pub open spec fn non_empty(s: Option<String>) -> Option<String> {
    match s {
        Some(x) if x@.len() > 0 => Some(x),
        _ => None,
    }
}

/// The next step of opening a stream.
pub fn session_events(
    auth: &AuthContext,
    session_id: Uuid,
    params: &EventsParams,
    last_event_id: Option<String>,
    facts: StreamFacts,
) -> (action: SessionEventsAction)
    ensures
        match tenant_of(*auth) {
            Err(e) => action == SessionEventsAction::Refuse(e),
            Ok(tenant) => match facts.session {
                None => action == (SessionEventsAction::FindSession { id: session_id }),
                Some(row) => match barred(*auth, tenant, owner_of(row)) {
                    Some(e) => action == SessionEventsAction::Refuse(e),
                    None => {
                        let status = row->0.status@;
                        match (params.from_sequence, facts.history) {
                            (Some(from), None) => action == (SessionEventsAction::SubscribeThenReadHistory {
                                session_id,
                                tenant_id: tenant,
                                from_sequence: from,
                            }),
                            (Some(from), Some(history)) => if terminal_status(status) {
                                &&& action matches SessionEventsAction::Replay(frames)
                                &&& frames@.len() == history@.len() + 1
                                &&& forall|i: int|
                                    0 <= i < history@.len() ==> frames_row(
                                        #[trigger] frames@[i],
                                        session_id,
                                        history@[i],
                                    )
                                &&& frames@.last().event@ == "session.completed"@
                                &&& frames@.last().data@ == json_text(completion_json(session_id, status))
                            } else if live_status(status) {
                                &&& action matches SessionEventsAction::Join(stream)
                                &&& stream.session() == session_id
                                &&& stream.remaining() == history@
                                &&& stream.covered() == covered_up_to(history@, from)
                            } else {
                                action == SessionEventsAction::Refuse(AppError::SessionNotRunning)
                            },
                            (None, _) => if live_status(status) {
                                action == (SessionEventsAction::Follow {
                                    session_id,
                                    tenant_id: tenant,
                                    last_event_id: non_empty(last_event_id),
                                })
                            } else if terminal_status(status) {
                                &&& action matches SessionEventsAction::Replay(frames)
                                &&& frames@.len() == 1
                                &&& frames@[0].event@ == "session.error"@
                                &&& frames@[0].data@ == json_text(ended_json(status))
                            } else {
                                action == SessionEventsAction::Refuse(AppError::SessionNotRunning)
                            },
                        }
                    },
                },
            },
        },
        action matches SessionEventsAction::Join(stream) ==> (params.from_sequence matches Some(from)
            && facts.history matches Some(history) && stream.session() == session_id && stream.remaining() == history@
            && (history@.len() > 0 ==> stream.covered() == history@.last().sequence) && (history@.len() == 0 && from
            > i64::MIN ==> stream.covered() == from - 1)),
        action is SubscribeThenReadHistory || action is Replay || action is Join || action is Follow ==> (facts.session
            matches Some(Some(row)) && match *auth {
            AuthContext::Session(info) => info.email_verified && row.owner.tenant_id == info.tenant_id
                && row.owner.user_id == info.user_id,
            AuthContext::ApiKey(key) => row.owner.tenant_id == key.tenant_id && (row.owner.user_id == key.user_id
                || key.scopes@.contains(Scope::Admin)),
            _ => false,
        }),
        action matches SessionEventsAction::Follow { last_event_id: after, .. } ==> params.from_sequence is None
            && match last_event_id {
            Some(id) => if id@.len() > 0 {
                after == Some(id)
            } else {
                after is None
            },
            None => after is None,
        },
{
    let tenant_id = match caller_tenant(auth) {
        Ok(t) => t,
        Err(e) => return SessionEventsAction::Refuse(e),
    };
    let row = match facts.session {
        None => return SessionEventsAction::FindSession { id: session_id },
        Some(None) => return SessionEventsAction::Refuse(AppError::NotFound),
        Some(Some(r)) => r,
    };
    match refusal(auth, tenant_id, Some(row.owner)) {
        Some(e) => return SessionEventsAction::Refuse(e),
        None => {},
    }
    let status = row.status.as_str();
    match params.from_sequence {
        Some(from) => match facts.history {
            None => SessionEventsAction::SubscribeThenReadHistory { session_id, tenant_id, from_sequence: from },
            Some(history) => if is_terminal_status(status) {
                SessionEventsAction::Replay(terminal_history_stream(session_id, &history, status))
            } else if is_live_status(status) {
                let covered: i64 = last_covered(&history, from);
                SessionEventsAction::Join(HistoryJoin::new(session_id, history, covered))
            } else {
                SessionEventsAction::Refuse(AppError::SessionNotRunning)
            },
        },
        None => if is_live_status(status) {
            let after = match last_event_id {
                Some(s) => if s.as_str().is_empty() {
                    None
                } else {
                    Some(s)
                },
                None => None,
            };
            SessionEventsAction::Follow { session_id, tenant_id, last_event_id: after }
        } else if is_terminal_status(status) {
            let mut frames: Vec<SseFrame> = Vec::new();
            frames.push(sse_error_response(status));
            SessionEventsAction::Replay(frames)
        } else {
            SessionEventsAction::Refuse(AppError::SessionNotRunning)
        },
    }
}

/// A stream that replays a history in ascending order goes on with the live feed: once
/// it has caught up, it has sent every live event of the session with a number beyond
/// those of all rows and not below the number that was asked for.
pub proof fn history_join_goes_on_live(run: StreamRun, from_sequence: i64, number: i64, at: int)
    requires
        run.follows(),
        run.caught_up(),
        run.states[0].covered() == covered_up_to(run.states[0].remaining(), from_sequence),
        forall|i: int|
            0 <= i < run.states[0].remaining().len() ==> (#[trigger] run.states[0].remaining()[i]).sequence < number,
        from_sequence <= number,
        number > i64::MIN,
        0 <= at < run.live(run.events.len() as int).len(),
        session_in(run.live(run.events.len() as int)[at]) == Some(run.states[0].session().text()),
        sequence_in(run.live(run.events.len() as int)[at]) == Some(number),
    ensures
        exists|i: int|
            0 <= i < run.sent(run.events.len() as int).len() && (#[trigger] run.sent(run.events.len() as int)[i]).sequence
                == Some(number),
{
    let history = run.states[0].remaining();
    if history.len() > 0 {
        assert(history[history.len() - 1].sequence < number);
    }
    assert(in_feed(run.live(run.events.len() as int), run.states[0].session(), number));
    history_join_loses_nothing(run, from_sequence, number);
}

/// What a stream sends of the live feed: an event of another session never; one whose
/// number some row of the history has, or that is numbered below such a row, never
/// again.
pub proof fn history_join_repeats_no_row(
    history: Seq<HistoryEventRow>,
    from_sequence: i64,
    session: Uuid,
    data: Seq<char>,
    i: int,
)
    requires
        forall|a: int, b: int| 0 <= a < b < history.len() ==> history[a].sequence < history[b].sequence,
    ensures
        session_in(data) != Some(session.text()) ==> !forwards(session, covered_up_to(history, from_sequence), data),
        0 <= i < history.len() && (sequence_in(data) matches Some(n) && n <= history[i].sequence) ==> !forwards(
            session,
            covered_up_to(history, from_sequence),
            data,
        ),
        session_in(data) == Some(session.text()) && sequence_in(data) is None ==> forwards(
            session,
            covered_up_to(history, from_sequence),
            data,
        ),
{
}

/// What one step of a stream does: while there is history, it sends the next row, as the
/// event of the session that the row is; then it sends on the live events of the session
/// beyond what it covers, tells of lost ones, and ends with the feed.
pub proof fn streams_replay_then_follow(
    before: HistoryJoin,
    event: Option<LiveEvent>,
    action: StreamAction,
    after: HistoryJoin,
)
    requires
        stepped(before, event, action, after),
    ensures
        before.remaining().len() > 0 ==> {
            let row = before.remaining()[0];
            &&& action matches StreamAction::Emit(frame)
            &&& frame.event@ == "session.event"@
            &&& frame.data@ == json_text(
                Json::Object(
                    map![
                        "session_id"@ => Json::Str(before.session().text()),
                        "event_type"@ => Json::Str(row.event_type@),
                        "sequence"@ => Json::Int(row.sequence as int),
                        "payload"@ => json_of(row.payload),
                    ],
                ),
            )
            &&& after.remaining() == before.remaining().skip(1)
        },
        before.remaining().len() == 0 ==> after.remaining().len() == 0 && match event {
            None => action is Wait,
            Some(LiveEvent::Lagged { dropped }) => action matches StreamAction::Reset { dropped: n } && n == dropped,
            Some(LiveEvent::Closed) => action is End,
            Some(LiveEvent::Message { data }) => {
                let own = session_in(data@) == Some(before.session().text());
                let new = match sequence_in(data@) {
                    Some(n) => n > before.covered(),
                    None => true,
                };
                if own && new {
                    action matches StreamAction::Forward { data: sent } && sent == data
                } else {
                    action is Wait
                }
            },
        },
        after.session() == before.session() && after.covered() == before.covered(),
{
    if before.remaining().len() > 0 {
        assert(before.remaining().drop_first() =~= before.remaining().skip(1));
    }
}

} // verus!
