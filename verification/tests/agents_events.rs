use control_api::agents::access::{caller_tenant, is_admin, is_owner, refusal, Ownership};
use control_api::agents::events::{
    data_matches_session, event_data, extract_sequence, history_row_to_event, last_covered, session_events,
    sse_error_response, terminal_history_stream, EventsParams, HistoryEventRow, HistoryJoin, LiveEvent,
    SessionEventsAction, SseFrame, StreamAction, StreamFacts, StreamedSession,
};
use control_api::agents::events_history::{
    history_page, session_events_history, EventItem, EventsQuery, HistoryAction, HistoryFacts, HistoryParams, HistoryResponse,
    DEFAULT_LIMIT, MAX_LIMIT,
};
use control_api::agents::events_ndjson::{
    disposition, event_text, ndjson_line, next_line, session_log_ndjson, LogAction, LogRead, NdjsonAction, NdjsonParams,
};
use control_api::caller::{ApiKeyInfo, AuthContext, Scope, SessionInfo};
use control_api::clock::Timestamp;
use control_api::error::AppError;
use control_api::ids::Uuid;
use serde_json::Value;

fn make_session(user_id: Uuid, tenant_id: Uuid, verified: bool) -> AuthContext {
    AuthContext::Session(SessionInfo { session_id: Uuid::new_v4(), user_id, tenant_id, email_verified: verified })
}

fn make_api_key(user_id: Uuid, tenant_id: Uuid, scopes: Vec<Scope>) -> AuthContext {
    AuthContext::ApiKey(ApiKeyInfo { key_id: Uuid::new_v4(), tenant_id, user_id, scopes })
}

fn object(key: &str, value: Value) -> Value {
    let mut m = serde_json::Map::new();
    m.insert(key.to_owned(), value);
    Value::Object(m)
}

fn empty_object() -> Value {
    Value::Object(serde_json::Map::new())
}

fn owner_or_admin(auth: &AuthContext, owner: Uuid) -> bool {
    is_owner(auth, owner) || is_admin(auth)
}

// ── Auth guard ────────────────────────────────────────────────────────────

#[test]
fn events_anonymous_auth_is_unauthorized() {
    assert!(matches!(caller_tenant(&AuthContext::Anonymous), Err(AppError::Unauthorized)));
}

#[test]
fn mod_anonymous_auth_is_unauthorized() {
    let id = Uuid::new_v4();
    let facts = StreamFacts { session: None, history: None };
    let action = session_events(&AuthContext::Anonymous, id, &EventsParams { from_sequence: None }, None, facts);
    assert!(matches!(action, SessionEventsAction::Refuse(AppError::Unauthorized)));
}

#[test]
fn events_expired_session_returns_session_expired() {
    assert!(matches!(caller_tenant(&AuthContext::ExpiredSession), Err(AppError::SessionExpired)));
}

#[test]
fn mod_expired_session_returns_session_expired() {
    let id = Uuid::new_v4();
    let facts = StreamFacts { session: None, history: None };
    let action = session_events(&AuthContext::ExpiredSession, id, &EventsParams { from_sequence: None }, None, facts);
    assert!(matches!(action, SessionEventsAction::Refuse(AppError::SessionExpired)));
}

#[test]
fn events_unverified_session_returns_email_not_verified() {
    let session = make_session(Uuid::new_v4(), Uuid::new_v4(), false);
    assert!(matches!(caller_tenant(&session), Err(AppError::EmailNotVerified)));
}

#[test]
fn mod_unverified_session_returns_email_not_verified() {
    let session = make_session(Uuid::new_v4(), Uuid::new_v4(), false);
    let facts = StreamFacts { session: None, history: None };
    let action = session_events(&session, Uuid::new_v4(), &EventsParams { from_sequence: None }, None, facts);
    assert!(matches!(action, SessionEventsAction::Refuse(AppError::EmailNotVerified)));
}

#[test]
fn events_verified_session_returns_tenant_id() {
    let tenant_id = Uuid::new_v4();
    let session = make_session(Uuid::new_v4(), tenant_id, true);
    assert!(matches!(caller_tenant(&session), Ok(id) if id == tenant_id));
}

#[test]
fn mod_verified_session_returns_tenant_id() {
    let tenant_id = Uuid::new_v4();
    let session = make_session(Uuid::new_v4(), tenant_id, true);
    let result = caller_tenant(&session);
    assert!(matches!(result, Ok(id) if id == tenant_id));
}

#[test]
fn events_api_key_returns_tenant_id() {
    let tenant_id = Uuid::new_v4();
    let api_key = make_api_key(Uuid::new_v4(), tenant_id, vec![Scope::Read]);
    assert!(matches!(caller_tenant(&api_key), Ok(id) if id == tenant_id));
}

#[test]
fn mod_api_key_returns_tenant_id() {
    let tenant_id = Uuid::new_v4();
    let api_key = make_api_key(Uuid::new_v4(), tenant_id, vec![Scope::Read]);
    let result = caller_tenant(&api_key);
    assert!(matches!(result, Ok(id) if id == tenant_id));
}

#[test]
fn events_session_owner_check_passes_for_same_user() {
    let user_id = Uuid::new_v4();
    assert!(is_owner(&make_session(user_id, Uuid::new_v4(), true), user_id));
}

#[test]
fn mod_session_owner_check_passes_for_same_user() {
    let user_id = Uuid::new_v4();
    let tenant_id = Uuid::new_v4();
    let session = make_session(user_id, tenant_id, true);
    assert!(refusal(&session, tenant_id, Some(Ownership { tenant_id, user_id })).is_none());
}

#[test]
fn events_session_owner_check_fails_for_different_user() {
    let session = make_session(Uuid::new_v4(), Uuid::new_v4(), true);
    assert!(!is_owner(&session, Uuid::new_v4()));
}

#[test]
fn mod_session_owner_check_fails_for_different_user() {
    let tenant_id = Uuid::new_v4();
    let session = make_session(Uuid::new_v4(), tenant_id, true);
    let row = Ownership { tenant_id, user_id: Uuid::new_v4() };
    assert!(matches!(refusal(&session, tenant_id, Some(row)), Some(AppError::InsufficientRole)));
}

#[test]
fn events_api_key_owner_check_passes_for_same_user() {
    let user_id = Uuid::new_v4();
    assert!(owner_or_admin(&make_api_key(user_id, Uuid::new_v4(), vec![Scope::Read]), user_id));
}

#[test]
fn mod_api_key_owner_check_passes_for_same_user() {
    let user_id = Uuid::new_v4();
    let tenant_id = Uuid::new_v4();
    let key = make_api_key(user_id, tenant_id, vec![Scope::Read]);
    assert!(refusal(&key, tenant_id, Some(Ownership { tenant_id, user_id })).is_none());
}

#[test]
fn events_api_key_admin_check_passes_with_admin_scope() {
    let key = make_api_key(Uuid::new_v4(), Uuid::new_v4(), vec![Scope::Admin]);
    assert!(owner_or_admin(&key, Uuid::new_v4()));
}

#[test]
fn mod_api_key_admin_check_passes_with_admin_scope() {
    let tenant_id = Uuid::new_v4();
    let key = make_api_key(Uuid::new_v4(), tenant_id, vec![Scope::Admin]);
    assert!(refusal(&key, tenant_id, Some(Ownership { tenant_id, user_id: Uuid::new_v4() })).is_none());
}

#[test]
fn events_api_key_non_owner_non_admin_fails() {
    let key = make_api_key(Uuid::new_v4(), Uuid::new_v4(), vec![Scope::Read, Scope::Write]);
    assert!(!owner_or_admin(&key, Uuid::new_v4()));
}

#[test]
fn mod_api_key_non_owner_non_admin_fails() {
    let tenant_id = Uuid::new_v4();
    let key = make_api_key(Uuid::new_v4(), tenant_id, vec![Scope::Read, Scope::Write]);
    let row = Ownership { tenant_id, user_id: Uuid::new_v4() };
    assert!(matches!(refusal(&key, tenant_id, Some(row)), Some(AppError::InsufficientRole)));
}

#[test]
fn sessions_of_other_tenants_are_barred_even_to_admins() {
    let user_id = Uuid::new_v4();
    let tenant_id = Uuid { bits: 1 };
    let row = Ownership { tenant_id: Uuid { bits: 2 }, user_id };
    let key = make_api_key(user_id, tenant_id, vec![Scope::Admin]);
    assert!(matches!(refusal(&key, tenant_id, Some(row)), Some(AppError::InsufficientRole)));
    assert!(matches!(refusal(&key, tenant_id, None), Some(AppError::NotFound)));
}

// ── Frames ────────────────────────────────────────────────────────────────

fn shows_error(frame: &SseFrame) {
    assert!(frame.event == "session.error", "SSE event type must be session.error, got: {}", frame.event);
    assert!(frame.data.contains("terminated"), "SSE data must contain status, got: {}", frame.data);
}

#[test]
fn events_sse_error_response_contains_status() {
    shows_error(&sse_error_response("terminated"));
}

#[test]
fn stream_sse_error_response_contains_status() {
    let frame = sse_error_response("terminated");
    shows_error(&frame);
    assert_eq!(
        frame.data,
        "{\"error\":\"session_not_running\",\"message\":\"session is in terminal state: terminated\",\"status\":\"terminated\"}"
    );
}

#[test]
fn events_extract_sequence_parses_correctly() {
    let data = r#"{"session_id":"x","sequence":42,"event_type":"session.message","payload":{}}"#;
    assert_eq!(extract_sequence(data), Some(42));
}

#[test]
fn stream_extract_sequence_parses_correctly() {
    let data = r#"{"session_id":"x","sequence":42,"event_type":"session.message","payload":{}}"#;
    assert_eq!(extract_sequence(data), Some(42));
}

#[test]
fn events_extract_sequence_returns_none_for_missing_field() {
    assert_eq!(extract_sequence(r#"{"event_type":"session.message"}"#), None);
}

#[test]
fn stream_extract_sequence_returns_none_for_missing_field() {
    assert_eq!(extract_sequence(r#"{"event_type":"session.message"}"#), None);
}

#[test]
fn events_extract_sequence_returns_none_for_invalid_json() {
    assert_eq!(extract_sequence("not-json"), None);
}

#[test]
fn stream_extract_sequence_returns_none_for_invalid_json() {
    assert_eq!(extract_sequence("not-json"), None);
}

fn naming(id: Uuid) -> String {
    object("session_id", Value::from(id.to_text())).to_string()
}

#[test]
fn events_data_matches_session_true_for_matching_id() {
    let sid = Uuid::new_v4();
    assert!(data_matches_session(&naming(sid), sid));
}

#[test]
fn stream_data_matches_session_true_for_matching_id() {
    let sid = Uuid::new_v4();
    assert!(data_matches_session(&naming(sid), sid));
}

#[test]
fn events_data_matches_session_false_for_different_id() {
    assert!(!data_matches_session(&naming(Uuid::new_v4()), Uuid::new_v4()));
}

#[test]
fn stream_data_matches_session_false_for_different_id() {
    assert!(!data_matches_session(&naming(Uuid::new_v4()), Uuid::new_v4()));
}

#[test]
fn events_data_matches_session_false_for_missing_field() {
    assert!(!data_matches_session(r#"{"event_type":"session.message"}"#, Uuid::new_v4()));
}

#[test]
fn stream_data_matches_session_false_for_missing_field() {
    assert!(!data_matches_session(r#"{"event_type":"session.message"}"#, Uuid::new_v4()));
}

fn saying(sequence: i64, payload: Value) -> HistoryEventRow {
    HistoryEventRow { event_type: "session.message".to_owned(), sequence, payload }
}

#[test]
fn events_history_row_to_event_produces_session_event_name() {
    let ev = history_row_to_event(Uuid::new_v4(), &saying(7, object("text", Value::from("hi"))));
    let raw = format!("{ev:?}");
    assert!(raw.contains("session.event") || raw.contains("session_id"));
}

#[test]
fn stream_history_row_to_event_produces_session_event_name() {
    let id = Uuid { bits: 0x1234 };
    let ev = history_row_to_event(id, &saying(7, object("text", Value::from("hi"))));
    assert_eq!(ev.event, "session.event");
    assert_eq!(
        ev.data,
        "{\"event_type\":\"session.message\",\"payload\":{\"text\":\"hi\"},\"sequence\":7,\
         \"session_id\":\"00000000-0000-0000-0000-000000001234\"}"
    );
    assert!(data_matches_session(&ev.data, id));
    assert_eq!(extract_sequence(&ev.data), Some(7));
}

#[test]
fn events_events_params_with_from_sequence_some_value() {
    let p = EventsParams { from_sequence: Some(42) };
    assert_eq!(p.from_sequence, Some(42));
}

#[test]
fn mod_events_params_with_from_sequence_some_value() {
    let p = EventsParams { from_sequence: Some(42) };
    assert_eq!(p.from_sequence, Some(42));
}

fn check_terminal_history_stream() {
    let history = vec![saying(1, empty_object()), saying(2, empty_object())];
    let frames = terminal_history_stream(Uuid::new_v4(), &history, "terminated");
    assert_eq!(frames.len(), 3, "2 history events + 1 completion event");
    assert!(frames[..2].iter().all(|f| f.event == "session.event"), "must contain history event frames: {frames:?}");
    assert_eq!(frames[2].event, "session.completed", "must contain synthetic completion frame");
    assert!(frames[2].data.contains("terminated"), "completion frame must include status: {frames:?}");
}

#[test]
fn events_terminal_history_stream_emits_history_then_completion() {
    check_terminal_history_stream();
}

#[test]
fn stream_terminal_history_stream_emits_history_then_completion() {
    check_terminal_history_stream();
}

// ── History and live feed ─────────────────────────────────────────────────

fn live(session_id: Uuid, seq: i64) -> LiveEvent {
    LiveEvent::Message { data: event_data(session_id, "session.message", seq, empty_object()) }
}

fn drain(mut stream: HistoryJoin, feed: Vec<LiveEvent>) -> Vec<i64> {
    let mut sent = Vec::new();
    while let StreamAction::Emit(frame) = stream.step(None) {
        sent.push(extract_sequence(&frame.data).expect("a history frame has its number"));
    }
    for event in feed {
        match stream.step(Some(event)) {
            StreamAction::Forward { data } => sent.push(extract_sequence(&data).unwrap()),
            StreamAction::Wait => {}
            StreamAction::End => break,
            other => panic!("unexpected {other:?}"),
        }
    }
    sent
}

fn check_join_without_gaps() {
    let session_id = Uuid::new_v4();
    let history: Vec<HistoryEventRow> = (1i64..=50).map(|seq| saying(seq, empty_object())).collect();
    let mut feed: Vec<LiveEvent> = (46i64..=50).map(|seq| live(session_id, seq)).collect();
    feed.extend((51i64..=60).map(|seq| live(session_id, seq)));
    feed.push(LiveEvent::Closed);
    let items = drain(HistoryJoin::new(session_id, history, 50), feed);
    assert_eq!(items.len(), 60, "expected 60 events, got {}", items.len());
    assert_eq!(items, (1i64..=60).collect::<Vec<_>>());
}

#[test]
fn events_history_join_stream_50_historical_plus_10_live_no_gaps_no_duplicates() {
    check_join_without_gaps();
}

#[test]
fn stream_history_join_stream_50_historical_plus_10_live_no_gaps_no_duplicates() {
    check_join_without_gaps();
}

fn check_join_ignores_others() {
    let my_session = Uuid::new_v4();
    let other_session = Uuid::new_v4();
    let mut feed: Vec<LiveEvent> = (0..3).map(|_| live(other_session, 99)).collect();
    feed.push(live(my_session, 1));
    assert_eq!(drain(HistoryJoin::new(my_session, vec![], -1), feed), vec![1]);
}

#[test]
fn events_history_join_stream_ignores_other_session_events() {
    check_join_ignores_others();
}

#[test]
fn stream_history_join_stream_ignores_other_session_events() {
    check_join_ignores_others();
}

#[test]
fn a_slow_reader_is_told_to_start_over() {
    let mut stream = HistoryJoin::new(Uuid::new_v4(), vec![], 0);
    assert!(matches!(stream.step(None), StreamAction::Wait));
    assert!(matches!(stream.step(Some(LiveEvent::Lagged { dropped: 3 })), StreamAction::Reset { dropped: 3 }));
    assert!(matches!(stream.step(Some(LiveEvent::Closed)), StreamAction::End));
}

#[test]
fn live_events_without_a_number_are_sent_on() {
    let id = Uuid::new_v4();
    let mut stream = HistoryJoin::new(id, vec![], 10);
    assert!(matches!(stream.step(Some(LiveEvent::Message { data: naming(id) })), StreamAction::Forward { .. }));
}

#[test]
fn an_empty_history_covers_what_came_before() {
    assert_eq!(last_covered(&vec![], 5), 4);
    assert_eq!(last_covered(&vec![], i64::MIN), i64::MIN);
    assert_eq!(last_covered(&vec![saying(9, empty_object())], 5), 9);
}

fn open(status: &str, from_sequence: Option<i64>, history: Option<Vec<HistoryEventRow>>) -> SessionEventsAction {
    let user_id = Uuid { bits: 1 };
    let tenant_id = Uuid { bits: 2 };
    let row = StreamedSession { owner: Ownership { tenant_id, user_id }, status: status.to_owned() };
    let facts = StreamFacts { session: Some(Some(row)), history };
    let auth = make_session(user_id, tenant_id, true);
    session_events(&auth, Uuid { bits: 3 }, &EventsParams { from_sequence }, Some(String::new()), facts)
}

#[test]
fn streams_depend_on_the_status() {
    assert!(matches!(
        open("running", None, None),
        SessionEventsAction::Follow { session_id: Uuid { bits: 3 }, last_event_id: None, tenant_id } if tenant_id == Uuid { bits: 2 }
    ));
    assert!(matches!(
        open("running", Some(4), None),
        SessionEventsAction::SubscribeThenReadHistory { session_id: Uuid { bits: 3 }, from_sequence: 4, .. }
    ));
    assert!(matches!(open("running", Some(4), Some(vec![])), SessionEventsAction::Join(_)));
    match open("completed", Some(4), Some(vec![saying(4, empty_object())])) {
        SessionEventsAction::Replay(frames) => assert_eq!(frames.len(), 2),
        other => panic!("{other:?}"),
    }
    match open("terminated", None, None) {
        SessionEventsAction::Replay(frames) => assert_eq!(frames[0].event, "session.error"),
        other => panic!("{other:?}"),
    }
    assert!(matches!(open("odd", None, None), SessionEventsAction::Refuse(AppError::SessionNotRunning)));
}

// ── History pages ─────────────────────────────────────────────────────────

#[test]
fn default_limit_is_100() {
    assert_eq!(DEFAULT_LIMIT, 100);
}

#[test]
fn max_limit_is_500() {
    assert_eq!(MAX_LIMIT, 500);
}

#[test]
fn history_response_next_seq_null_when_no_more() {
    let val = HistoryResponse { events: vec![], next_seq: None }.to_json();
    assert!(val["next_seq"].is_null());
    assert!(val["events"].is_array());
}

#[test]
fn history_response_next_seq_present_when_more_pages() {
    let val = HistoryResponse { events: vec![], next_seq: Some(42) }.to_json();
    assert_eq!(val["next_seq"], 42);
}

fn item(sequence: i64) -> EventItem {
    EventItem {
        id: Uuid { bits: 0 },
        session_id: Uuid { bits: 0 },
        tenant_id: Uuid { bits: 0 },
        event_type: "session.message".to_owned(),
        sequence,
        payload: object("text", Value::from("hello")),
        created_at: Timestamp { micros: 0 },
    }
}

#[test]
fn event_item_serializes_all_fields() {
    let val = item(7).to_json();
    assert!(val.get("id").is_some());
    assert_eq!(val["event_type"], "session.message");
    assert_eq!(val["sequence"], 7);
    assert!(val["payload"].is_object());
    assert!(val["created_at"].is_string());
}

#[test]
fn following_next_seq_walks_through_the_history() {
    let all: Vec<i64> = vec![2, 3, 5, 8, 9];
    let mut seen = Vec::new();
    let mut after = i64::MIN;
    loop {
        let rows: Vec<EventItem> = all.iter().filter(|n| **n > after).take(3).map(|n| item(*n)).collect();
        let page = history_page(rows, 2);
        seen.extend(page.events.iter().map(|e| e.sequence));
        match page.next_seq {
            Some(n) => after = n,
            None => break,
        }
    }
    assert_eq!(seen, all);
}

#[test]
fn history_pages_are_for_owners_and_admins() {
    let user_id = Uuid { bits: 1 };
    let tenant_id = Uuid { bits: 2 };
    let auth = make_session(user_id, tenant_id, true);
    let ask = |limit, raw: Option<&str>, rows| {
        let params = HistoryParams { after: None, limit, raw: raw.map(str::to_owned) };
        let session = Some(Some(Ownership { tenant_id, user_id }));
        session_events_history(&auth, Uuid { bits: 3 }, &params, HistoryFacts { session, rows })
    };
    assert!(matches!(ask(Some(10), None, None), HistoryAction::Query(EventsQuery { session_id: Uuid { bits: 3 }, after: Some(i64::MIN), rows: Some(11) })));
    assert!(matches!(ask(Some(0), None, None), HistoryAction::Refuse(AppError::InvalidInput)));
    assert!(matches!(ask(Some(501), None, None), HistoryAction::Refuse(AppError::InvalidInput)));
    assert!(matches!(ask(None, Some("1"), None), HistoryAction::Refuse(AppError::InsufficientScope)));
    match ask(None, None, Some(vec![item(1)])) {
        HistoryAction::Answer { page, redact } => {
            assert_eq!(page.next_seq, None);
            assert!(redact);
        }
        other => panic!("{other:?}"),
    }
}

// ── Transcript ────────────────────────────────────────────────────────────

#[test]
fn ndjson_params_raw_flag_parsing() {
    let with_one = NdjsonParams { raw: Some("1".to_owned()) };
    assert!(with_one.is_raw());

    let with_zero = NdjsonParams { raw: Some("0".to_owned()) };
    assert!(!with_zero.is_raw());

    let absent = NdjsonParams { raw: None };
    assert!(!absent.is_raw());

    let with_true = NdjsonParams { raw: Some("true".to_owned()) };
    assert!(!with_true.is_raw(), "only '1' is accepted");
}

#[test]
fn event_row_serialises_to_ndjson_line() {
    let json_str = event_text(&item(42));
    let parsed: Value = serde_json::from_str(&json_str).unwrap();
    assert_eq!(parsed["event_type"], "session.message");
    assert_eq!(parsed["sequence"], 42);
    assert_eq!(parsed["payload"]["text"], "hello");
    assert!(!json_str.contains('\n'));
    assert_eq!(
        json_str,
        "{\"id\":\"00000000-0000-0000-0000-000000000000\",\"session_id\":\"00000000-0000-0000-0000-000000000000\",\
         \"tenant_id\":\"00000000-0000-0000-0000-000000000000\",\"event_type\":\"session.message\",\"sequence\":42,\
         \"payload\":{\"text\":\"hello\"},\"created_at\":\"1970-01-01T00:00:00Z\"}"
    );
}

#[test]
fn a_transcript_line_breaks_only_at_its_end() {
    let mut row = item(1);
    row.payload = object("text", Value::from("two\nlines"));
    let line = ndjson_line(&row);
    assert_eq!(line.matches('\n').count(), 1);
    assert!(line.ends_with("}\n"));
}

#[test]
fn a_transcript_is_sent_line_by_line() {
    assert!(matches!(next_line(LogRead::Row(item(1))), LogAction::Send { line } if line == ndjson_line(&item(1))));
    assert!(matches!(next_line(LogRead::End), LogAction::Close));
    assert!(matches!(next_line(LogRead::Failed("down".to_owned())), LogAction::Abort { error } if error == "down"));
}

#[test]
fn transcripts_are_attachments() {
    let user_id = Uuid { bits: 1 };
    let tenant_id = Uuid { bits: 2 };
    let auth = make_session(user_id, tenant_id, true);
    let id = Uuid { bits: 3 };
    let none = NdjsonParams { raw: None };
    let raw = NdjsonParams { raw: Some("1".to_owned()) };
    assert!(matches!(session_log_ndjson(&auth, id, &none, None), NdjsonAction::FindSession { .. }));
    let own = Some(Some(Ownership { tenant_id, user_id }));
    match session_log_ndjson(&auth, id, &none, own) {
        NdjsonAction::Stream { query, disposition: d } => {
            assert_eq!(query, EventsQuery { session_id: id, after: None, rows: None });
            assert_eq!(d, "attachment; filename=\"session-00000000-0000-0000-0000-000000000003.ndjson\"");
            assert_eq!(d, disposition(id));
        }
        other => panic!("{other:?}"),
    }
    assert!(matches!(
        session_log_ndjson(&auth, id, &raw, own),
        NdjsonAction::Refuse(AppError::InsufficientScope)
    ));
    assert!(matches!(session_log_ndjson(&auth, id, &none, Some(None)), NdjsonAction::Refuse(AppError::NotFound)));
}
