use control_api::agents::events_ingest::{
    event_type, ingest_chat_session_events, ingest_session_events, ChatEffect, IngestAction, IngestEventsRequest,
    IngestEventsResponse, IngestItem, IngestProgress, RuntimeEvent,
};
use control_api::agents::session_lifecycle::{
    is_live_status, is_terminal_status, is_valid_status, parse_runtime, prompt_preview, validate_workspace_path,
    AgentRuntime, LIVE_STATUSES, PROMPT_PREVIEW_MAX_CHARS, TERMINAL_STATUSES, VALID_AGENT_STATUSES,
};
use control_api::agents::session_queries::{
    get_session, list_sessions, GetSessionAction, ListSessionsAction, ListSessionsResponse, SessionDetail,
    SessionDetailRow, SessionItem, MAX_SESSIONS,
};
use control_api::agents::sessions::{
    create_session, delete_session, delete_session_api_key, AgentCommand, CreateAction, CreateProgress,
    CreateSessionRequest, DeleteAction, DeleteProgress, EndingSession, NewAgentSession, Published, RevokeAction,
    StoredSession, INITIAL_MESSAGE_MAX_BYTES,
};
use control_api::agents::sessions_patch::{
    lifecycle_event_payload, lifecycle_event_seq, lifecycle_event_type, patch_session_status, PatchAction,
    PatchProgress, PatchSessionStatusRequest,
};
use control_api::caller::{ApiKeyInfo, AuthContext, Scope, SessionInfo};
use control_api::clock::Timestamp;
use control_api::error::AppError;
use control_api::ids::Uuid;
use serde_json::Value;

const USER: Uuid = Uuid { bits: 11 };
const TENANT: Uuid = Uuid { bits: 22 };

fn signed_in() -> AuthContext {
    AuthContext::Session(SessionInfo {
        session_id: Uuid { bits: 33 },
        user_id: USER,
        tenant_id: TENANT,
        email_verified: true,
    })
}

fn key(scopes: Vec<Scope>) -> AuthContext {
    AuthContext::ApiKey(ApiKeyInfo { key_id: Uuid { bits: 44 }, tenant_id: TENANT, user_id: USER, scopes })
}

fn empty_object() -> Value {
    Value::Object(serde_json::Map::new())
}

fn at(seconds: i64) -> Timestamp {
    Timestamp { micros: seconds * 1_000_000 }
}

// ── Lifecycle ─────────────────────────────────────────────────────────────

#[test]
fn prompt_preview_short_string_unchanged() {
    assert_eq!(prompt_preview("Hello, world!"), "Hello, world!");
}

#[test]
fn prompt_preview_truncates_at_256_chars() {
    let s: String = "x".repeat(1000);
    let preview = prompt_preview(&s);
    assert_eq!(preview.chars().count(), PROMPT_PREVIEW_MAX_CHARS);
    assert_eq!(PROMPT_PREVIEW_MAX_CHARS, 256);
}

#[test]
fn prompt_preview_handles_multibyte_unicode() {
    let s: String = "🦀".repeat(300);
    let preview = prompt_preview(&s);
    assert_eq!(preview.chars().count(), PROMPT_PREVIEW_MAX_CHARS);
    assert!(std::str::from_utf8(preview.as_bytes()).is_ok());
}

#[test]
fn parse_runtime_valid_values() {
    assert_eq!(parse_runtime("claude_code"), Some(AgentRuntime::ClaudeCode));
    assert_eq!(parse_runtime("opencode"), Some(AgentRuntime::Opencode));
    assert_eq!(parse_runtime("pi"), Some(AgentRuntime::Pi));
}

#[test]
fn parse_runtime_invalid_returns_none() {
    assert_eq!(parse_runtime("unknown"), None);
    assert_eq!(parse_runtime(""), None);
}

#[test]
fn validate_workspace_path_rejects_traversal() {
    assert!(validate_workspace_path("../etc/passwd").is_err());
    assert!(validate_workspace_path("/absolute/path").is_err());
    assert!(validate_workspace_path("a/../../b").is_err());
    assert!(validate_workspace_path("./relative").is_err());
}

#[test]
fn validate_workspace_path_accepts_valid_paths() {
    assert!(validate_workspace_path("tenant/session").is_ok());
    assert!(validate_workspace_path("abc123").is_ok());
    assert!(validate_workspace_path("tenant-id/session-id").is_ok());
}

#[test]
fn valid_agent_statuses_includes_expected() {
    assert!(VALID_AGENT_STATUSES.contains(&"pending"));
    assert!(VALID_AGENT_STATUSES.contains(&"running"));
    assert!(VALID_AGENT_STATUSES.contains(&"terminating"));
    assert!(VALID_AGENT_STATUSES.contains(&"terminated"));
    assert!(VALID_AGENT_STATUSES.contains(&"cancelled"));
    assert!(!VALID_AGENT_STATUSES.contains(&"unknown"));
    assert!(!VALID_AGENT_STATUSES.contains(&"'DROP TABLE'"));
}

#[test]
fn terminal_statuses_are_subset_of_valid() {
    for ts in TERMINAL_STATUSES {
        assert!(
            VALID_AGENT_STATUSES.contains(&ts),
            "TERMINAL_STATUSES entry '{ts}' must also appear in VALID_AGENT_STATUSES"
        );
        assert!(is_terminal_status(ts) && is_valid_status(ts));
    }
}

#[test]
fn live_statuses_includes_expected() {
    assert!(LIVE_STATUSES.contains(&"pending"));
    assert!(LIVE_STATUSES.contains(&"running"));
    assert!(LIVE_STATUSES.contains(&"terminating"));
    assert!(!LIVE_STATUSES.contains(&"terminated"));
    assert!(!LIVE_STATUSES.contains(&"cancelled"));
}

#[test]
fn live_and_terminal_are_disjoint() {
    for s in LIVE_STATUSES {
        assert!(
            !TERMINAL_STATUSES.contains(&s),
            "status '{s}' appears in both LIVE_STATUSES and TERMINAL_STATUSES"
        );
        assert!(is_live_status(s) && !is_terminal_status(s));
    }
}

// ── Queries ───────────────────────────────────────────────────────────────

#[test]
fn max_sessions_is_100() {
    assert_eq!(MAX_SESSIONS, 100);
}

fn session_item() -> SessionItem {
    SessionItem {
        id: Uuid::new_v4(),
        runtime_kind: "claude_code".to_owned(),
        status: "running".to_owned(),
        input_prompt_preview: "hello".to_owned(),
        workspace_path: "tenant/session".to_owned(),
        tokens_used: 42,
        token_budget: 100_000,
        created_at: at(1),
        started_at: Some(at(2)),
        completed_at: None,
    }
}

fn session_detail() -> SessionDetail {
    SessionDetail {
        id: Uuid::new_v4(),
        runtime_kind: "opencode".to_owned(),
        status: "failed".to_owned(),
        input_prompt_preview: String::new(),
        workspace_path: String::new(),
        tokens_used: 0,
        token_budget: 100_000,
        created_at: at(1),
        started_at: None,
        completed_at: None,
        pid: Some(1234),
        exit_code: Some(1),
        failed_at: Some(at(3)),
        failure_reason: Some("OOM".to_owned()),
    }
}

#[test]
fn session_item_serializes_all_fields() {
    let val = session_item().to_json();
    assert!(val.get("id").is_some());
    assert_eq!(val["runtime_kind"], "claude_code");
    assert_eq!(val["status"], "running");
    assert!(val.get("tokens_used").is_some());
    assert!(val.get("token_budget").is_some());
    assert!(val.get("created_at").is_some());
    assert!(val["started_at"].is_string());
    assert!(val["completed_at"].is_null());
    assert!(val.get("api_key_id").is_none());
    assert!(val.get("system_prompt").is_none());
}

#[test]
fn session_detail_serializes_extra_fields() {
    let val = session_detail().to_json();
    assert_eq!(val["pid"], 1234);
    assert_eq!(val["exit_code"], 1);
    assert!(val["failed_at"].is_string());
    assert_eq!(val["failure_reason"], "OOM");
    assert!(val.get("api_key_id").is_none());
    assert!(val.get("system_prompt").is_none());
}

#[test]
fn list_sessions_response_wraps_sessions_array() {
    let val = ListSessionsResponse { sessions: vec![] }.to_json();
    assert!(val["sessions"].is_array());
}

#[test]
fn sessions_are_listed_and_shown_within_the_tenant() {
    match list_sessions(&signed_in(), None) {
        ListSessionsAction::Query { tenant_id, limit } => {
            assert_eq!(tenant_id, TENANT);
            assert_eq!(limit, 100);
        }
        other => panic!("{other:?}"),
    }
    match list_sessions(&signed_in(), Some(vec![session_item()])) {
        ListSessionsAction::Answer(r) => assert_eq!(r.to_json()["sessions"][0]["status"], "running"),
        other => panic!("{other:?}"),
    }
    let id = Uuid { bits: 5 };
    assert!(matches!(get_session(&signed_in(), id, None), GetSessionAction::FindSession { .. }));
    assert!(matches!(get_session(&signed_in(), id, Some(None)), GetSessionAction::Refuse(AppError::NotFound)));
    let own = SessionDetailRow { tenant_id: TENANT, detail: session_detail() };
    assert!(matches!(get_session(&signed_in(), id, Some(Some(own))), GetSessionAction::Answer(_)));
    let foreign = SessionDetailRow { tenant_id: Uuid { bits: 1 }, detail: session_detail() };
    assert!(matches!(get_session(&signed_in(), id, Some(Some(foreign))), GetSessionAction::Refuse(_)));
}

// ── Creating sessions ─────────────────────────────────────────────────────

#[test]
fn initial_message_max_bytes_is_64kib() {
    assert_eq!(INITIAL_MESSAGE_MAX_BYTES, 65_536);
}

fn request(runtime: &str, prompt: String, path: Option<&str>) -> CreateSessionRequest {
    CreateSessionRequest {
        runtime: runtime.to_owned(),
        initial_prompt: prompt,
        workspace_path: path.map(str::to_owned),
    }
}

fn refused(action: CreateAction) -> (AppError, bool) {
    match action {
        CreateAction::Refuse { error, undo } => (error, undo.release_tenant_slot),
        other => panic!("{other:?}"),
    }
}

fn stored(req: &CreateSessionRequest) -> NewAgentSession {
    match create_session(&signed_in(), req, CreateProgress::ProcessSlot(true)) {
        CreateAction::Store(row) => row,
        other => panic!("{other:?}"),
    }
}

#[test]
fn a_session_is_created_step_by_step() {
    let req = request("pi", "do it".to_owned(), None);
    let auth = signed_in();
    let step = |p| create_session(&auth, &req, p);
    assert!(matches!(step(CreateProgress::Begin), CreateAction::CheckRate { tenant_id } if tenant_id == TENANT));
    assert!(matches!(step(CreateProgress::RateChecked(None)), CreateAction::TakeTenantSlot { .. }));
    assert!(matches!(step(CreateProgress::TenantSlot(true)), CreateAction::TakeProcessSlot));
    let row = stored(&req);
    assert_eq!(row.preview, "do it");
    assert_eq!(row.api_key_scope, "agent");
    assert_eq!(row.api_key_name, format!("agent-session-{}", row.session_id.to_text()));
    assert_eq!(row.workspace_rel, format!("{}/{}", TENANT.to_text(), row.session_id.to_text()));
    let id = row.session_id;
    let action = step(CreateProgress::Stored(Some(StoredSession { row, api_key: "k".to_owned() })));
    let row = match action {
        CreateAction::Publish { message, row } => {
            assert_eq!((message.topic, message.tenant_id), ("rb.agent.commands", TENANT));
            assert_eq!(message.key, row.session_id.to_bytes());
            let command = message.command;
            assert_eq!(command.session_id, id.to_text());
            assert!(matches!(
                command.command,
                AgentCommand::Start { runtime: AgentRuntime::Pi, api_key, .. } if api_key == "k"
            ));
            row
        }
        other => panic!("{other:?}"),
    };
    match step(CreateProgress::Published(row, Published::Done)) {
        CreateAction::Accept { response, token_budget, .. } => {
            assert_eq!(response.session_id, id);
            assert_eq!(response.status, "pending");
            assert_eq!(token_budget, 100_000);
        }
        other => panic!("{other:?}"),
    }
}

#[test]
fn refusals_while_creating_a_session() {
    let good = || request("pi", "do it".to_owned(), None);
    let run = |req: CreateSessionRequest, p| refused(create_session(&signed_in(), &req, p));
    assert_eq!(
        run(good(), CreateProgress::RateChecked(Some(9))),
        (AppError::SessionRateLimitExceeded { retry_after_secs: 9 }, false)
    );
    assert_eq!(run(good(), CreateProgress::TenantSlot(false)), (AppError::TenantSessionCapExceeded, false));
    assert_eq!(run(good(), CreateProgress::ProcessSlot(false)), (AppError::SessionCapExceeded, true));
    assert_eq!(run(good(), CreateProgress::Stored(None)), (AppError::Internal, false));
    let unknown = request("vim", "do it".to_owned(), None);
    assert_eq!(run(unknown, CreateProgress::TenantSlot(true)), (AppError::InvalidInput, false));
    let long = request("pi", "x".repeat(65_537), None);
    assert_eq!(run(long, CreateProgress::TenantSlot(true)), (AppError::InvalidInput, true));
    let escaping = request("pi", "do it".to_owned(), Some("../x"));
    assert_eq!(run(escaping, CreateProgress::TenantSlot(true)), (AppError::InvalidInput, true));
    let anonymous = create_session(&AuthContext::Anonymous, &good(), CreateProgress::Begin);
    assert_eq!(refused(anonymous), (AppError::Unauthorized, false));
    let reader = create_session(&key(vec![Scope::Read]), &good(), CreateProgress::Begin);
    assert_eq!(refused(reader).0, AppError::InsufficientScope);
}

#[test]
fn a_session_that_cannot_start_is_taken_back() {
    let req = request("pi", "do it".to_owned(), Some("a/b"));
    let row = stored(&req);
    assert_eq!(row.workspace_rel, "a/b");
    let ids = (row.session_id, row.api_key_id);
    match create_session(&signed_in(), &req, CreateProgress::Published(row, Published::Failed)) {
        CreateAction::Refuse { error, undo } => {
            assert_eq!(error, AppError::Internal);
            assert!(undo.release_tenant_slot);
            assert_eq!(undo.delete_rows, Some(ids));
        }
        other => panic!("{other:?}"),
    }
    let row = stored(&req);
    let id = row.session_id;
    match create_session(&signed_in(), &req, CreateProgress::Published(row, Published::NoProducer)) {
        CreateAction::Refuse { error, undo } => {
            assert_eq!(error, AppError::KafkaNotConfigured);
            assert_eq!(undo.forget, Some(id));
            assert_eq!(undo.delete_rows, None);
        }
        other => panic!("{other:?}"),
    }
}

#[test]
fn sessions_end_by_their_status() {
    let id = Uuid { bits: 5 };
    let ending = |status: &str, has_pid, tenant_id| {
        let row = EndingSession { tenant_id, status: status.to_owned(), has_pid, has_started: false };
        delete_session(&signed_in(), id, DeleteProgress::Found(Some(row)))
    };
    assert!(matches!(delete_session(&signed_in(), id, DeleteProgress::Begin), DeleteAction::FindSession { .. }));
    assert!(matches!(
        delete_session(&signed_in(), id, DeleteProgress::Found(None)),
        DeleteAction::Refuse(AppError::NotFound)
    ));
    assert!(matches!(ending("running", true, Uuid { bits: 1 }), DeleteAction::Refuse(AppError::InsufficientRole)));
    assert!(matches!(
        ending("completed", true, TENANT),
        DeleteAction::Accept { id: Uuid { bits: 5 }, forget: true, revoke_key: false }
    ));
    assert!(matches!(ending("pending", false, TENANT), DeleteAction::Cancel { id: Uuid { bits: 5 } }));
    match ending("pending", true, TENANT) {
        DeleteAction::Publish(m) => {
            assert_eq!((m.topic, m.tenant_id), ("rb.agent.commands", TENANT));
            assert_eq!(m.key, [0, 0, 0, 0, 0, 0, 0, 0, 0, 0, 0, 0, 0, 0, 0, 5]);
            assert_eq!(m.command.session_id, id.to_text());
            assert!(matches!(m.command.command, AgentCommand::Terminate { force: false, reason: "user requested" }));
        }
        other => panic!("{other:?}"),
    }
    assert!(matches!(
        delete_session(&signed_in(), id, DeleteProgress::Cancelled(true)),
        DeleteAction::Accept { forget: true, revoke_key: true, .. }
    ));
    assert!(matches!(
        delete_session(&signed_in(), id, DeleteProgress::Published(Published::NoProducer)),
        DeleteAction::Refuse(AppError::KafkaNotConfigured)
    ));
}

#[test]
fn session_keys_are_revoked() {
    assert!(matches!(delete_session_api_key(None), RevokeAction::Refuse(AppError::NotFound)));
    assert!(matches!(delete_session_api_key(Some(None)), RevokeAction::Gone));
    assert!(matches!(
        delete_session_api_key(Some(Some(USER))),
        RevokeAction::Revoke { api_key_id } if api_key_id == USER
    ));
}

// ── Status reports ────────────────────────────────────────────────────────

#[test]
fn lifecycle_event_type_running() {
    assert_eq!(lifecycle_event_type("running"), Some("session.running"));
}

#[test]
fn lifecycle_event_type_failed() {
    assert_eq!(lifecycle_event_type("failed"), Some("session.failed"));
}

#[test]
fn lifecycle_event_type_terminated_maps_to_completed() {
    assert_eq!(lifecycle_event_type("terminated"), Some("session.completed"));
}

#[test]
fn lifecycle_event_type_other_statuses_return_none() {
    for s in ["cancelled", "terminating", "pending", "unknown"] {
        assert_eq!(lifecycle_event_type(s), None, "expected None for status '{s}'");
    }
}

#[test]
fn lifecycle_event_seq_failed_matches_runner_error_sentinel() {
    assert_eq!(lifecycle_event_seq("failed"), i64::MIN + 1);
}

#[test]
fn lifecycle_event_seq_terminated_matches_runner_terminated_sentinel() {
    assert_eq!(lifecycle_event_seq("terminated"), i64::MIN + 2);
}

#[test]
fn lifecycle_event_seq_running_is_zero() {
    assert_eq!(lifecycle_event_seq("running"), 0);
}

#[test]
fn lifecycle_event_seq_sentinels_are_distinct() {
    assert_ne!(lifecycle_event_seq("failed"), lifecycle_event_seq("terminated"));
    assert_ne!(lifecycle_event_seq("failed"), lifecycle_event_seq("running"));
    assert_ne!(lifecycle_event_seq("terminated"), lifecycle_event_seq("running"));
}

fn report(status: &str) -> PatchSessionStatusRequest {
    PatchSessionStatusRequest {
        status: status.to_owned(),
        pid: None,
        exit_code: None,
        error: None,
        tenant_id: TENANT,
    }
}

#[test]
fn lifecycle_event_payload_running_includes_pid() {
    let mut req = report("running");
    req.pid = Some(12345);
    assert_eq!(lifecycle_event_payload(&req)["pid"], 12345);
}

#[test]
fn lifecycle_event_payload_failed_includes_failure_reason() {
    let mut req = report("failed");
    req.error = Some("spawn failed: no such file".to_string());
    assert_eq!(lifecycle_event_payload(&req)["failure_reason"], "spawn failed: no such file");
}

#[test]
fn lifecycle_event_payload_failed_null_reason_when_no_error() {
    let p = lifecycle_event_payload(&report("failed"));
    assert!(p["failure_reason"].is_null());
}

#[test]
fn lifecycle_event_payload_terminated_includes_exit_code() {
    let mut req = report("terminated");
    req.exit_code = Some(0);
    assert_eq!(lifecycle_event_payload(&req)["exit_code"], 0);
}

#[test]
fn lifecycle_event_payload_terminated_nonzero_exit_code() {
    let mut req = report("terminated");
    req.exit_code = Some(1);
    assert_eq!(lifecycle_event_payload(&req)["exit_code"], 1);
}

#[test]
fn a_report_that_changed_the_session_leaves_an_event() {
    let id = Uuid { bits: 6 };
    let step = |status: &str, p| patch_session_status(id, &report(status), p);
    assert!(matches!(step("odd", PatchProgress::Begin), PatchAction::Refuse(AppError::InvalidInput)));
    assert!(matches!(step("failed", PatchProgress::Begin), PatchAction::FindAgentSession { .. }));
    assert!(matches!(
        step("failed", PatchProgress::AgentSession(Some(TENANT))),
        PatchAction::UpdateAgentSession { tenant_id: TENANT, failed: true, .. }
    ));
    assert!(matches!(
        step("failed", PatchProgress::AgentSession(Some(USER))),
        PatchAction::Refuse(AppError::Unauthorized)
    ));
    match step("terminated", PatchProgress::AgentUpdated(Some(true))) {
        PatchAction::Finish { id: ended, tenant_id, retire, keep, event } => {
            assert_eq!((ended, tenant_id), (id, TENANT));
            assert!(retire && keep);
            let event = event.expect("an event");
            assert_eq!(event.event_type, "session.completed");
            assert_eq!(event.sequence, i64::MIN + 2);
            let data: Value = serde_json::from_str(&event.data).unwrap();
            assert_eq!(data["session_id"], id.to_text().as_str());
            assert_eq!(data["event_type"], "session.completed");
            assert_eq!(data["sequence"], i64::MIN + 2);
        }
        other => panic!("{other:?}"),
    }
    assert!(matches!(
        step("terminated", PatchProgress::AgentUpdated(Some(false))),
        PatchAction::Finish { retire: false, keep: false, event: None, .. }
    ));
    assert!(matches!(step("failed", PatchProgress::AgentUpdated(None)), PatchAction::Refuse(AppError::Internal)));
}

#[test]
fn reports_on_chat_sessions_end_them() {
    let id = Uuid { bits: 6 };
    let step = |status: &str, p| patch_session_status(id, &report(status), p);
    assert!(matches!(step("terminated", PatchProgress::AgentSession(None)), PatchAction::FindChatSession { .. }));
    assert!(matches!(
        step("terminated", PatchProgress::ChatSession(Some(TENANT))),
        PatchAction::UpdateChatSession { id: Uuid { bits: 6 }, tenant_id: TENANT, status: "ended" }
    ));
    assert!(matches!(
        step("failed", PatchProgress::ChatSession(Some(TENANT))),
        PatchAction::UpdateChatSession { status: "failed", .. }
    ));
    assert!(matches!(
        step("running", PatchProgress::ChatSession(Some(TENANT))),
        PatchAction::Finish { retire: false, keep: false, event: Some(_), .. }
    ));
    assert!(matches!(step("running", PatchProgress::ChatSession(None)), PatchAction::Refuse(AppError::NotFound)));
}

// ── Taking events in ──────────────────────────────────────────────────────

fn check_event_types() {
    assert_eq!(event_type(&RuntimeEvent::Text { text: "hi".into() }), "session.message");
    assert_eq!(event_type(&RuntimeEvent::Thinking { thinking: "...".into() }), "session.thinking");
    assert_eq!(
        event_type(&RuntimeEvent::ToolUse { id: "t".into(), name: "bash".into(), input: empty_object() }),
        "session.tool_call"
    );
    assert_eq!(
        event_type(&RuntimeEvent::ToolResult { tool_use_id: "t".into(), content: Value::Null, is_error: false }),
        "session.tool_result"
    );
    assert_eq!(event_type(&RuntimeEvent::Error { message: "oops".into(), code: None }), "session.error");
    assert_eq!(event_type(&RuntimeEvent::UserInput { text: "hello".into() }), "session.user_input");
}

#[test]
fn events_ingest_event_type_mapping_covers_all_variants() {
    check_event_types();
}

#[test]
fn events_ingest_tests_event_type_mapping_covers_all_variants() {
    check_event_types();
    assert_eq!(
        event_type(&RuntimeEvent::TurnComplete { stop_reason: "success".into() }),
        "session.turn_complete"
    );
}

#[test]
fn events_ingest_ingest_response_serializes() {
    assert_eq!(IngestEventsResponse { inserted: 5 }.to_json()["inserted"], 5);
}

#[test]
fn events_ingest_tests_ingest_response_serializes() {
    assert_eq!(IngestEventsResponse { inserted: 5 }.to_json()["inserted"], 5);
}

fn text(s: &str) -> IngestItem {
    IngestItem {
        event: RuntimeEvent::Text { text: s.to_owned() },
        payload: Some(format!("{{\"type\":\"text\",\"text\":\"{s}\"}}")),
    }
}

fn user(s: &str) -> IngestItem {
    IngestItem { event: RuntimeEvent::UserInput { text: s.to_owned() }, payload: None }
}

fn turn_complete() -> IngestItem {
    IngestItem { event: RuntimeEvent::TurnComplete { stop_reason: "end_turn".to_owned() }, payload: None }
}

fn batch(events: Vec<IngestItem>, turn_ids: Vec<Option<Uuid>>) -> IngestEventsRequest {
    IngestEventsRequest { tenant_id: TENANT, events, turn_ids }
}

#[test]
fn turns_are_unknown_beyond_the_list() {
    let tid = Uuid::parse("11111111-1111-1111-1111-111111111111").unwrap();
    let req = batch(vec![text("a"), text("b")], vec![None, Some(tid)]);
    assert_eq!(req.turn_id(0), None);
    assert_eq!(req.turn_id(1), Some(tid));
    assert_eq!(req.turn_id(2), None);
    assert_eq!(batch(vec![text("a")], vec![]).turn_id(0), None);
}

fn bodies(effects: &[ChatEffect]) -> Vec<Value> {
    effects
        .iter()
        .filter_map(|e| match e {
            ChatEffect::Persist { role: "assistant", body, .. } => Some(serde_json::from_str(body).unwrap()),
            ChatEffect::Persist { role, .. } => panic!("{role}"),
            ChatEffect::Publish { .. } => None,
        })
        .collect()
}

#[test]
fn text_of_a_turn_becomes_one_block_of_one_message() {
    let tool = IngestItem {
        event: RuntimeEvent::ToolUse { id: "t1".into(), name: "bash".into(), input: empty_object() },
        payload: None,
    };
    let events = vec![text("Hel"), text("lo"), tool, text("done"), turn_complete(), text("next")];
    let effects = ingest_chat_session_events(Uuid { bits: 9 }, &events);
    assert_eq!(effects.iter().filter(|e| matches!(e, ChatEffect::Publish { .. })).count(), 6);
    let kept = bodies(&effects);
    assert_eq!(kept.len(), 2);
    assert_eq!(kept[0].as_array().unwrap().len(), 3);
    assert_eq!(kept[0][0]["text"], "Hello");
    assert_eq!(kept[0][1]["type"], "tool_use");
    assert_eq!(kept[0][1]["name"], "bash");
    assert_eq!(kept[0][2]["text"], "done");
    assert_eq!(kept[1][0]["text"], "next");
}

#[test]
fn a_turn_without_words_leaves_no_message() {
    let error = IngestItem { event: RuntimeEvent::Error { message: "x".into(), code: None }, payload: None };
    let events = vec![user("hi"), error, turn_complete()];
    assert!(bodies(&ingest_chat_session_events(Uuid { bits: 9 }, &events)).is_empty());
}

#[test]
fn chat_events_are_published_in_order() {
    let effects = ingest_chat_session_events(Uuid { bits: 9 }, &vec![text("a"), user("b")]);
    let data: Vec<Value> = effects
        .iter()
        .filter_map(|e| match e {
            ChatEffect::Publish { data } => Some(serde_json::from_str(data).unwrap()),
            ChatEffect::Persist { .. } => None,
        })
        .collect();
    assert_eq!(data[0]["sequence"], 1);
    assert_eq!(data[0]["payload"]["text"], "a");
    assert_eq!(data[1]["sequence"], 2);
    assert!(data[1]["payload"].is_null());
    assert!(matches!(effects[0], ChatEffect::Publish { .. }));
}

#[test]
fn batches_go_to_the_session_they_are_for() {
    let id = Uuid { bits: 9 };
    let step = |events: Vec<IngestItem>, p| ingest_session_events(id, &batch(events, vec![]), p);
    assert!(matches!(
        step(vec![], IngestProgress::Begin),
        IngestAction::Answer(IngestEventsResponse { inserted: 0 })
    ));
    assert!(matches!(step(vec![text("a")], IngestProgress::Begin), IngestAction::FindAgentSession { id: Uuid { bits: 9 } }));
    assert!(matches!(
        step(vec![text("a")], IngestProgress::AgentSession(Some(USER))),
        IngestAction::Refuse(AppError::Unauthorized)
    ));
    match step(vec![text("a"), text("b")], IngestProgress::AgentSession(Some(TENANT))) {
        IngestAction::BulkInsert { session_id, tenant_id, event_types, payloads } => {
            assert_eq!((session_id, tenant_id), (id, TENANT));
            assert_eq!(event_types, vec!["session.message", "session.message"]);
            assert!(payloads[1].contains("\"b\""));
        }
        other => panic!("{other:?}"),
    }
    assert!(matches!(
        step(vec![user("a")], IngestProgress::AgentSession(Some(TENANT))),
        IngestAction::Refuse(AppError::Internal)
    ));
    match step(vec![text("a"), text("b")], IngestProgress::Inserted(vec![7, 8])) {
        IngestAction::Publish { frames, response, .. } => {
            assert_eq!(response.inserted, 2);
            let second: Value = serde_json::from_str(&frames[1]).unwrap();
            assert_eq!(second["sequence"], 8);
            assert_eq!(second["payload"]["text"], "b");
        }
        other => panic!("{other:?}"),
    }
    assert!(matches!(
        step(vec![text("a")], IngestProgress::ChatSession(None)),
        IngestAction::Refuse(AppError::NotFound)
    ));
    match step(vec![text("a")], IngestProgress::ChatSession(Some(TENANT))) {
        IngestAction::Chat { session_id, tenant_id, effects, response } => {
            assert_eq!((session_id, tenant_id), (id, TENANT));
            assert_eq!(response.inserted, 1);
            assert_eq!(bodies(&effects).len(), 1);
        }
        other => panic!("{other:?}"),
    }
}
