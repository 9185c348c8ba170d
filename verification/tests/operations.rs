use control_api::agent_sessions::create as older_create;
use control_api::agent_sessions::delete as older_delete;
use control_api::agent_sessions::events as older_events;
use control_api::agent_sessions::get as older_get;
use control_api::agents::session_lifecycle::AgentRuntime;
use control_api::agents::sessions::Published;
use control_api::caller::{require_read, require_session, ApiKeyInfo, AuthContext, Scope, SessionInfo};
use control_api::clock::{Moment, Timestamp};
use control_api::error::AppError;
use control_api::health::{
    age_between, age_from_ms, build_info, check_admin, check_kafka_liveness, consistency, consistency_check,
    derive_status, health_check, neo4j_address, qdrant_health_url, ready_check, version, AdminCheck, ConsistencyAction,
    ConsistencyResponse, StoreStatus,
};
use control_api::ids::Uuid;
use control_api::ingest::recent::{
    list_recent_runs, RecentAction, RecentQuery, RecentRunItem,
};
use control_api::ingest::stages::{
    get_stage_timeline, RunRow, StageRunItem, StagesAction, StagesProgress,
};

const USER: Uuid = Uuid { bits: 11 };
const TENANT: Uuid = Uuid { bits: 22 };

fn session(email_verified: bool) -> AuthContext {
    AuthContext::Session(SessionInfo {
        session_id: Uuid { bits: 33 },
        user_id: USER,
        tenant_id: TENANT,
        email_verified,
    })
}

fn key(scopes: Vec<Scope>) -> AuthContext {
    AuthContext::ApiKey(ApiKeyInfo { key_id: Uuid { bits: 44 }, tenant_id: TENANT, user_id: USER, scopes })
}

// ── Health ────────────────────────────────────────────────────────────────

#[test]
fn derive_status_never_received_is_stale() {
    assert_eq!(derive_status(0, i64::MAX), "stale");
}

#[test]
fn derive_status_fresh_is_healthy() {
    assert_eq!(derive_status(1, 5), "healthy");
}

#[test]
fn derive_status_30s_boundary_is_degraded() {
    assert_eq!(derive_status(1, 30), "degraded");
}

#[test]
fn derive_status_301s_is_stale() {
    assert_eq!(derive_status(1, 301), "stale");
    assert_eq!(derive_status(1, 300), "degraded");
}

#[test]
fn age_from_ms_zero_is_max() {
    assert_eq!(age_from_ms(0), i64::MAX);
}

#[test]
fn age_from_ms_recent_is_small() {
    let now_ms = chrono::Utc::now().timestamp_millis();
    let age = age_from_ms(now_ms - 5000);
    assert!(age <= 6, "age should be ~5s, got {age}");
    assert!(age >= 5);
}

#[test]
fn kafka_liveness_never_seen_is_unknown() {
    let last_ms: i64 = 0;
    let age_secs = age_from_ms(last_ms);
    assert_eq!(check_kafka_liveness(last_ms, age_secs).name(), "unknown");
}

#[test]
fn kafka_liveness_fresh_event_is_ok() {
    let last_ms = chrono::Utc::now().timestamp_millis() - 1000;
    let age_secs = age_from_ms(last_ms);
    assert_eq!(check_kafka_liveness(last_ms, age_secs).name(), "ok");
}

#[test]
fn kafka_liveness_stale_event_is_error() {
    let last_ms = chrono::Utc::now().timestamp_millis() - 400_000;
    let age_secs = age_from_ms(last_ms);
    assert_eq!(check_kafka_liveness(last_ms, age_secs).name(), "error");
}

#[test]
fn ages_are_whole_seconds_and_never_negative() {
    assert_eq!(age_between(10_999, 1_000), 9);
    assert_eq!(age_between(1_000, 5_000), 0);
    assert_eq!(age_between(1_000, 0), i64::MAX);
}

#[test]
fn health_needs_the_database_and_no_failing_store() {
    let ok = StoreStatus::Reachable;
    let bad = StoreStatus::Unreachable;
    let unknown = StoreStatus::Unknown;
    assert_eq!(health_check(ok, ok, ok, ok).status, "ok");
    assert_eq!(health_check(ok, unknown, unknown, unknown).status, "ok");
    assert_eq!(health_check(ok, bad, ok, ok).status, "degraded");
    assert_eq!(health_check(ok, ok, bad, ok).status, "degraded");
    assert_eq!(health_check(ok, ok, ok, bad).status, "degraded");
    assert_eq!(health_check(bad, ok, ok, ok).status, "degraded");
    let r = health_check(bad, ok, unknown, ok);
    assert_eq!((r.stores.postgres, r.stores.neo4j, r.stores.qdrant, r.stores.kafka), ("error", "ok", "unknown", "ok"));
}

#[test]
fn probe_addresses() {
    assert_eq!(neo4j_address("bolt://db"), "db:7687");
    assert_eq!(neo4j_address("bolt://db:1234//"), "db:1234");
    assert_eq!(neo4j_address("db/"), "db:7687");
    assert_eq!(neo4j_address("bolt:/x"), "bolt:/x");
    assert_eq!(qdrant_health_url("http://q:6333//"), "http://q:6333/healthz");
    assert_eq!(qdrant_health_url(""), "/healthz");
}

#[test]
fn build_identity() {
    let v = version(Some("abc".to_owned()), None);
    assert_eq!(v.git_sha, "abc");
    assert_eq!(v.built_at, "unknown");
    assert_eq!(build_info("s", "t", "false").dirty, "false");
    assert_eq!(ready_check().status, "ok");
}

fn asked(last_ms: i64, lag: u64) -> ConsistencyResponse {
    match consistency_check(&key(vec![Scope::Admin]), None, last_ms, lag) {
        ConsistencyAction::Answer(r) => r,
        other => panic!("{other:?}"),
    }
}

#[test]
fn the_consistency_is_for_admins() {
    assert!(matches!(
        consistency_check(&session(true), None, 0, 0),
        ConsistencyAction::FindRole { tenant_id: TENANT, .. }
    ));
    assert!(matches!(
        consistency_check(&session(true), Some(Some("admin".to_owned())), 0, 7),
        ConsistencyAction::Answer(r) if r.stores.kafka.lag_messages == 7
    ));
    assert!(matches!(
        consistency_check(&session(true), Some(Some("member".to_owned())), 0, 0),
        ConsistencyAction::Refuse(AppError::InsufficientRole)
    ));
    assert!(matches!(
        consistency_check(&key(vec![Scope::Read]), None, 0, 0),
        ConsistencyAction::Refuse(AppError::InsufficientScope)
    ));
}

#[test]
fn consistency_tells_the_last_event() {
    let at = Moment { seconds: 40, nanos: 123_456_789 };
    assert_eq!(at.to_milliseconds(), 40_123);
    let r = consistency(at, 5_000, 3);
    assert_eq!(r.checked_at, at);
    assert_eq!(r.stores.kafka.lag_messages, 3);
    assert_eq!(r.stores.kafka.last_event_at, Some(Timestamp { micros: 5_000_000 }));
    assert_eq!(r.stores.kafka.status, "degraded");
    let before = chrono::Utc::now().timestamp_nanos_opt().unwrap();
    let shown = asked(0, 0).checked_at;
    let after = chrono::Utc::now().timestamp_nanos_opt().unwrap();
    let shown = shown.seconds * 1_000_000_000 + shown.nanos as i64;
    assert!(before <= shown && shown <= after);
    let r = asked(0, 0);
    assert_eq!(r.stores.kafka.last_event_at, None);
    assert_eq!(r.stores.kafka.status, "stale");
    assert_eq!(consistency(Moment { seconds: 0, nanos: 1_000_000 }, i64::MAX, 0).stores.kafka.last_event_at, None);
}

#[test]
fn operational_data_is_for_admins() {
    assert!(matches!(check_admin(&key(vec![Scope::Admin]), None), AdminCheck::Allow));
    assert!(matches!(
        check_admin(&key(vec![Scope::Read]), None),
        AdminCheck::Refuse(AppError::InsufficientScope)
    ));
    assert!(matches!(check_admin(&session(true), None), AdminCheck::FindRole { .. }));
    assert!(matches!(check_admin(&session(true), Some(None)), AdminCheck::Refuse(AppError::NotAMember)));
    for role in ["owner", "admin"] {
        assert!(matches!(check_admin(&session(true), Some(Some(role.to_owned()))), AdminCheck::Allow));
    }
    assert!(matches!(
        check_admin(&session(true), Some(Some("member".to_owned()))),
        AdminCheck::Refuse(AppError::InsufficientRole)
    ));
    assert!(matches!(
        check_admin(&session(false), None),
        AdminCheck::Refuse(AppError::EmailNotVerified)
    ));
}

// ── Ingestion runs ────────────────────────────────────────────────────────

#[test]
fn recent_verified_session_returns_tenant_id() {
    let result = require_read(&session(true));
    assert!(result.is_ok());
    assert_eq!(result.unwrap(), TENANT);
}

#[test]
fn recent_unverified_session_rejected() {
    assert!(matches!(require_read(&session(false)), Err(AppError::EmailNotVerified)));
}

#[test]
fn recent_anonymous_rejected() {
    assert!(matches!(require_read(&AuthContext::Anonymous), Err(AppError::Unauthorized)));
}

#[test]
fn read_api_key_accepted() {
    assert!(require_read(&key(vec![Scope::Read])).is_ok());
}

#[test]
fn keys_without_read_are_rejected() {
    assert!(matches!(require_read(&key(vec![Scope::Write, Scope::Agent])), Err(AppError::InsufficientScope)));
}

#[test]
fn limit_clamped() {
    assert_eq!(RecentQuery { limit: Some(0) }.effective_limit(), 1);
    assert_eq!(RecentQuery { limit: Some(200) }.effective_limit(), 100);
    assert_eq!(RecentQuery { limit: None }.effective_limit(), 50);
}

fn run() -> RecentRunItem {
    RecentRunItem {
        id: Uuid::new_v4(),
        repo_id: Uuid::new_v4(),
        status: "succeeded".to_owned(),
        started_at: None,
        finished_at: None,
        trace_id: Some("abcdef0123456789abcdef0123456789".to_owned()),
        created_at: Timestamp { micros: 1_500_000 },
    }
}

#[test]
fn recent_run_item_serialises() {
    let val = run().to_json();
    assert_eq!(val["status"], "succeeded");
    assert!(val["trace_id"].is_string());
    assert_eq!(val["created_at"], "1970-01-01T00:00:01.500Z");
}

#[test]
fn recent_runs_are_those_of_the_tenant() {
    match list_recent_runs(&session(true), &RecentQuery { limit: Some(7) }, None) {
        RecentAction::Query { tenant_id, limit } => assert_eq!((tenant_id, limit), (TENANT, 7)),
        other => panic!("{other:?}"),
    }
    match list_recent_runs(&session(true), &RecentQuery { limit: None }, Some(vec![run()])) {
        RecentAction::Answer(r) => assert_eq!(r.runs.len(), 1),
        other => panic!("{other:?}"),
    }
    assert!(matches!(
        list_recent_runs(&AuthContext::ExpiredSession, &RecentQuery { limit: None }, None),
        RecentAction::Refuse(AppError::SessionExpired)
    ));
}

#[test]
fn verified_session_accepted() {
    assert!(require_read(&session(true)).is_ok());
}

#[test]
fn stages_anonymous_rejected() {
    assert!(matches!(require_read(&AuthContext::Anonymous), Err(AppError::Unauthorized)));
}

#[test]
fn read_key_accepted() {
    assert!(require_read(&key(vec![Scope::Read])).is_ok());
}

fn stage() -> StageRunItem {
    StageRunItem {
        stage: "clone".to_owned(),
        status: "succeeded".to_owned(),
        started_at: Some(Timestamp { micros: 0 }),
        finished_at: None,
        error_message: None,
    }
}

#[test]
fn stage_run_item_serialises() {
    let val = stage().to_json();
    assert_eq!(val["stage"], "clone");
    assert!(val["error_message"].is_null());
    assert!(val["started_at"].is_string());
}

#[test]
fn a_timeline_is_shown_for_runs_of_the_tenant() {
    let id = Uuid { bits: 4 };
    let step = |p| get_stage_timeline(&session(true), id, p);
    assert!(matches!(step(StagesProgress::Begin), StagesAction::FindRun { tenant_id, .. } if tenant_id == TENANT));
    assert!(matches!(step(StagesProgress::Found(None)), StagesAction::Refuse(AppError::NotFound)));
    assert!(matches!(
        step(StagesProgress::Found(Some(RunRow { trace_id: None }))),
        StagesAction::ListStages { .. }
    ));
    match step(StagesProgress::Listed(RunRow { trace_id: Some("t".to_owned()) }, vec![stage()])) {
        StagesAction::Answer(r) => {
            assert_eq!(r.ingestion_run_id, id);
            assert_eq!(r.trace_id.as_deref(), Some("t"));
            assert_eq!(r.stages.len(), 1);
        }
        other => panic!("{other:?}"),
    }
}

// ── Sessions of the signed-in user ────────────────────────────────────────

#[test]
fn any_session_will_do() {
    assert_eq!(require_session(&session(false)).unwrap().user_id, USER);
    assert!(matches!(require_session(&key(vec![Scope::Admin])), Err(AppError::Unauthorized)));
    assert!(matches!(require_session(&AuthContext::ExpiredSession), Err(AppError::SessionExpired)));
}

#[test]
fn runtimes_in_any_case() {
    assert_eq!(older_create::parse_runtime("Claude_Code"), Ok(AgentRuntime::ClaudeCode));
    let first_word = "CLAUDE_CODE".split('_').next().unwrap();
    assert_eq!(first_word.len(), 6);
    assert_eq!(older_create::parse_runtime(first_word), Ok(AgentRuntime::ClaudeCode));
    assert_eq!(older_create::parse_runtime("code"), Err(AppError::InvalidInput));
    assert_eq!(older_create::parse_runtime("OpenCode"), Ok(AgentRuntime::Opencode));
    assert_eq!(older_create::parse_runtime("pi"), Ok(AgentRuntime::Pi));
    assert_eq!(older_create::parse_runtime("vim"), Err(AppError::InvalidInput));
}

#[test]
fn prompts_are_cut_at_1000_bytes() {
    assert_eq!(older_create::cut_prompt("short"), "short");
    assert_eq!(older_create::cut_prompt(&"x".repeat(1001)), "x".repeat(1000));
    assert_eq!(older_create::cut_prompt(&"é".repeat(501)), "é".repeat(500));
    assert_eq!(older_create::cut_prompt(&"x".repeat(1000)).len(), 1000);
}

#[test]
fn trace_contexts() {
    let s = older_create::traceparent(
        &Uuid { bits: 0xab },
        &Uuid { bits: 0x0123_4567_89ab_cdef_fedc_ba98_7654_3210 },
    );
    assert_eq!(s, "00-000000000000000000000000000000ab-fedcba9876543210-01");
}

#[test]
fn a_session_is_inserted_published_and_committed() {
    let req = older_create::CreateSessionRequest { runtime: "Claude_Code".to_owned(), input_prompt: "hi".to_owned() };
    let auth = session(true);
    let step = |p| older_create::create_session(&auth, &req, p);
    assert!(matches!(step(older_create::CreateProgress::Begin), older_create::CreateAction::TakeSlot));
    assert!(matches!(
        step(older_create::CreateProgress::Slot(false)),
        older_create::CreateAction::Refuse(AppError::SessionCapExceeded)
    ));
    let row = match step(older_create::CreateProgress::Slot(true)) {
        older_create::CreateAction::Insert(row) => row,
        other => panic!("{other:?}"),
    };
    assert_eq!(row.runtime, "claudecode");
    assert_eq!(row.status, "pending");
    assert_eq!(row.workspace_path, format!("/data/workspaces/{}/{}", TENANT.to_text(), row.id.to_text()));
    let id = row.id;
    let (command, row) = match step(older_create::CreateProgress::Inserted(row)) {
        older_create::CreateAction::Publish(command, row) => (command, row),
        other => panic!("{other:?}"),
    };
    assert_eq!(command.topic, "rb.agent.commands");
    assert_eq!(command.key, id.to_text());
    assert_eq!(command.runtime, AgentRuntime::ClaudeCode);
    assert_eq!(command.traceparent, row.trace_id);
    assert!(command.api_key.starts_with(&format!("rb_session_{}_", TENANT.to_text())));
    match step(older_create::CreateProgress::Published(row, Published::Done)) {
        older_create::CreateAction::Finish(r) => {
            assert_eq!(r.session_id, id.to_text());
            assert_eq!(r.status, "pending");
        }
        other => panic!("{other:?}"),
    }
    let row = match step(older_create::CreateProgress::Slot(true)) {
        older_create::CreateAction::Insert(row) => row,
        other => panic!("{other:?}"),
    };
    assert!(matches!(
        step(older_create::CreateProgress::Published(row, Published::Failed)),
        older_create::CreateAction::Refuse(AppError::KafkaPublish)
    ));
}

#[test]
fn commands_carry_the_time_they_were_made_at() {
    let row = older_create::SessionRow {
        id: Uuid { bits: 9 },
        tenant_id: TENANT,
        created_by: Uuid { bits: 1 },
        runtime: "pi",
        input_prompt: "hi".to_owned(),
        workspace_path: "/w".to_owned(),
        status: "pending",
        trace_id: "trace".to_owned(),
    };
    let (event, secret) = (Uuid { bits: 3 }, Uuid { bits: 4 });
    let c = older_create::start_command(TENANT, AgentRuntime::Pi, &row, event, secret, 1234);
    assert_eq!((c.created_at_ms, c.event_id, c.session_id), (1234, event, row.id));
    assert_eq!(c.api_key, format!("rb_session_{}_{}", TENANT.to_text(), secret.to_text()));
    assert_eq!((c.input_prompt.as_str(), c.workspace_path.as_str(), c.traceparent.as_str()), ("hi", "/w", "trace"));
    let c = older_delete::terminate_command(TENANT, row.id, event, 1234);
    assert_eq!((c.created_at_ms, c.event_id, c.session_id, c.force), (1234, event, row.id, false));
    assert_eq!((c.topic, c.key), ("rb.agent.commands", row.id.to_text()));
}

#[test]
fn a_session_is_asked_to_end() {
    let id = Uuid { bits: 9 };
    let step = |p| older_delete::delete_session(&session(true), id, p);
    assert!(matches!(step(older_delete::DeleteProgress::Begin), older_delete::DeleteAction::Find { .. }));
    assert!(matches!(
        step(older_delete::DeleteProgress::Found(false)),
        older_delete::DeleteAction::Refuse(AppError::NotFound)
    ));
    match step(older_delete::DeleteProgress::Found(true)) {
        older_delete::DeleteAction::Publish(c) => {
            assert_eq!(c.key, id.to_text());
            assert!(!c.force);
        }
        other => panic!("{other:?}"),
    }
    assert!(matches!(
        step(older_delete::DeleteProgress::Published(Published::Done)),
        older_delete::DeleteAction::Accept
    ));
    assert!(matches!(
        step(older_delete::DeleteProgress::Published(Published::NoProducer)),
        older_delete::DeleteAction::Refuse(AppError::KafkaNotConfigured)
    ));
}

#[test]
fn a_session_is_shown_with_its_times() {
    let id = Uuid { bits: 9 };
    assert!(matches!(older_get::get_session(&session(true), id, None), older_get::GetAction::Find { .. }));
    assert!(matches!(
        older_get::get_session(&session(true), id, Some(None)),
        older_get::GetAction::Refuse(AppError::NotFound)
    ));
    let row = older_get::StoredSession {
        id,
        tenant_id: TENANT,
        runtime: "pi".to_owned(),
        input_prompt: "hi".to_owned(),
        workspace_path: "/w".to_owned(),
        status: "running".to_owned(),
        trace_id: None,
        created_at: Timestamp { micros: 1_000_001 },
        started_at: Some(Timestamp { micros: -1 }),
        ended_at: None,
    };
    match older_get::get_session(&session(true), id, Some(Some(row))) {
        older_get::GetAction::Answer(r) => {
            assert_eq!(r.session_id, id.to_text());
            assert_eq!(r.created_at, "1970-01-01T00:00:01.000001+00:00");
            assert_eq!(r.started_at.as_deref(), Some("1969-12-31T23:59:59.999999+00:00"));
            assert_eq!(r.ended_at, None);
        }
        other => panic!("{other:?}"),
    }
}

#[test]
fn session_events_resume_after_a_named_event() {
    let open = |id: Option<&str>, found| {
        older_events::session_events(&session(true), Uuid { bits: 9 }, id.map(str::to_owned), found)
    };
    assert!(matches!(open(None, None), older_events::EventsAction::Find { .. }));
    assert!(matches!(open(None, Some(false)), older_events::EventsAction::Refuse(AppError::NotFound)));
    assert!(matches!(
        open(Some(""), Some(true)),
        older_events::EventsAction::Subscribe { last_event_id: None, .. }
    ));
    assert!(matches!(
        open(Some("8"), Some(true)),
        older_events::EventsAction::Subscribe { last_event_id: Some(id), .. } if id == "8"
    ));
}
