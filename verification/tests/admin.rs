use control_api::admin::github::app_callback::{
    get_app_callback, AppCallbackAction, AppCallbackFacts, CallbackParams,
};
use control_api::admin::github::app_manifest::{
    app_manifest_plan, build_manifest_payload, default_app_name, post_app_manifest, AppManifestRequest,
};
use control_api::admin::github::app_status::{get_app_status, AppConfigRow, AppSource};
use control_api::admin::partition_maintenance::{
    partition_maintenance, MaintenanceAction, MaintenanceFacts, PartitionMaintenanceResponse, SEED_DAYS_AHEAD,
};
use control_api::admin::v1::audit_log::{
    list_audit_log, AuditLogAction, AuditLogFacts, AuditLogQuery, AuditLogRow,
};
use control_api::admin::v1::bootstrap::{
    bootstrap_admin, BootstrapAction, BootstrapAdminReq, BootstrapAdminResp, BootstrapFacts, BootstrapFailure,
};
use control_api::admin::v1::tenants::force_delete::{
    confirm_key, confirm_token, force_delete, force_delete_execute, force_delete_phase1, force_delete_phase2, read_confirm_claims,
    tombstone, tombstone_message, verify_confirm_token, Applied, ConfirmTokenClaims, DryRunAction, DryRunFacts, ExecuteAction,
    ExecuteFacts, ForceDeletePhase, ForceDeleteReq, ForceDeleteSnapshot, FORCE_DELETE_CONFIRM_TTL_SECS,
};
use control_api::admin::v1::tenants::impersonate::{
    default_impersonation_secs, grant, granted_duration, impersonate, impersonation_claims, impersonation_key,
    ImpersonateAction, ImpersonateFacts, ImpersonateReq, ImpersonateResp, IMPERSONATION_MAX_SECS,
};
use control_api::admin::v1::tenants::rebind::{
    rebind_gh_install, Installation, RebindAction, RebindFacts, RebindGhInstallReq,
};
use control_api::admin::v1::AdminCaller;
use control_api::clock::Timestamp;
use control_api::error::AppError;
use control_api::ids::Uuid;
use control_api::state_token::state_token;
use serde_json::Value;

fn caller() -> AdminCaller {
    AdminCaller {
        actor: "ops".to_owned(),
        request_id: Uuid { bits: 7 },
        ip: Some("198.51.100.1".to_owned()),
        user_agent: Some("curl/7.88".to_owned()),
    }
}

fn at(seconds: i64) -> Timestamp {
    Timestamp { micros: seconds * 1_000_000 }
}

/// What a token says, whether or not it has expired, if it is signed with `key`.
fn token_claims(token: &str, key: &[u8]) -> Option<Value> {
    let mut validation = jsonwebtoken::Validation::new(jsonwebtoken::Algorithm::HS256);
    validation.validate_exp = false;
    let key = jsonwebtoken::DecodingKey::from_secret(key);
    jsonwebtoken::decode::<Value>(token, &key, &validation).ok().map(|data| data.claims)
}

fn empty_object() -> Value {
    Value::Object(serde_json::Map::new())
}

// ── GitHub App ────────────────────────────────────────────────────────────

#[test]
fn default_app_name_uses_deployment_id_when_set() {
    assert_eq!(default_app_name(&Some("prod-eu".to_owned())), "rustacean-prod-eu");
    assert_eq!(default_app_name(&None), "rustacean-dev");
}

#[test]
fn default_app_name_ignores_a_blank_deployment_id() {
    assert_eq!(default_app_name(&Some("  \t".to_owned())), "rustacean-dev");
    assert_eq!(default_app_name(&Some(" eu ".to_owned())), "rustacean-eu");
}

#[test]
fn manifest_payload_has_required_fields() {
    let m = build_manifest_payload("http://localhost:15173", "rustacean-test");
    assert_eq!(m["name"], "rustacean-test");
    assert_eq!(m["public"], false);
    assert_eq!(m["url"], "http://localhost:15173");
    assert_eq!(m["redirect_url"], "http://localhost:15173/v1/admin/github/app-callback");
    assert_eq!(m["hook_attributes"]["url"], "http://localhost:15173/v1/github/webhook");
    assert_eq!(m["default_permissions"]["contents"], "read");
    assert!(
        m["default_events"].as_array().expect("default_events array").is_empty(),
        "installation/installation_repositories must not appear in default_events"
    );
}

#[test]
fn manifest_url_carries_the_encoded_manifest_and_the_state() {
    let token = state_token(&[0xabu8; 32]);
    let body = AppManifestRequest { name: Some("  my app ".to_owned()) };
    let plan = app_manifest_plan(Uuid { bits: 7 }, "http://h", &body, &None, token);
    let url = &plan.response.redirect_url;
    assert!(url.starts_with("https://github.com/settings/apps/new?manifest=%7B%22callback_urls%22%3A%5B%22http%3A%2F%2Fh"));
    assert!(url.contains("%22name%22%3A%22my%20app%22"));
    assert!(url.ends_with(&format!("&state={}", "ab".repeat(32))));
    assert_eq!(plan.response.state_token, "ab".repeat(32));
    assert_eq!(plan.token_hash.len(), 32);
    assert_eq!((plan.initiated_by, plan.ttl_secs), (Uuid { bits: 7 }, 600));
}

#[test]
fn fresh_manifests_have_their_own_state() {
    let body = AppManifestRequest { name: None };
    let a = post_app_manifest(Uuid { bits: 7 }, "http://h", &body, &None);
    let b = post_app_manifest(Uuid { bits: 7 }, "http://h", &body, &None);
    assert_eq!(a.response.state_token.len(), 64);
    assert_ne!(a.response.state_token, b.response.state_token);
    assert_ne!(a.token_hash, b.token_hash);
}

fn callback(state: &str, facts: AppCallbackFacts) -> AppCallbackAction {
    let params = CallbackParams { code: Some("c0de".to_owned()), state: Some(state.to_owned()) };
    get_app_callback(Uuid { bits: 1 }, &params, &Some("a2V5".to_owned()), "http://h", &facts)
}

fn nothing() -> AppCallbackFacts {
    AppCallbackFacts { claimed: None, key_valid: None, exchanged: None, installed: None }
}

#[test]
fn app_callback_runs_through_to_the_redirect() {
    let token = state_token(&[9u8; 32]);
    let text = token.text.clone();
    match callback(&text, nothing()) {
        AppCallbackAction::Claim { token_hash } => assert_eq!(token_hash, token.hash),
        other => panic!("{other:?}"),
    }
    let mut facts = nothing();
    facts.claimed = Some(Some(Uuid { bits: 1 }));
    assert!(matches!(callback(&text, facts), AppCallbackAction::ReadKey { key_b64 } if key_b64 == "a2V5"));
    let mut facts = nothing();
    facts.claimed = Some(Some(Uuid { bits: 1 }));
    facts.key_valid = Some(true);
    assert!(matches!(callback(&text, facts), AppCallbackAction::Exchange { code } if code == "c0de"));
    let facts = AppCallbackFacts {
        claimed: Some(Some(Uuid { bits: 1 })),
        key_valid: Some(true),
        exchanged: Some(true),
        installed: None,
    };
    assert!(matches!(callback(&text, facts), AppCallbackAction::Install { installed_by: Uuid { bits: 1 }, .. }));
    let facts = AppCallbackFacts {
        claimed: Some(Some(Uuid { bits: 1 })),
        key_valid: Some(true),
        exchanged: Some(true),
        installed: Some(true),
    };
    match callback(&text, facts) {
        AppCallbackAction::Redirect { location } => assert_eq!(location, "http://h/admin/github?registered=true"),
        other => panic!("{other:?}"),
    }
}

#[test]
fn app_callback_refusals() {
    let text = state_token(&[9u8; 32]).text;
    assert!(matches!(callback("zz", nothing()), AppCallbackAction::Refuse(AppError::InvalidToken)));
    assert!(matches!(callback("", nothing()), AppCallbackAction::Refuse(AppError::InvalidInput)));
    let mut facts = nothing();
    facts.claimed = Some(None);
    assert!(matches!(callback(&text, facts), AppCallbackAction::Refuse(AppError::InvalidToken)));
    let mut facts = nothing();
    facts.claimed = Some(Some(Uuid { bits: 2 }));
    assert!(matches!(callback(&text, facts), AppCallbackAction::Refuse(AppError::InvalidToken)));
    let facts = AppCallbackFacts {
        claimed: Some(Some(Uuid { bits: 1 })),
        key_valid: Some(true),
        exchanged: Some(false),
        installed: None,
    };
    assert!(matches!(callback(&text, facts), AppCallbackAction::Refuse(AppError::GithubExchangeFailed)));
    let params = CallbackParams { code: Some("c".to_owned()), state: Some(text) };
    let mut facts = nothing();
    facts.claimed = Some(Some(Uuid { bits: 1 }));
    assert!(matches!(
        get_app_callback(Uuid { bits: 1 }, &params, &None, "http://h", &facts),
        AppCallbackAction::Refuse(AppError::ServiceUnavailable)
    ));
}

#[test]
fn app_status_prefers_the_database() {
    let row = AppConfigRow { app_id: 5, slug: "s".to_owned(), created_at: at(3), installed_by: Uuid { bits: 4 } };
    let status = get_app_status(Some(9), Some(row));
    assert!(status.configured);
    assert_eq!(status.source.name(), "db");
    assert_eq!(status.app_id, Some(5));
    assert_eq!(status.slug.as_deref(), Some("s"));
    let status = get_app_status(Some(9), None);
    assert!(matches!(status.source, AppSource::Env));
    assert_eq!(status.app_id, Some(9));
    let row = AppConfigRow { app_id: 5, slug: "s".to_owned(), created_at: at(3), installed_by: Uuid { bits: 4 } };
    let status = get_app_status(None, Some(row));
    assert!(!status.configured);
    assert_eq!(status.app_id, None);
    assert_eq!(status.slug.as_deref(), Some("s"));
    let status = get_app_status(None, None);
    assert!(!status.configured);
    assert_eq!(status.source.name(), "none");
}

// ── Partition maintenance ─────────────────────────────────────────────────

#[test]
fn response_serializes() {
    let resp = PartitionMaintenanceResponse { seeded: 2, pruned: 3 };
    let v = resp.to_json();
    assert_eq!(v["seeded"], 2);
    assert_eq!(v["pruned"], 3);
}

#[test]
fn maintenance_seeds_then_prunes_then_counts_new_partitions() {
    assert!(SEED_DAYS_AHEAD >= 1);
    let step = |created: Vec<bool>, pruned| partition_maintenance(&MaintenanceFacts { created, pruned });
    assert_eq!(step(vec![], None), MaintenanceAction::Seed { days_from_today: 0 });
    assert_eq!(step(vec![true], None), MaintenanceAction::Seed { days_from_today: 1 });
    assert_eq!(step(vec![true, false], None), MaintenanceAction::Prune);
    assert_eq!(
        step(vec![true, false], Some(4)),
        MaintenanceAction::Answer(PartitionMaintenanceResponse { seeded: 1, pruned: 4 })
    );
    assert_eq!(
        step(vec![false, false], Some(0)),
        MaintenanceAction::Answer(PartitionMaintenanceResponse { seeded: 0, pruned: 0 })
    );
}

// ── Audit log ─────────────────────────────────────────────────────────────

fn query(limit: Option<i64>) -> AuditLogQuery {
    AuditLogQuery { tenant_id: None, from: None, until: None, limit }
}

#[test]
fn limit_clamps_to_500() {
    let q = query(Some(99999));
    assert_eq!(q.effective_limit(), 500);
}

#[test]
fn limit_defaults_to_100() {
    let q = query(None);
    assert_eq!(q.effective_limit(), 100);
}

#[test]
fn limit_is_at_least_one() {
    assert_eq!(query(Some(0)).effective_limit(), 1);
    assert_eq!(query(Some(-7)).effective_limit(), 1);
    assert_eq!(query(Some(42)).effective_limit(), 42);
}

fn log_row(ip: Option<String>, user_agent: Option<String>) -> AuditLogRow {
    AuditLogRow {
        id: 42,
        created_at: at(1),
        actor: "test-actor".to_owned(),
        action: "audit_log.query".to_owned(),
        tenant_id: None,
        target_user_id: None,
        request_id: Uuid::new_v4(),
        ip,
        user_agent,
        outcome: "ok".to_owned(),
        error_class: None,
        payload_summary: empty_object(),
    }
}

#[test]
fn audit_log_row_ip_and_user_agent_serialize() {
    let val = log_row(Some("198.51.100.1".to_owned()), Some("curl/7.88".to_owned())).to_json();
    assert_eq!(val["ip"], "198.51.100.1");
    assert_eq!(val["user_agent"], "curl/7.88");
}

#[test]
fn audit_log_row_null_ip_and_user_agent_serialize_as_null() {
    let val = log_row(None, None).to_json();
    assert!(val["ip"].is_null());
    assert!(val["user_agent"].is_null());
    assert_eq!(val["created_at"], "1970-01-01T00:00:01Z");
}

#[test]
fn reading_the_audit_log_is_audited() {
    let tenant = Uuid { bits: 3 };
    let q = AuditLogQuery { tenant_id: Some(tenant), from: Some(at(1)), until: None, limit: Some(1000) };
    match list_audit_log(&caller(), &q, AuditLogFacts::Nothing) {
        AuditLogAction::Query { tenant_id, limit, from, .. } => {
            assert_eq!(tenant_id, Some(tenant));
            assert_eq!(limit, 500);
            assert_eq!(from.map(|t| t.micros), Some(1_000_000));
        }
        _ => panic!("expected a query"),
    }
    match list_audit_log(&caller(), &q, AuditLogFacts::Rows(vec![log_row(None, None)])) {
        AuditLogAction::Answer { audit, reply } => {
            assert_eq!(audit.action, "audit_log.query");
            assert_eq!(audit.outcome, "ok");
            assert_eq!(audit.error_class, None);
            assert_eq!(audit.ip.as_deref(), Some("198.51.100.1"));
            assert_eq!(audit.payload_summary["results"], 1);
            assert_eq!(audit.payload_summary["limit"], 500);
            assert_eq!(reply.unwrap().total, 1);
        }
        _ => panic!("expected an answer"),
    }
    match list_audit_log(&caller(), &q, AuditLogFacts::Failed) {
        AuditLogAction::Answer { audit, reply } => {
            assert_eq!(audit.outcome, "error");
            assert_eq!(audit.error_class, Some("database_error"));
            assert!(matches!(reply, Err(AppError::Database)));
        }
        _ => panic!("expected an answer"),
    }
}

// ── Bootstrap ─────────────────────────────────────────────────────────────

#[test]
fn bootstrap_resp_serializes() {
    let uid = Uuid::new_v4();
    let resp = BootstrapAdminResp { user_id: uid, email: "admin@example.com".to_owned() };
    let v = resp.to_json();
    assert_eq!(v["email"], "admin@example.com");
    assert_eq!(v["user_id"], uid.to_text().as_str());
}

fn bootstrap(email: &str, password: &str, facts: BootstrapFacts) -> BootstrapAction {
    let body = BootstrapAdminReq { email: email.to_owned(), password: password.to_owned() };
    bootstrap_admin(&caller(), &body, &facts)
}

fn unknown() -> BootstrapFacts {
    BootstrapFacts { user_count: None, created: None, failed: None }
}

fn bootstrap_ending(action: BootstrapAction) -> (&'static str, Option<&'static str>, Result<Uuid, AppError>) {
    match action {
        BootstrapAction::Answer { audit, reply } => (audit.outcome, audit.error_class, reply.map(|r| r.user_id)),
        _ => panic!("expected an answer"),
    }
}

#[test]
fn bootstrap_creates_the_first_admin_only() {
    assert!(matches!(bootstrap(" a@b.c ", "twelve bytes", unknown()), BootstrapAction::CountUsers));
    let facts = BootstrapFacts { user_count: Some(0), created: None, failed: None };
    match bootstrap(" a@b.c ", "twelve bytes", facts) {
        BootstrapAction::CreateAdmin { email, password, .. } => {
            assert_eq!(email, "a@b.c");
            assert!(password.len() >= 12);
        }
        _ => panic!("expected a creation"),
    }
    let id = Uuid { bits: 8 };
    let facts = BootstrapFacts { user_count: Some(0), created: Some(id), failed: None };
    assert_eq!(bootstrap_ending(bootstrap("a@b.c", "twelve bytes", facts)), ("ok", None, Ok(id)));
    let facts = BootstrapFacts { user_count: Some(1), created: None, failed: None };
    assert_eq!(
        bootstrap_ending(bootstrap("a@b.c", "twelve bytes", facts)),
        ("denied", Some("users_already_exist"), Err(AppError::AdminBootstrapConflict))
    );
}

#[test]
fn bootstrap_refusals_and_failures_are_audited() {
    assert_eq!(
        bootstrap_ending(bootstrap(" ", "twelve bytes", unknown())),
        ("denied", Some("invalid_email"), Err(AppError::InvalidEmail))
    );
    assert_eq!(
        bootstrap_ending(bootstrap("a@b.c", "eleven byte", unknown())),
        ("denied", Some("weak_password"), Err(AppError::WeakPassword))
    );
    let mut facts = unknown();
    facts.failed = Some(BootstrapFailure::Database);
    assert_eq!(
        bootstrap_ending(bootstrap("a@b.c", "twelve bytes", facts)),
        ("error", Some("database_error"), Err(AppError::Database))
    );
    let mut facts = unknown();
    facts.failed = Some(BootstrapFailure::Hash);
    assert_eq!(
        bootstrap_ending(bootstrap("a@b.c", "twelve bytes", facts)),
        ("error", Some("password_hash_failed"), Err(AppError::Internal))
    );
}

// ── Impersonation ─────────────────────────────────────────────────────────

#[test]
fn tenants_impersonation_max_secs_is_900() {
    assert_eq!(IMPERSONATION_MAX_SECS, 900);
}

#[test]
fn impersonate_impersonation_max_secs_is_900() {
    assert_eq!(IMPERSONATION_MAX_SECS, 900);
    assert_eq!(default_impersonation_secs(), 900);
}

#[test]
fn tenants_duration_clamped_to_ceiling() {
    let clamped = 9999_i64.min(IMPERSONATION_MAX_SECS);
    assert_eq!(clamped, 900);
    assert_eq!(granted_duration(9999), clamped);
}

#[test]
fn impersonate_duration_clamped_to_ceiling() {
    assert_eq!(granted_duration(9999_i64), 900);
    assert_eq!(granted_duration(0), 1);
    assert_eq!(granted_duration(60), 60);
}

fn granted_token(action: ImpersonateAction) -> ImpersonateResp {
    match action {
        ImpersonateAction::Answer { audit, reply } => {
            assert_eq!((audit.outcome, audit.error_class), ("ok", None));
            let resp = reply.unwrap();
            assert_eq!(audit.payload_summary["expires_at"], resp.expires_at.as_str());
            resp
        }
        _ => panic!("expected an answer"),
    }
}

#[test]
fn impersonation_tokens_expire_within_the_ceiling() {
    let req = ImpersonateReq { user_id: Uuid { bits: 2 }, duration_secs: 5000 };
    let secret = Some("t".to_owned());
    let claims = impersonation_claims("ops", Uuid { bits: 3 }, &req, &[1u8; 16], 1000);
    assert_eq!(claims.exp, 1900);
    assert_eq!(claims.nonce, "01".repeat(16));
    let resp = granted_token(grant(&caller(), Uuid { bits: 3 }, &req, &secret, &[1u8; 16], 1000));
    assert_eq!(resp.expires_at, "1970-01-01T00:31:40+00:00");
    let said = token_claims(&resp.token, &impersonation_key(&secret, &"01".repeat(16))).unwrap();
    assert_eq!(said["sub"], "00000000-0000-0000-0000-000000000002");
    assert_eq!(said["tid"], "00000000-0000-0000-0000-000000000003");
    assert_eq!(said["imp"], "ops");
    assert_eq!(said["nonce"], "01".repeat(16));
    assert_eq!(said["exp"], 1900);
    assert_eq!(said["typ"], "imp");
}

#[test]
fn impersonation_tokens_need_the_key_of_their_nonce_and_admin_token() {
    let req = ImpersonateReq { user_id: Uuid { bits: 2 }, duration_secs: 60 };
    let secret = Some("t".to_owned());
    let resp = granted_token(grant(&caller(), Uuid { bits: 3 }, &req, &secret, &[1u8; 16], 1000));
    assert!(token_claims(&resp.token, &impersonation_key(&secret, &"01".repeat(16))).is_some());
    assert!(token_claims(&resp.token, &impersonation_key(&secret, &"02".repeat(16))).is_none());
    assert!(token_claims(&resp.token, &impersonation_key(&Some("u".to_owned()), &"01".repeat(16))).is_none());
    let other = granted_token(grant(&caller(), Uuid { bits: 3 }, &req, &secret, &[2u8; 16], 1000));
    assert_ne!(resp.token, other.token);
}

#[test]
fn impersonation_steps() {
    let req = ImpersonateReq { user_id: Uuid { bits: 2 }, duration_secs: 60 };
    let tenant = Uuid { bits: 3 };
    let step =
        |member, failed| impersonate(&caller(), tenant, &req, &None, ImpersonateFacts { member, failed });
    assert!(matches!(step(None, false), ImpersonateAction::FindMember { .. }));
    let ending = |action| match action {
        ImpersonateAction::Answer { audit, reply } => {
            (audit.outcome, audit.error_class, reply.map(|r| r.user_id))
        }
        _ => panic!("expected an answer"),
    };
    assert_eq!(
        ending(step(Some(false), false)),
        ("denied", Some("user_not_tenant_member"), Err(AppError::NotAMember))
    );
    assert_eq!(ending(step(None, true)), ("error", Some("database_error"), Err(AppError::Database)));
    assert_eq!(ending(step(Some(true), false)), ("ok", None, Ok(Uuid { bits: 2 })));
    let first = granted_token(step(Some(true), false));
    let second = granted_token(step(Some(true), false));
    assert_ne!(first.token, second.token);
}

// ── Rebind ────────────────────────────────────────────────────────────────

fn rebind(force: bool, reason: Option<&str>, facts: RebindFacts) -> RebindAction {
    let body = RebindGhInstallReq { github_installation_id: 77, force, reason: reason.map(str::to_owned) };
    rebind_gh_install(&caller(), Uuid { bits: 5 }, &body, &facts)
}

fn found(installation: Option<Option<Installation>>, moved: bool) -> RebindFacts {
    RebindFacts { tenant_exists: Some(true), installation, moved, failed: false }
}

fn rebind_ending(action: RebindAction) -> (&'static str, Option<&'static str>, Result<Option<Uuid>, AppError>) {
    match action {
        RebindAction::Answer { audit, reply } => {
            assert_eq!(audit.action, "tenant.rebind_gh");
            assert_eq!(audit.payload_summary["github_installation_id"], 77);
            (audit.outcome, audit.error_class, reply.map(|r| r.previous_tenant_id))
        }
        _ => panic!("expected an answer"),
    }
}

#[test]
fn rebind_needs_force_and_a_reason_to_move_an_installation() {
    let foreign = || Some(Some(Installation { id: Uuid { bits: 1 }, tenant_id: Uuid { bits: 6 } }));
    let own = || Some(Some(Installation { id: Uuid { bits: 1 }, tenant_id: Uuid { bits: 5 } }));
    assert_eq!(
        rebind_ending(rebind(true, Some(" "), found(foreign(), false))),
        ("denied", Some("force_requires_reason"), Err(AppError::InvalidInput))
    );
    assert_eq!(
        rebind_ending(rebind(false, None, found(foreign(), false))),
        ("denied", Some("cross_tenant_conflict"), Err(AppError::GithubInstallationConflict))
    );
    match rebind(true, Some("merge"), found(foreign(), false)) {
        RebindAction::Move { installation, tenant } => {
            assert_eq!(installation, Uuid { bits: 1 });
            assert_eq!(tenant, Uuid { bits: 5 });
        }
        _ => panic!("expected a move"),
    }
    assert_eq!(
        rebind_ending(rebind(true, Some("merge"), found(foreign(), true))),
        ("ok", None, Ok(Some(Uuid { bits: 6 })))
    );
    assert_eq!(rebind_ending(rebind(false, None, found(own(), false))), ("ok", None, Ok(None)));
}

#[test]
fn rebind_looks_for_the_tenant_and_then_the_installation() {
    let start = RebindFacts { tenant_exists: None, installation: None, moved: false, failed: false };
    assert!(matches!(rebind(false, None, start), RebindAction::FindTenant { .. }));
    assert!(matches!(rebind(false, None, found(None, false)), RebindAction::FindInstallation { .. }));
    let gone = RebindFacts { tenant_exists: Some(false), installation: None, moved: false, failed: false };
    assert_eq!(
        rebind_ending(rebind(false, None, gone)),
        ("denied", Some("tenant_not_found"), Err(AppError::NotFound))
    );
    assert_eq!(
        rebind_ending(rebind(false, None, found(Some(None), false))),
        ("denied", Some("installation_not_found"), Err(AppError::NotFound))
    );
    let failed = RebindFacts { tenant_exists: None, installation: None, moved: false, failed: true };
    assert_eq!(
        rebind_ending(rebind(false, None, failed)),
        ("error", Some("database_error"), Err(AppError::Database))
    );
}

// ── Force delete ──────────────────────────────────────────────────────────

fn snapshot() -> ForceDeleteSnapshot {
    ForceDeleteSnapshot {
        tenant_id: Uuid { bits: 1 },
        repos: 2,
        sessions: 1,
        api_keys: 3,
        members: 4,
        ingestion_runs: 0,
        github_installations: 1,
    }
}

#[test]
fn tenants_force_delete_confirm_ttl_is_60() {
    assert_eq!(FORCE_DELETE_CONFIRM_TTL_SECS, 60);
}

#[test]
fn force_delete_force_delete_confirm_ttl_is_60() {
    assert_eq!(FORCE_DELETE_CONFIRM_TTL_SECS, 60);
}

#[test]
fn tenants_dry_run_resp_serializes() {
    let v = snapshot().to_json();
    assert_eq!(v["repos"], 2);
    assert_eq!(v["members"], 4);
}

#[test]
fn force_delete_dry_run_resp_serializes() {
    let mut snap = snapshot();
    snap.tenant_id = Uuid::new_v4();
    let v = snap.to_json();
    assert_eq!(v["repos"], 2);
    assert_eq!(v["members"], 4);
}

#[test]
fn snapshots_are_hashed_as_json_text() {
    assert_eq!(
        snapshot().to_text(),
        "{\"tenant_id\":\"00000000-0000-0000-0000-000000000001\",\"repos\":2,\"sessions\":1,\"api_keys\":3,\
         \"members\":4,\"ingestion_runs\":0,\"github_installations\":1}"
    );
    assert_eq!(snapshot().digest().len(), 64);
    let mut other = snapshot();
    other.repos = 3;
    assert_ne!(snapshot().digest(), other.digest());
}

#[test]
fn a_request_with_a_token_executes() {
    assert!(matches!(force_delete(ForceDeleteReq { confirm_token: None }), ForceDeletePhase::DryRun));
    assert!(matches!(
        force_delete(ForceDeleteReq { confirm_token: Some("t".to_owned()) }),
        ForceDeletePhase::Execute(t) if t == "t"
    ));
}

#[test]
fn confirm_tokens_last_a_minute() {
    let secret = Some("s".to_owned());
    let token = confirm_token("ops", Uuid { bits: 1 }, &snapshot(), &secret, 1000).unwrap();
    let said = token_claims(&token, &confirm_key(&secret)).unwrap();
    assert_eq!(said["exp"], 1060);
    assert_eq!(said["typ"], "force_delete_confirm");
    assert_eq!(said["snapshot_hash"], snapshot().digest());
    assert_eq!(said["actor"], "ops");
    assert_eq!(said["tenant_id"], "00000000-0000-0000-0000-000000000001");
    assert!(token_claims(&token, &confirm_key(&None)).is_none());
    assert!(verify_confirm_token(&token, &secret).is_none());
}

#[test]
fn confirm_tokens_are_good_until_the_leeway_is_over() {
    let secret = Some("s".to_owned());
    let now = chrono::Utc::now().timestamp();
    let read = |made: i64| {
        let token = confirm_token("ops", Uuid { bits: 1 }, &snapshot(), &secret, made).unwrap();
        verify_confirm_token(&token, &secret)
    };
    assert_eq!(read(8_210_266_876_799).unwrap().exp, 8_210_266_876_859);
    assert_eq!(read(now).unwrap().exp, (now + 60) as u64);
    assert_eq!(read(now - 90).unwrap().actor, "ops");
    assert!(read(now - 121).is_none());
    assert!(read(0).is_none());
}

#[test]
fn confirm_tokens_need_an_expiry_and_no_audience() {
    let secret = Some("s".to_owned());
    let whole = "{\"tenant_id\":\"t\",\"actor\":\"a\",\"snapshot_hash\":\"h\",\"exp\":18446744073709551615,\"typ\":\"x\"}";
    let signed = |claims: &Value| {
        let header = jsonwebtoken::Header::new(jsonwebtoken::Algorithm::HS256);
        let key = jsonwebtoken::EncodingKey::from_secret(&confirm_key(&secret));
        jsonwebtoken::encode(&header, claims, &key).unwrap()
    };
    let mut claims: Value = serde_json::from_str(whole).unwrap();
    assert_eq!(verify_confirm_token(&signed(&claims), &secret).unwrap().exp, u64::MAX);
    claims["aud"] = Value::from("somebody");
    assert!(verify_confirm_token(&signed(&claims), &secret).is_none());
    claims["aud"] = Value::Null;
    assert!(verify_confirm_token(&signed(&claims), &secret).is_some());
    claims.as_object_mut().unwrap().remove("typ");
    assert!(verify_confirm_token(&signed(&claims), &secret).is_none());
    claims["typ"] = Value::from("x");
    claims.as_object_mut().unwrap().remove("exp");
    assert!(verify_confirm_token(&signed(&claims), &secret).is_none());
}

#[test]
fn incomplete_claims_are_not_read() {
    let whole = "{\"tenant_id\":\"t\",\"actor\":\"a\",\"snapshot_hash\":\"h\",\"exp\":5,\"typ\":\"x\"}";
    let claims = read_confirm_claims(&serde_json::from_str(whole).unwrap()).unwrap();
    assert_eq!((claims.tenant_id.as_str(), claims.actor.as_str()), ("t", "a"));
    assert_eq!((claims.snapshot_hash.as_str(), claims.exp, claims.typ.as_str()), ("h", 5, "x"));
    for key in ["tenant_id", "actor", "snapshot_hash", "exp", "typ"] {
        let mut v: Value = serde_json::from_str(whole).unwrap();
        v.as_object_mut().unwrap().remove(key);
        assert!(read_confirm_claims(&v).is_none());
        v[key] = Value::from(true);
        assert!(read_confirm_claims(&v).is_none());
    }
}

fn dry_run_token(secret: &Option<String>) -> String {
    let facts = DryRunFacts { snapshot: Some(snapshot()), failed: false };
    match force_delete_phase1(&caller(), Uuid { bits: 1 }, secret, facts) {
        DryRunAction::Answer { audit, reply } => {
            assert_eq!(audit.action, "tenant.force_delete.dry_run");
            assert_eq!(audit.payload_summary["snapshot"]["repos"], 2);
            let resp = reply.unwrap();
            assert_eq!(resp.snapshot, snapshot());
            assert_eq!(resp.expires_in_secs, 60);
            resp.confirm_token
        }
        _ => panic!("expected an answer"),
    }
}

#[test]
fn dry_run_counts_and_answers_with_a_token() {
    let step = |snapshot, failed| {
        force_delete_phase1(&caller(), Uuid { bits: 1 }, &None, DryRunFacts { snapshot, failed })
    };
    assert!(matches!(step(None, false), DryRunAction::TakeSnapshot { .. }));
    match step(None, true) {
        DryRunAction::Answer { audit, reply } => {
            assert_eq!(audit.error_class, Some("database_error"));
            assert!(matches!(reply, Err(AppError::Database)));
        }
        _ => panic!("expected an answer"),
    }
    let secret = Some("s".to_owned());
    let claims = verify_confirm_token(&dry_run_token(&secret), &secret).unwrap();
    assert_eq!(claims.actor, "ops");
    assert_eq!(claims.tenant_id, Uuid { bits: 1 }.to_text());
    assert_eq!(claims.snapshot_hash, snapshot().digest());
    assert!(verify_confirm_token(&dry_run_token(&secret), &None).is_none());
    assert!(verify_confirm_token("not.a.token", &secret).is_none());
}

#[test]
fn a_dry_run_token_leads_to_the_deletion() {
    let secret = Some("s".to_owned());
    let (mut facts, action) = force_delete_execute(&caller(), Uuid { bits: 1 }, &dry_run_token(&secret), &secret);
    assert!(matches!(action, ExecuteAction::TakeSnapshot { tenant_id: Uuid { bits: 1 } }));
    facts.snapshot = Some(snapshot());
    assert!(matches!(
        force_delete_phase2(&caller(), Uuid { bits: 1 }, &facts),
        ExecuteAction::Delete { .. }
    ));
}

fn execute(actor: &str, tenant: Uuid, counts: Option<ForceDeleteSnapshot>, applied: Option<Applied>) -> ExecuteAction {
    let claims = ConfirmTokenClaims {
        tenant_id: tenant.to_text(),
        actor: actor.to_owned(),
        snapshot_hash: snapshot().digest(),
        exp: 1060,
        typ: "force_delete_confirm".to_owned(),
    };
    let facts = ExecuteFacts { claims: Some(claims), snapshot: counts, applied, failed: false };
    force_delete_phase2(&caller(), Uuid { bits: 1 }, &facts)
}

fn execute_ending(action: ExecuteAction) -> (&'static str, Option<&'static str>, Result<&'static str, AppError>) {
    match action {
        ExecuteAction::Answer { audit, reply } => (audit.outcome, audit.error_class, reply.map(|r| r.status)),
        _ => panic!("expected an answer"),
    }
}

#[test]
fn a_dry_run_token_deletes_what_it_was_made_for_and_nothing_else() {
    let tenant = Uuid { bits: 1 };
    assert!(matches!(execute("ops", tenant, None, None), ExecuteAction::TakeSnapshot { .. }));
    match execute("ops", tenant, Some(snapshot()), None) {
        ExecuteAction::Delete { tenant_id, message } => {
            assert_eq!((tenant_id, message.tenant_id), (tenant, tenant));
            assert_eq!((message.topic, message.key), ("rb.tombstones.v1", tenant.to_text()));
            let tombstone = message.tombstone;
            assert_eq!(tombstone.tenant_id, tenant.to_text());
            assert_eq!(tombstone.repo_id, "");
            assert_eq!(tombstone.requested_by, "ops");
        }
        _ => panic!("expected the deletion"),
    }
    assert_eq!(
        execute_ending(execute("ops", tenant, Some(snapshot()), Some(Applied::Done))),
        ("ok", None, Ok("deleting"))
    );
    assert_eq!(
        execute_ending(execute("someone", tenant, Some(snapshot()), None)),
        ("denied", Some("actor_mismatch"), Err(AppError::InvalidToken))
    );
    assert_eq!(
        execute_ending(execute("ops", Uuid { bits: 2 }, Some(snapshot()), None)),
        ("denied", Some("tenant_id_mismatch"), Err(AppError::InvalidToken))
    );
    let mut shifted = snapshot();
    shifted.members = 5;
    assert_eq!(
        execute_ending(execute("ops", tenant, Some(shifted), None)),
        ("denied", Some("snapshot_shifted"), Err(AppError::AdminForceDeleteConflict))
    );
    assert_eq!(
        execute_ending(execute("ops", tenant, Some(snapshot()), Some(Applied::PublishFailed))),
        ("error", Some("kafka_publish_failed"), Err(AppError::KafkaPublish))
    );
}

#[test]
fn execution_verifies_the_token_first() {
    let secret = Some("s".to_owned());
    let (facts, action) = force_delete_execute(&caller(), Uuid { bits: 1 }, &dry_run_token(&secret), &None);
    assert!(facts.claims.is_none());
    assert_eq!(
        execute_ending(action),
        ("denied", Some("invalid_token"), Err(AppError::InvalidToken))
    );
    let facts = ExecuteFacts { claims: None, snapshot: None, applied: None, failed: true };
    assert_eq!(
        execute_ending(force_delete_phase2(&caller(), Uuid { bits: 1 }, &facts)),
        ("error", Some("database_error"), Err(AppError::Database))
    );
    assert_eq!(tombstone(Uuid { bits: 1 }, "ops", 5).emitted_at_ms, 5);
    assert_eq!(tombstone_message(Uuid { bits: 1 }, "ops", 5).tombstone.emitted_at_ms, 5);
    let (_, action) = force_delete_execute(&caller(), Uuid { bits: 2 }, &dry_run_token(&secret), &secret);
    assert_eq!(
        execute_ending(action),
        ("denied", Some("tenant_id_mismatch"), Err(AppError::InvalidToken))
    );
}
