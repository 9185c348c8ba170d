use control_api::caller::{ApiKeyInfo, AuthContext, McpJwtInfo, Scope, SessionInfo};
use control_api::error::AppError;
use control_api::ids::Uuid;
use control_api::mcp::audit::{actor_kind, args_sha256, tool_call_audit, ChatAuditCtx};
use control_api::mcp::dispatch::{
    cite, crate_name, dispatch_get_item, dispatch_search_items, embed_request, hit_repos, query_variants,
    search_limit, search_request, DenseHit, HybridHit, ItemAction, ItemProgress, RepoCommit, SearchAction,
    SearchLimits, SearchProgress, SearchSettings, Symbol, ToolOutput,
};
use control_api::mcp::{
    mcp_handler, require_auth_tenant, session_id_of, validate_session, JsonRpcRequest, McpAction, McpAnswer, McpError,
    McpProgress, Tool, ToolCallParams, ToolFailure,
};
use serde_json::Value;

const USER: Uuid = Uuid { bits: 11 };
const TENANT: Uuid = Uuid { bits: 22 };

const LIMITS: SearchLimits = SearchLimits { default_limit: 10, max_limit: 50 };

fn session(tenant_id: Uuid, email_verified: bool) -> AuthContext {
    AuthContext::Session(SessionInfo { session_id: Uuid::new_v4(), user_id: USER, tenant_id, email_verified })
}

fn key(tenant_id: Uuid, scopes: Vec<Scope>) -> AuthContext {
    AuthContext::ApiKey(ApiKeyInfo { key_id: Uuid::new_v4(), tenant_id, user_id: USER, scopes })
}

fn object(fields: &[(&str, Value)]) -> Value {
    let mut m = serde_json::Map::new();
    for (k, v) in fields {
        m.insert((*k).to_owned(), v.clone());
    }
    Value::Object(m)
}

// ── Callers and sessions ──────────────────────────────────────────────────

#[test]
fn anonymous_auth_rejected() {
    assert!(require_auth_tenant(&AuthContext::Anonymous).is_err());
}

#[test]
fn expired_session_rejected() {
    assert!(require_auth_tenant(&AuthContext::ExpiredSession).is_err());
}

#[test]
fn mod_unverified_session_rejected() {
    assert!(require_auth_tenant(&session(Uuid::new_v4(), false)).is_err());
}

#[test]
fn verified_session_returns_tenant() {
    let tid = Uuid::new_v4();
    assert_eq!(require_auth_tenant(&session(tid, true)), Ok(tid));
}

#[test]
fn read_scoped_api_key_accepted() {
    let tid = Uuid::new_v4();
    assert_eq!(require_auth_tenant(&key(tid, vec![Scope::Read])), Ok(tid));
}

#[test]
fn write_only_api_key_rejected() {
    assert!(require_auth_tenant(&key(Uuid::new_v4(), vec![Scope::Write])).is_err());
}

#[test]
fn agent_scoped_key_accepted() {
    let tid = Uuid::new_v4();
    assert_eq!(
        require_auth_tenant(&key(tid, vec![Scope::Agent])),
        Ok(tid),
        "agent-scoped key must be accepted by the MCP handler"
    );
}

#[test]
fn agent_scoped_key_validate_session_accepted() {
    let tid = Uuid::new_v4();
    let accepted = validate_session(&key(tid, vec![Scope::Agent]), Some(tid));
    assert_eq!(accepted, Ok((tid, Some(USER))), "agent scope must pass validate_session scope guard");
}

#[test]
fn sessions_belong_to_one_tenant() {
    assert_eq!(validate_session(&session(TENANT, true), None), Err(McpError::SessionNotFound));
    assert_eq!(validate_session(&session(TENANT, true), Some(USER)), Err(McpError::TenantDrift));
    assert_eq!(validate_session(&AuthContext::Anonymous, Some(TENANT)), Err(McpError::Unauthorized));
    assert_eq!(validate_session(&chat_runtime(), Some(TENANT)), Ok((TENANT, Some(USER))));
    assert_eq!(validate_session(&chat_runtime(), Some(USER)), Err(McpError::TenantDrift));
}

fn chat_runtime() -> AuthContext {
    AuthContext::McpJwt(McpJwtInfo {
        tenant_id: TENANT,
        user_id: USER,
        chat_session_id: Uuid { bits: 9 },
        scope: vec!["read".to_owned()],
        jti: "token-1".to_owned(),
    })
}

#[test]
fn calls_of_a_chat_are_recorded_as_such() {
    let asked = request("tools/call", call("get_item"));
    let ran = McpProgress::ToolRan(Err(ToolFailure { error: AppError::NotFound, detail: None }));
    match mcp_handler(&chat_runtime(), None, &asked, ran) {
        McpAction::Record { audit, .. } => {
            assert_eq!(audit.actor_kind, "chat");
            assert_eq!(audit.tenant_id, TENANT);
            assert_eq!(audit.actor_user_id, Some(USER));
            assert_eq!(audit.payload["chat_session_id"], Uuid { bits: 9 }.to_text());
            assert_eq!(audit.payload["jti"], "token-1");
        }
        other => panic!("{other:?}"),
    }
    assert_eq!(require_auth_tenant(&chat_runtime()), Ok(TENANT));
}

#[test]
fn the_header_names_the_session() {
    let id = Uuid::new_v4();
    assert_eq!(session_id_of(Some(&id.to_text())), id);
    assert_eq!(session_id_of(Some("junk")), Uuid { bits: 0 });
    assert_eq!(session_id_of(None), Uuid { bits: 0 });
}

// ── Requests ──────────────────────────────────────────────────────────────

fn request(method: &str, call: Option<ToolCallParams>) -> Option<JsonRpcRequest> {
    Some(JsonRpcRequest { jsonrpc: "2.0".to_owned(), id: Some(Value::from(7)), method: method.to_owned(), call })
}

fn call(name: &str) -> Option<ToolCallParams> {
    Some(ToolCallParams { name: name.to_owned(), arguments: None })
}

fn step(request: &Option<JsonRpcRequest>, progress: McpProgress) -> McpAction {
    mcp_handler(&session(TENANT, true), None, request, progress)
}

fn failure(action: McpAction) -> McpError {
    match action {
        McpAction::Answer(McpAnswer::Failed { id, error }) => {
            assert_eq!(id.is_none(), error == McpError::ParseError);
            error
        }
        other => panic!("{other:?}"),
    }
}

#[test]
fn bad_requests_are_told_apart() {
    assert_eq!(failure(step(&None, McpProgress::Begin)), McpError::ParseError);
    let old = Some(JsonRpcRequest {
        jsonrpc: "1.0".to_owned(),
        id: Some(Value::from(7)),
        method: "ping".to_owned(),
        call: None,
    });
    assert_eq!(failure(step(&old, McpProgress::Begin)), McpError::InvalidRequest);
    assert_eq!(failure(step(&request("nope", None), McpProgress::Begin)), McpError::MethodNotFound);
    let stranger = |method| failure(mcp_handler(&AuthContext::Anonymous, None, &request(method, None), McpProgress::Begin));
    assert_eq!(stranger("initialize"), McpError::AuthenticationRequired);
    assert_eq!(stranger("tools/list"), McpError::Unauthorized);
    assert_eq!(stranger("tools/call"), McpError::Unauthorized);
}

#[test]
fn error_messages() {
    assert_eq!(McpError::ParseError.message(), "parse error");
    assert_eq!(McpError::InvalidRequest.message(), "jsonrpc must be '2.0'");
    assert_eq!(McpError::MethodNotFound.message(), "method not found");
    assert_eq!(McpError::InvalidParams.message(), "tools/call requires {name, arguments}");
    assert_eq!(McpError::ToolNotFound.message(), "unknown tool");
    assert_eq!(McpError::SessionNotFound.message(), "session not found or expired");
    assert_eq!(McpError::TenantDrift.message(), "tenant mismatch");
    assert_eq!(McpError::AuthenticationRequired.message(), "authentication required");
    assert_eq!(McpError::Unauthorized.message(), "unauthorized");
}

#[test]
fn methods_without_tools() {
    assert!(matches!(
        step(&request("ping", None), McpProgress::Begin),
        McpAction::Answer(McpAnswer::Pong { id: Some(id) }) if id == Value::from(7)
    ));
    assert!(matches!(
        step(&request("notifications/initialized", None), McpProgress::Begin),
        McpAction::Answer(McpAnswer::Accepted)
    ));
    assert!(matches!(
        step(&request("initialize", None), McpProgress::Begin),
        McpAction::CreateSession { tenant_id } if tenant_id == TENANT
    ));
    assert!(matches!(
        step(&request("initialize", None), McpProgress::SessionCreated(USER)),
        McpAction::Answer(McpAnswer::Initialized { session_id, .. }) if session_id == USER
    ));
    assert!(matches!(step(&request("tools/list", None), McpProgress::Begin), McpAction::FindSession { .. }));
    assert!(matches!(
        step(&request("tools/list", None), McpProgress::SessionFound(Some(TENANT))),
        McpAction::Answer(McpAnswer::Tools { .. })
    ));
    assert_eq!(
        failure(step(&request("tools/list", None), McpProgress::SessionFound(Some(USER)))),
        McpError::TenantDrift
    );
}

#[test]
fn tool_calls_run_within_the_tenant_and_are_recorded() {
    let found = || McpProgress::SessionFound(Some(TENANT));
    match step(&request("tools/call", call("search_items")), found()) {
        McpAction::RunTool { tool, tenant_id, args } => {
            assert_eq!(tool, Tool::SearchItems);
            assert_eq!(tenant_id, TENANT);
            assert_eq!(args, object(&[]));
        }
        other => panic!("{other:?}"),
    }
    assert_eq!(failure(step(&request("tools/call", None), found())), McpError::InvalidParams);
    assert_eq!(
        failure(step(&request("tools/call", call("get_item")), McpProgress::SessionFound(None))),
        McpError::SessionNotFound
    );
    match step(&request("tools/call", call("rm")), found()) {
        McpAction::Record { audit, answer } => {
            assert_eq!(audit.action, "mcp.tools.call.rm");
            assert_eq!(audit.outcome, "error");
            assert!(matches!(answer, McpAnswer::Failed { error: McpError::ToolNotFound, .. }));
        }
        other => panic!("{other:?}"),
    }
    let ran = McpProgress::ToolRan(Ok(ToolOutput::Text("hi".to_owned())));
    match step(&request("tools/call", call("get_item")), ran) {
        McpAction::Record { audit, answer } => {
            assert_eq!(audit.outcome, "success");
            assert_eq!(audit.actor_kind, "agent");
            assert_eq!(audit.actor_user_id, Some(USER));
            assert!(matches!(answer, McpAnswer::Called { result: Ok(ToolOutput::Text(t)), .. } if t == "hi"));
        }
        other => panic!("{other:?}"),
    }
    let failed = McpProgress::ToolRan(Err(ToolFailure { error: AppError::NotFound, detail: None }));
    match step(&request("tools/call", call("get_item")), failed) {
        McpAction::Record { audit, answer } => {
            assert_eq!(audit.outcome, "error");
            assert!(matches!(answer, McpAnswer::Called { result: Err(ToolFailure { error: AppError::NotFound, .. }), .. }));
        }
        other => panic!("{other:?}"),
    }
}

// ── Audit ─────────────────────────────────────────────────────────────────

#[test]
fn args_sha256_is_deterministic() {
    let args = object(&[("query", Value::from("my fn"))]);
    let hash1 = args_sha256(&args);
    let hash2 = args_sha256(&args);
    assert_eq!(hash1, hash2);
    assert_eq!(hash1.len(), 64);
}

#[test]
fn args_sha256_of_no_arguments() {
    assert_eq!(
        args_sha256(&object(&[])),
        "44136fa355b3678a1146ad16f7e8649e94fb4fc21fe77e8310c060f61caaff8a"
    );
}

#[test]
fn actor_kind_is_chat_when_ctx_present() {
    let jti = Uuid::new_v4().to_text();
    let ctx = Some(ChatAuditCtx { chat_session_id: Uuid::new_v4(), jti: &jti });
    assert_eq!(actor_kind(&ctx), "chat");
}

#[test]
fn actor_kind_is_agent_when_no_ctx() {
    let ctx: Option<ChatAuditCtx<'_>> = None;
    assert_eq!(actor_kind(&ctx), "agent");
}

#[test]
fn audit_rows_carry_the_hash_and_never_the_arguments() {
    let args = object(&[("query", Value::from("secret"))]);
    let row = tool_call_audit(TENANT, Some(USER), "search_items", &args, "success", None);
    assert_eq!(row.action, "mcp.tools.call.search_items");
    assert_eq!(
        row.payload,
        object(&[("tool", Value::from("search_items")), ("args_sha256", Value::from(args_sha256(&args)))])
    );
    let ctx = ChatAuditCtx { chat_session_id: USER, jti: "j" };
    let row = tool_call_audit(TENANT, None, "get_item", &args, "error", Some(ctx));
    assert_eq!(row.payload["chat_session_id"], USER.to_text().as_str());
    assert_eq!(row.payload["jti"], "j");
    assert_eq!(row.actor_kind, "chat");
}

// ── Search ────────────────────────────────────────────────────────────────

#[test]
fn search_items_requires_query_field() {
    let args = object(&[("limit", Value::from(5))]);
    assert!(matches!(search_request(&args, LIMITS), Err(AppError::InvalidInput)));
    let blank = object(&[("query", Value::from(" \n"))]);
    assert!(matches!(search_request(&blank, LIMITS), Err(AppError::InvalidInput)));
    let number = object(&[("query", Value::from(3))]);
    assert!(matches!(search_request(&number, LIMITS), Err(AppError::InvalidInput)));
}

#[test]
fn get_item_requires_repo_id_and_fqn() {
    let args = object(&[("repo_id", Value::from("not-a-uuid")), ("fqn", Value::from("foo::bar"))]);
    assert!(matches!(
        dispatch_get_item(TENANT, &args, ItemProgress::Begin),
        ItemAction::Fail(AppError::InvalidInput)
    ));
    let valid = object(&[
        ("repo_id", Value::from("550e8400-e29b-41d4-a716-446655440000")),
        ("fqn", Value::from("my_crate::MyStruct")),
    ]);
    assert!(matches!(
        dispatch_get_item(TENANT, &valid, ItemProgress::Begin),
        ItemAction::CheckRepo { repo_id, .. } if repo_id.to_text() == "550e8400-e29b-41d4-a716-446655440000"
    ));
}

fn limited(n: u64) -> Value {
    object(&[("limit", Value::from(n))])
}

#[test]
fn limit_clamping() {
    assert_eq!(search_limit(&limited(200), LIMITS), LIMITS.max_limit);
    assert_eq!(search_limit(&limited(0), LIMITS), 1);
}

#[test]
fn limits_default_and_wrap() {
    assert_eq!(search_limit(&object(&[]), LIMITS), 10);
    assert_eq!(search_limit(&object(&[("limit", Value::from("5"))]), LIMITS), 10);
    assert_eq!(search_limit(&object(&[("limit", Value::from(-1))]), LIMITS), 10);
    assert_eq!(search_limit(&limited(7), LIMITS), 7);
    assert_eq!(search_limit(&limited(0x1_0000_0003), LIMITS), 3);
}

#[test]
fn embeddings_are_asked_for() {
    let r = embed_request("http://o:11434//", "m", "p");
    assert_eq!(r.url, "http://o:11434/api/embeddings");
    assert_eq!(r.body, object(&[("model", Value::from("m")), ("prompt", Value::from("p"))]));
}

fn settings(hybrid: bool) -> SearchSettings {
    SearchSettings { limits: LIMITS, has_vector_store: true, ollama_url: Some("http://o".to_owned()), hybrid }
}

fn search(settings: &SearchSettings, repo: Option<&str>, progress: SearchProgress) -> SearchAction {
    let mut fields = vec![("query", Value::from("q")), ("limit", Value::from(3))];
    if let Some(r) = repo {
        fields.push(("repo_id", Value::from(r)));
    }
    dispatch_search_items(settings, TENANT, &object(&fields), progress)
}

const REPO: &str = "550e8400-e29b-41d4-a716-446655440000";

#[test]
fn searches_check_the_repository_first() {
    let s = settings(false);
    assert!(matches!(search(&s, None, SearchProgress::Begin), SearchAction::Embed { query } if query == "q"));
    assert!(matches!(search(&s, Some("junk"), SearchProgress::Begin), SearchAction::Embed { .. }));
    assert!(matches!(
        search(&s, Some(REPO), SearchProgress::Begin),
        SearchAction::CheckRepo { tenant_id, .. } if tenant_id == TENANT
    ));
    assert!(matches!(
        search(&s, Some(REPO), SearchProgress::RepoChecked(false)),
        SearchAction::Fail(AppError::NotFound)
    ));
    assert!(matches!(search(&s, Some(REPO), SearchProgress::RepoChecked(true)), SearchAction::Embed { .. }));
    assert!(matches!(
        search(&s, None, SearchProgress::Embedded(false)),
        SearchAction::Fail(AppError::ServiceUnavailable)
    ));
    let mut bare = settings(false);
    bare.has_vector_store = false;
    assert!(matches!(
        search(&bare, None, SearchProgress::Begin),
        SearchAction::Fail(AppError::ServiceUnavailable)
    ));
}

#[test]
fn dense_hits_become_json() {
    let s = settings(false);
    assert!(matches!(
        search(&s, None, SearchProgress::Embedded(true)),
        SearchAction::SearchDense { limit: 3, within: None, .. }
    ));
    let hit = DenseHit { fqn: "a::b".to_owned(), repo_id: "r".to_owned(), score: Value::from(0.5) };
    match search(&s, None, SearchProgress::DenseHits(vec![hit])) {
        SearchAction::Done(ToolOutput::Text(text)) => assert_eq!(
            text,
            "[\n  {\n    \"crate_name\": \"a\",\n    \"fqn\": \"a::b\",\n    \"repo_id\": \"r\",\n    \"score\": 0.5\n  }\n]"
        ),
        other => panic!("{other:?}"),
    }
}

#[test]
fn crate_names() {
    assert_eq!(crate_name("a::b::c"), "a");
    assert_eq!(crate_name("a:b"), "a:b");
    assert_eq!(crate_name("::x"), "");
    assert_eq!(crate_name("a:"), "a:");
}

fn hybrid_hit(repo_id: &str, line_start: Option<i64>) -> HybridHit {
    HybridHit {
        repo_id: repo_id.to_owned(),
        source_path: None,
        line_start,
        line_end: Some(9),
        score: Value::from(1),
    }
}

#[test]
fn hybrid_searches_embed_other_forms_of_the_query() {
    let s = settings(true);
    assert!(matches!(search(&s, None, SearchProgress::Embedded(true)), SearchAction::Expand { .. }));
    match search(&s, None, SearchProgress::Expanded(vec!["q".to_owned(), "other".to_owned()])) {
        SearchAction::EmbedVariants(v) => {
            assert_eq!(v.iter().map(|x| x.is_query).collect::<Vec<_>>(), vec![true, false]);
        }
        other => panic!("{other:?}"),
    }
    assert!(matches!(
        search(&s, Some(REPO), SearchProgress::VariantsEmbedded(true)),
        SearchAction::SearchHybrid { limit: 3, within: Some(_), .. }
    ));
    assert!(matches!(
        search(&s, None, SearchProgress::HybridHits(None)),
        SearchAction::Fail(AppError::ServiceUnavailable)
    ));
    assert_eq!(query_variants(vec![], "q").len(), 0);
}

#[test]
fn hits_are_cited_with_the_latest_commit() {
    let a = Uuid { bits: 1 };
    let b = Uuid { bits: 2 };
    let hits = vec![
        hybrid_hit(&b.to_text(), Some(4)),
        hybrid_hit("junk", None),
        hybrid_hit(&a.to_text(), None),
        hybrid_hit(&b.to_text(), None),
    ];
    assert_eq!(hit_repos(&hits), vec![b, a]);
    let commits = vec![RepoCommit { repo_id: b, commit_sha: "c0ffee".to_owned() }];
    let cited = cite(hits, &commits);
    assert_eq!(cited.len(), 4);
    assert_eq!(cited[0].commit_sha, "c0ffee");
    assert_eq!((cited[0].line_start, cited[0].line_end), (4, 9));
    assert_eq!(cited[1].repo_id, Uuid { bits: 0 });
    assert_eq!(cited[1].commit_sha, "unknown");
    assert_eq!(cited[2].commit_sha, "unknown");
    assert_eq!(cited[2].line_start, 0);
    assert_eq!(cited[3].file_path, "");
}

// ── Items ─────────────────────────────────────────────────────────────────

#[test]
fn items_are_shown_as_json() {
    let args = object(&[("repo_id", Value::from(REPO)), ("fqn", Value::from("a::B"))]);
    let step = |p| dispatch_get_item(TENANT, &args, p);
    assert!(matches!(step(ItemProgress::RepoChecked(false)), ItemAction::Fail(AppError::NotFound)));
    assert!(matches!(
        step(ItemProgress::RepoChecked(true)),
        ItemAction::FindSymbol { fqn, .. } if fqn == "a::B"
    ));
    assert!(matches!(
        step(ItemProgress::Found(None)),
        ItemAction::Done(ToolOutput::Text(t)) if t == "No symbol found for the given repo_id and fqn."
    ));
    let symbol = Symbol {
        id: Value::from(5),
        fqn: "a::B".to_owned(),
        kind: "struct".to_owned(),
        source_path: Some("src/lib.rs".to_owned()),
        line_start: Some(1),
        line_end: None,
        source_text: None,
        blob_ref: None,
    };
    match step(ItemProgress::Found(Some(symbol))) {
        ItemAction::Done(ToolOutput::Text(text)) => {
            let v: Value = serde_json::from_str(&text).unwrap();
            assert_eq!(v["id"], 5);
            assert_eq!(v["repo_id"], REPO);
            assert_eq!(v["line_start"], 1);
            assert!(v["line_end"].is_null());
            assert!(text.starts_with("{\n  \"blob_ref\": null,\n"));
        }
        other => panic!("{other:?}"),
    }
}
