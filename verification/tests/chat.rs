use control_api::agents::session_lifecycle::AgentRuntime;
use control_api::agents::sessions::AgentCommand;
use control_api::caller::{ApiKeyInfo, AuthContext, McpJwtInfo, Scope, SessionInfo};
use control_api::chat::db::{ChatMessageRow, ChatSessionRow};
use control_api::chat::events::{chat_session_events, ChatEventsAction};
use control_api::chat::messages::{
    list_chat_messages, post_chat_message, ChatSettings, InsertFailure, KeptMessage, ListAction, ListMessagesParams,
    ListProgress, PostAction, PostMessageRequest, PostMessageResponse, PostProgress, MESSAGE_BODY_MAX_BYTES,
};
use control_api::chat::sessions::{
    create_chat_session, get_chat_session, list_chat_sessions, require_chat_auth, CreateChatAction,
    CreateChatSessionRequest, ListChatAction, ShowChatAction, ShowChatProgress,
};
use control_api::clock::Timestamp;
use control_api::error::AppError;
use control_api::ids::Uuid;

const USER: Uuid = Uuid { bits: 11 };
const TENANT: Uuid = Uuid { bits: 22 };
const CHAT: Uuid = Uuid { bits: 55 };

fn make_verified_session(tenant_id: Uuid, user_id: Uuid) -> AuthContext {
    AuthContext::Session(SessionInfo { session_id: Uuid::new_v4(), user_id, tenant_id, email_verified: true })
}

fn signed_in() -> AuthContext {
    make_verified_session(TENANT, USER)
}

fn key(tenant_id: Uuid, user_id: Uuid, scopes: Vec<Scope>) -> AuthContext {
    AuthContext::ApiKey(ApiKeyInfo { key_id: Uuid::new_v4(), tenant_id, user_id, scopes })
}

#[test]
fn chat_feature_disabled_returns_404() {
    assert_eq!(AppError::ChatFeatureDisabled.status(), 404);
}

#[test]
fn chat_session_not_found_returns_404() {
    assert_eq!(AppError::ChatSessionNotFound.status(), 404);
}

#[test]
fn chat_session_not_active_returns_422() {
    assert_eq!(AppError::ChatSessionNotActive.status(), 422);
}

#[test]
fn verified_session_is_allowed() {
    let tenant = Uuid::new_v4();
    let user = Uuid::new_v4();
    let caller = require_chat_auth(&make_verified_session(tenant, user)).unwrap();
    assert_eq!(caller.tenant_id, tenant);
    assert_eq!(caller.user_id, user);
}

#[test]
fn write_scoped_api_key_is_allowed() {
    let tenant = Uuid::new_v4();
    let user = Uuid::new_v4();
    let caller = require_chat_auth(&key(tenant, user, vec![Scope::Write])).unwrap();
    assert_eq!(caller.tenant_id, tenant);
}

#[test]
fn agent_scoped_api_key_is_allowed() {
    let tenant = Uuid::new_v4();
    assert!(require_chat_auth(&key(tenant, Uuid::new_v4(), vec![Scope::Agent])).is_ok());
}

#[test]
fn unverified_session_is_rejected() {
    let auth = AuthContext::Session(SessionInfo {
        session_id: Uuid::new_v4(),
        user_id: Uuid::new_v4(),
        tenant_id: Uuid::new_v4(),
        email_verified: false,
    });
    assert!(matches!(require_chat_auth(&auth), Err(AppError::EmailNotVerified)));
}

#[test]
fn expired_session_is_rejected() {
    assert!(matches!(require_chat_auth(&AuthContext::ExpiredSession), Err(AppError::SessionExpired)));
}

#[test]
fn anonymous_is_unauthorized() {
    assert!(matches!(require_chat_auth(&AuthContext::Anonymous), Err(AppError::Unauthorized)));
}

#[test]
fn mcp_jwt_is_unauthorized_on_chat_routes() {
    let auth = AuthContext::McpJwt(McpJwtInfo {
        tenant_id: Uuid::new_v4(),
        user_id: Uuid::new_v4(),
        chat_session_id: Uuid::new_v4(),
        scope: vec!["read".to_owned()],
        jti: Uuid::new_v4().to_text(),
    });
    assert!(matches!(require_chat_auth(&auth), Err(AppError::Unauthorized)));
}

#[test]
fn chat_session_not_found_is_tenant_scoped() {
    match get_chat_session(true, &signed_in(), CHAT, ShowChatProgress::Begin) {
        ShowChatAction::FindSession { id, tenant_id } => {
            assert_eq!(id, CHAT);
            assert_eq!(tenant_id, TENANT);
        }
        other => panic!("{other:?}"),
    }
    match get_chat_session(true, &signed_in(), CHAT, ShowChatProgress::Found(None)) {
        ShowChatAction::Refuse(e) => assert_eq!(e.status(), 404),
        other => panic!("{other:?}"),
    }
}

#[test]
fn a_key_without_scopes_is_not_allowed() {
    assert!(matches!(
        require_chat_auth(&key(TENANT, USER, vec![])),
        Err(AppError::InsufficientScope)
    ));
}

// ── Sessions ──────────────────────────────────────────────────────────────

fn session_row(status: &str) -> ChatSessionRow {
    ChatSessionRow {
        id: CHAT,
        tenant_id: TENANT,
        user_id: Some(USER),
        runtime: "pi".to_owned(),
        status: status.to_owned(),
        trace_id: "t".to_owned(),
        created_at: Timestamp { micros: 1 },
        last_activity_at: Timestamp { micros: 2 },
        ended_at: None,
    }
}

fn message_row(seq: i32) -> ChatMessageRow {
    ChatMessageRow {
        id: Uuid { bits: seq as u128 },
        session_id: CHAT,
        seq,
        role: "user".to_owned(),
        body: format!("m{seq}"),
        created_at: Timestamp { micros: 3 },
    }
}

#[test]
fn chat_sessions_start_active_and_without_an_agent() {
    let req = CreateChatSessionRequest { runtime: "claude_code".to_owned() };
    match create_chat_session(true, &signed_in(), &req, None) {
        CreateChatAction::Insert(row) => {
            assert_eq!(row.tenant_id, TENANT);
            assert_eq!(row.trace_id.len(), 32);
            assert!(!row.trace_id.contains('-'));
        }
        other => panic!("{other:?}"),
    }
    match create_chat_session(true, &signed_in(), &req, Some((CHAT, true))) {
        CreateChatAction::Accept(r) => {
            assert_eq!(r.session_id, CHAT);
            assert_eq!(r.status, "active");
        }
        other => panic!("{other:?}"),
    }
    let odd = CreateChatSessionRequest { runtime: "vim".to_owned() };
    assert!(matches!(
        create_chat_session(true, &signed_in(), &odd, None),
        CreateChatAction::Refuse(AppError::InvalidInput)
    ));
    assert!(matches!(
        create_chat_session(false, &signed_in(), &req, None),
        CreateChatAction::Refuse(AppError::ChatFeatureDisabled)
    ));
    assert!(matches!(
        create_chat_session(true, &signed_in(), &req, Some((CHAT, false))),
        CreateChatAction::Refuse(AppError::Internal)
    ));
}

#[test]
fn chat_sessions_are_listed_for_their_user() {
    match list_chat_sessions(true, &signed_in(), None) {
        ListChatAction::Query { tenant_id, user_id, limit } => {
            assert_eq!((tenant_id, user_id, limit), (TENANT, USER, 50));
        }
        other => panic!("{other:?}"),
    }
    match list_chat_sessions(true, &signed_in(), Some(vec![session_row("active"), session_row("ended")])) {
        ListChatAction::Answer(r) => {
            assert_eq!(r.sessions.len(), 2);
            assert_eq!(r.sessions[1].status, "ended");
            assert_eq!(r.sessions[0].trace_id, "t");
        }
        other => panic!("{other:?}"),
    }
}

#[test]
fn a_chat_session_is_shown_with_its_messages() {
    match get_chat_session(true, &signed_in(), CHAT, ShowChatProgress::Found(Some(session_row("active")))) {
        ShowChatAction::ListMessages { session_id, limit, .. } => assert_eq!((session_id, limit), (CHAT, 100)),
        other => panic!("{other:?}"),
    }
    let listed = ShowChatProgress::Listed(session_row("active"), vec![message_row(1), message_row(2)]);
    match get_chat_session(true, &signed_in(), CHAT, listed) {
        ShowChatAction::Answer(dto) => {
            assert_eq!(dto.messages.len(), 2);
            assert_eq!(dto.messages[1].body, "m2");
        }
        other => panic!("{other:?}"),
    }
}

// ── Messages ──────────────────────────────────────────────────────────────

fn chat_settings(has_producer: bool, secret: &str) -> ChatSettings {
    ChatSettings { enabled: true, has_producer, mcp_jwt_secret: secret.to_owned(), mcp_jwt_ttl_secs: 900 }
}

fn post(settings: &ChatSettings, progress: PostProgress) -> PostAction {
    let req = PostMessageRequest { content: "hello".to_owned() };
    post_chat_message(settings, &signed_in(), CHAT, &req, progress)
}

fn kept(seq: i32, runtime: &str) -> KeptMessage {
    KeptMessage { message_id: Uuid { bits: 9 }, seq, runtime: runtime.to_owned() }
}

#[test]
fn the_first_message_starts_the_agent_and_later_ones_do_not() {
    let s = chat_settings(true, "secret");
    assert!(matches!(post(&s, PostProgress::Begin), PostAction::FindSession { .. }));
    match post(&s, PostProgress::Found(Some(session_row("active")))) {
        PostAction::Insert { session_id, role, body, runtime, tenant_id, .. } => {
            assert_eq!((session_id, body.as_str()), (CHAT, "hello"));
            assert_eq!(role, "user");
            assert_eq!(runtime, "pi");
            assert_eq!(tenant_id, TENANT);
        }
        other => panic!("{other:?}"),
    }
    match post(&s, PostProgress::Inserted(Ok(kept(1, "pi")))) {
        PostAction::MintToken { secret, ttl_secs, claims, .. } => {
            assert_eq!((secret.as_str(), ttl_secs), ("secret", 900));
            assert_eq!(claims.sub, CHAT);
            assert_eq!(claims.user_id, USER);
        }
        other => panic!("{other:?}"),
    }
    match post(&s, PostProgress::Minted(kept(1, "pi"), Some("tok".to_owned()))) {
        PostAction::Publish { messages, response } => {
            assert_eq!(messages.len(), 2);
            for m in &messages {
                assert_eq!((m.topic, m.tenant_id), ("rb.agent.commands", TENANT));
                assert_eq!(m.key, CHAT.to_bytes());
                assert_eq!(m.command.session_id, CHAT.to_text());
            }
            match &messages[0].command.command {
                AgentCommand::Start { runtime, initial_prompt, workspace_path, api_key } => {
                    assert_eq!(*runtime, AgentRuntime::Pi);
                    assert_eq!(initial_prompt, "");
                    assert_eq!(workspace_path, &format!("{}/{}", TENANT.to_text(), CHAT.to_text()));
                    assert_eq!(api_key, "tok");
                }
                other => panic!("{other:?}"),
            }
            assert!(matches!(&messages[1].command.command, AgentCommand::Input { input } if input == "hello"));
            assert_eq!(response.seq, 1);
        }
        other => panic!("{other:?}"),
    }
    match post(&s, PostProgress::Inserted(Ok(kept(2, "pi")))) {
        PostAction::Publish { messages, .. } => {
            assert_eq!(messages.len(), 1);
            assert_eq!((messages[0].topic, &messages[0].key), ("rb.agent.commands", &CHAT.to_bytes()));
            assert_eq!(messages[0].command.session_id, CHAT.to_text());
            assert!(matches!(&messages[0].command.command, AgentCommand::Input { input } if input == "hello"));
        }
        other => panic!("{other:?}"),
    }
    let response = PostMessageResponse { message_id: USER, seq: 2 };
    assert!(matches!(post(&s, PostProgress::Published(response, true)), PostAction::Accept(r) if r == response));
}

#[test]
fn refusals_while_posting() {
    let refused = |settings: ChatSettings, p| match post(&settings, p) {
        PostAction::Refuse(e) => e,
        other => panic!("{other:?}"),
    };
    let good = || chat_settings(true, "secret");
    assert_eq!(refused(good(), PostProgress::Found(None)), AppError::ChatSessionNotFound);
    assert_eq!(
        refused(good(), PostProgress::Found(Some(session_row("ended")))),
        AppError::ChatSessionNotActive
    );
    assert_eq!(
        refused(good(), PostProgress::Inserted(Err(InsertFailure::NoSession))),
        AppError::ChatSessionNotFound
    );
    assert_eq!(refused(good(), PostProgress::Inserted(Err(InsertFailure::Database))), AppError::Internal);
    assert_eq!(
        refused(chat_settings(false, "secret"), PostProgress::Inserted(Ok(kept(2, "pi")))),
        AppError::KafkaNotConfigured
    );
    assert_eq!(
        refused(chat_settings(true, ""), PostProgress::Inserted(Ok(kept(1, "pi")))),
        AppError::Internal
    );
    assert_eq!(refused(good(), PostProgress::Inserted(Ok(kept(1, "vim")))), AppError::InvalidInput);
    assert_eq!(refused(good(), PostProgress::Minted(kept(1, "pi"), None)), AppError::Internal);
    let long = PostMessageRequest { content: "x".repeat(MESSAGE_BODY_MAX_BYTES + 1) };
    assert!(matches!(
        post_chat_message(&good(), &signed_in(), CHAT, &long, PostProgress::Begin),
        PostAction::Refuse(AppError::InvalidInput)
    ));
}

#[test]
fn messages_are_listed_page_by_page() {
    let params = |limit| ListMessagesParams { after_seq: Some(3), limit };
    assert_eq!(params(None).effective_limit(), 50);
    assert_eq!(params(Some(0)).effective_limit(), 1);
    assert_eq!(params(Some(1000)).effective_limit(), 200);
    let list = |limit, p| list_chat_messages(true, &signed_in(), CHAT, &params(limit), p);
    assert!(matches!(list(Some(2), ListProgress::Begin), ListAction::FindSession { .. }));
    assert!(matches!(
        list(Some(2), ListProgress::Found(false)),
        ListAction::Refuse(AppError::ChatSessionNotFound)
    ));
    assert!(matches!(
        list(Some(2), ListProgress::Found(true)),
        ListAction::Query { session_id: CHAT, tenant_id: TENANT, after_seq: Some(3), rows: 3 }
    ));
    match list(Some(2), ListProgress::Listed(vec![message_row(4), message_row(5), message_row(6)])) {
        ListAction::Answer(r) => {
            assert!(r.has_more);
            assert_eq!(r.messages.iter().map(|m| m.seq).collect::<Vec<_>>(), vec![4, 5]);
        }
        other => panic!("{other:?}"),
    }
    match list(Some(2), ListProgress::Listed(vec![message_row(4)])) {
        ListAction::Answer(r) => assert!(!r.has_more),
        other => panic!("{other:?}"),
    }
}

#[test]
fn chat_events_follow_the_tenants_feed() {
    let open = |id: Option<&str>, found| chat_session_events(true, &signed_in(), CHAT, id.map(str::to_owned), found);
    assert!(matches!(open(None, None), ChatEventsAction::FindSession { .. }));
    assert!(matches!(open(None, Some(false)), ChatEventsAction::Refuse(AppError::ChatSessionNotFound)));
    assert!(matches!(open(None, Some(true)), ChatEventsAction::Follow { last_event_id: None, .. }));
    assert!(matches!(
        open(Some("7"), Some(true)),
        ChatEventsAction::Follow { session_id: CHAT, last_event_id: Some(id), tenant_id } if id == "7" && tenant_id == TENANT
    ));
}
