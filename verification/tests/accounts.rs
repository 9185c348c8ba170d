use control_api::auth::{
    auto_verifies, build_session_cookie, derive_slug, login, signup, validate_email, AccountSettings, LoginAction,
    LoginProgress, LoginRequest, LoginResponse, LoginUser, SignupAction, SignupProgress, SignupRequest, SignupResponse,
    SignupTokens, VERIFY_TOKEN_TTL_SECS,
};
use control_api::auth_oauth::callback::{
    claude_oauth_callback, keep_tokens, token_expiry, verifier_for, CallbackAction, CallbackProgress, CallbackQuery,
    Exchange, TokenResponse,
};
use control_api::auth_oauth::delete::{claude_oauth_delete, OauthDeleteAction};
use control_api::auth_oauth::start::{
    callback_address, claude_oauth_start, derive_code_challenge, generate_code_verifier, generate_state, oauth_start,
};
use control_api::auth_oauth::token_store::{
    access_token, kept_key_id, must_decrypt, needs_refresh, needs_refresh_at, renew, use_access_token, RefreshResponse,
    SealFailure, StoredTokens, TokenAction, TokenError, TokenProgress,
};
use control_api::auth_oauth::OauthProvider;
use control_api::auth_password_reset::{
    forgot_password, redeem, reset_password, ForgotAction, ForgotPasswordRequest, ForgotProgress, ResetAction, ResetPasswordRequest,
    ResetProgress, ResetToken, RESET_TOKEN_TTL_SECS,
};
use control_api::caller::{AuthContext, SessionInfo};
use control_api::clock::Timestamp;
use control_api::error::AppError;
use control_api::ids::Uuid;

const USER: Uuid = Uuid { bits: 11 };
const TENANT: Uuid = Uuid { bits: 22 };

fn signed_in() -> AuthContext {
    AuthContext::Session(SessionInfo {
        session_id: Uuid { bits: 33 },
        user_id: USER,
        tenant_id: TENANT,
        email_verified: true,
    })
}

fn in_seconds(n: i64) -> Timestamp {
    Timestamp { micros: chrono::Utc::now().timestamp_micros() + n * 1_000_000 }
}

// ── E-mail addresses, slugs, cookies ──────────────────────────────────────

#[test]
fn validate_email_accepts_valid() {
    assert!(validate_email("user@example.com").is_ok());
    assert!(validate_email("a+b@sub.domain.io").is_ok());
}

#[test]
fn validate_email_rejects_no_at() {
    assert!(matches!(validate_email("nodomain"), Err(AppError::InvalidEmail)));
}

#[test]
fn validate_email_rejects_empty_local() {
    assert!(matches!(validate_email("@example.com"), Err(AppError::InvalidEmail)));
}

#[test]
fn validate_email_rejects_no_dot_in_domain() {
    assert!(matches!(validate_email("user@localhost"), Err(AppError::InvalidEmail)));
}

#[test]
fn validate_email_looks_behind_the_first_at_only() {
    assert!(validate_email("a.b@c").is_err());
    assert!(validate_email("a@b@c.d").is_ok());
}

#[test]
fn derive_slug_lowercases_and_hyphenates() {
    let id = Uuid::new_v4();
    let slug = derive_slug("Acme Corp", id);
    assert!(slug.starts_with("acme-corp-"));
    assert!(slug.chars().all(|c| c.is_ascii_alphanumeric() || c == '-'));
}

#[test]
fn derive_slug_collapses_multiple_separators() {
    let id = Uuid::new_v4();
    let slug = derive_slug("Hello   World!!!", id);
    assert!(slug.starts_with("hello-world-"));
}

#[test]
fn derive_slug_empty_name_uses_fallback() {
    let id = Uuid::new_v4();
    let slug = derive_slug("---", id);
    assert!(slug.starts_with("workspace-"));
}

#[test]
fn derive_slug_includes_uuid_suffix() {
    let id = Uuid::new_v4();
    let slug = derive_slug("MyTenant", id);
    let suffix = &id.to_simple_text()[..6];
    assert!(slug.ends_with(suffix));
}

#[test]
fn slugs_are_clean() {
    let id = Uuid { bits: 0xabcdef00_0000_0000_0000_000000000000 };
    assert_eq!(derive_slug("  Ünïcode & Co. ", id), "n-code-co-abcdef");
    assert_eq!(derive_slug("x", id), "x-abcdef");
}

#[test]
fn session_cookies() {
    assert_eq!(build_session_cookie("t", false), "rb_session=t; HttpOnly; SameSite=Lax; Path=/");
    assert_eq!(build_session_cookie("t", true), "rb_session=t; HttpOnly; SameSite=Lax; Path=/; Secure");
}

#[test]
fn login_response_serializes_all_fields() {
    let resp =
        LoginResponse { user_id: Uuid::new_v4(), tenant_id: Uuid::new_v4(), email_verification_required: true };
    let v = resp.to_json();
    assert!(v["user_id"].is_string());
    assert!(v["tenant_id"].is_string());
    assert_eq!(v["email_verification_required"], true);
}

#[test]
fn invalid_credentials_maps_to_401() {
    assert_eq!(AppError::InvalidCredentials.status(), 401);
}

#[test]
fn account_suspended_maps_to_403() {
    assert_eq!(AppError::AccountSuspended.status(), 403);
}

#[test]
fn signup_response_serializes_email_verification_required_false() {
    let resp = SignupResponse { email_verification_required: false, user_id: Uuid::new_v4() };
    let v = resp.to_json();
    assert_eq!(v["email_verification_required"], false);
}

#[test]
fn auto_verify_triggered_for_console_transport() {
    for transport in ["console", "noop"] {
        assert!(auto_verifies(transport));
    }
    assert!(!auto_verifies("smtp"));
}

// ── Signup ────────────────────────────────────────────────────────────────

fn settings(transport: &str, migrates: bool) -> AccountSettings {
    AccountSettings {
        base_url: "http://h".to_owned(),
        email_transport: transport.to_owned(),
        secure_cookies: true,
        migrates,
    }
}

fn account(email: &str, password: &str) -> SignupRequest {
    SignupRequest { email: email.to_owned(), password: password.to_owned(), tenant_name: "Acme".to_owned() }
}

fn tokens() -> SignupTokens {
    SignupTokens { tenant_id: TENANT, user_id: USER, session_token: "s".to_owned(), email_token: "e".to_owned() }
}

#[test]
fn signup_runs_from_the_password_to_the_answer() {
    let body = account("a@b.c", "correct-horse");
    let smtp = settings("smtp", true);
    assert!(matches!(
        signup(&smtp, &body, SignupProgress::Begin),
        SignupAction::HashPassword { password } if password == body.password
    ));
    assert!(matches!(
        signup(&smtp, &body, SignupProgress::Hashed(Some("h".to_owned()))),
        SignupAction::CheckEmail { email, password_hash } if email == body.email && password_hash == "h"
    ));
    match signup(&smtp, &body, SignupProgress::EmailChecked(false, "h".to_owned())) {
        SignupAction::Create(rows) => {
            assert_eq!(rows.slug, derive_slug("Acme", rows.tenant_id));
            assert_eq!((rows.tenant_name, rows.email, rows.password_hash), ("Acme".to_owned(), body.email.clone(), "h".to_owned()));
            assert_eq!((rows.role, rows.verify_ttl_secs), ("owner", 3600));
        }
        other => panic!("{other:?}"),
    }
    assert!(matches!(signup(&smtp, &body, SignupProgress::Created(Some(tokens()))), SignupAction::Migrate(_)));
    match signup(&smtp, &body, SignupProgress::Migrated(tokens(), true)) {
        SignupAction::Compose { to, link, tokens } => {
            assert_eq!(to, body.email);
            assert_eq!(link, "http://h/auth/verify-email?token=e");
            assert_eq!(tokens.session_token, "s");
        }
        other => panic!("{other:?}"),
    }
    match signup(&smtp, &body, SignupProgress::Composed(tokens(), None)) {
        SignupAction::Answer { cookie, response } => {
            assert_eq!(cookie, build_session_cookie("s", true));
            assert_eq!(response.user_id, USER);
            assert!(response.email_verification_required);
        }
        other => panic!("{other:?}"),
    }
    assert_eq!(VERIFY_TOKEN_TTL_SECS, 3600);
}

#[test]
fn signup_counts_addresses_as_verified_where_nothing_is_delivered() {
    let body = account("a@b.c", "correct-horse");
    let console = settings("console", false);
    assert!(matches!(
        signup(&console, &body, SignupProgress::Created(Some(tokens()))),
        SignupAction::MarkVerified(_)
    ));
    assert!(matches!(
        signup(&console, &body, SignupProgress::Verified(tokens(), true)),
        SignupAction::Compose { link, .. } if link == "http://h/auth/verify-email?token=e"
    ));
    match signup(&console, &body, SignupProgress::Composed(tokens(), None)) {
        SignupAction::Answer { response, .. } => assert!(!response.email_verification_required),
        other => panic!("{other:?}"),
    }
}

#[test]
fn signup_refusals() {
    let s = settings("smtp", false);
    let refused = |body: SignupRequest, p| match signup(&s, &body, p) {
        SignupAction::Refuse(e) => e,
        other => panic!("{other:?}"),
    };
    assert_eq!(refused(account("nobody", "correct-horse"), SignupProgress::Begin), AppError::InvalidEmail);
    assert_eq!(refused(account("a@b.c", "elevenchars"), SignupProgress::Begin), AppError::WeakPassword);
    assert_eq!(refused(account("a@b.c", "correct-horse"), SignupProgress::EmailChecked(true, "h".to_owned())), AppError::EmailTaken);
    assert_eq!(refused(account("a@b.c", "correct-horse"), SignupProgress::Created(None)), AppError::Database);
    assert_eq!(refused(account("a@b.c", "correct-horse"), SignupProgress::Hashed(None)), AppError::Internal);
    assert_eq!(
        refused(account("a@b.c", "correct-horse"), SignupProgress::Composed(tokens(), Some(AppError::InvalidEmail))),
        AppError::InvalidEmail
    );
    assert!(matches!(
        signup(&s, &account("a@b.c", "éééééééééééé"), SignupProgress::Begin),
        SignupAction::HashPassword { .. }
    ));
    assert_eq!(refused(account("a@b.c", "ééééééééééé"), SignupProgress::Begin), AppError::WeakPassword);
}

// ── Login ─────────────────────────────────────────────────────────────────

fn user(status: &str) -> LoginUser {
    LoginUser {
        user_id: USER,
        password_hash: "h".to_owned(),
        email_verified: false,
        status: status.to_owned(),
        tenant_id: TENANT,
    }
}

fn credentials() -> LoginRequest {
    LoginRequest { email: "a@b.c".to_owned(), password: "correct-horse".to_owned() }
}

#[test]
fn login_runs_to_the_answer() {
    let login = |secure, p| login(secure, &credentials(), p);
    assert!(matches!(login(true, LoginProgress::Begin), LoginAction::CheckRate { email } if email == "a@b.c"));
    assert!(matches!(
        login(true, LoginProgress::RateChecked(true)),
        LoginAction::FindUser { email } if email == "a@b.c"
    ));
    assert!(matches!(
        login(true, LoginProgress::Found(Some(user("active")))),
        LoginAction::CheckPassword { password, .. } if password == "correct-horse"
    ));
    assert!(matches!(
        login(true, LoginProgress::PasswordChecked(user("active"), Some(true))),
        LoginAction::CreateSession { email, .. } if email == "a@b.c"
    ));
    match login(true, LoginProgress::SessionCreated(user("active"), Some("tok".to_owned()))) {
        LoginAction::Answer { cookie, response } => {
            assert_eq!(cookie, build_session_cookie("tok", true));
            assert_eq!(response.tenant_id, TENANT);
            assert!(response.email_verification_required);
        }
        other => panic!("{other:?}"),
    }
}

#[test]
fn login_refuses_strangers_and_wrong_passwords_alike() {
    let refused = |p| match login(false, &credentials(), p) {
        LoginAction::Refuse { error, dummy_hash, failed_email } => {
            assert!(matches!(failed_email.as_deref(), None | Some("a@b.c")));
            (error, dummy_hash, failed_email.is_some())
        }
        other => panic!("{other:?}"),
    };
    assert_eq!(refused(LoginProgress::Found(None)), (AppError::InvalidCredentials, true, true));
    assert_eq!(
        refused(LoginProgress::PasswordChecked(user("active"), Some(false))),
        (AppError::InvalidCredentials, false, true)
    );
    assert_eq!(
        refused(LoginProgress::PasswordChecked(user("suspended"), Some(true))),
        (AppError::AccountSuspended, false, false)
    );
    assert_eq!(refused(LoginProgress::RateChecked(false)), (AppError::RateLimited, false, false));
    assert_eq!(
        refused(LoginProgress::PasswordChecked(user("active"), None)),
        (AppError::Internal, false, false)
    );
    assert_eq!(refused(LoginProgress::SessionCreated(user("active"), None)), (AppError::Database, false, false));
}

// ── Password reset ────────────────────────────────────────────────────────

#[test]
fn reset_links_are_sent_to_known_addresses_only() {
    let body = ForgotPasswordRequest { email: "a@b.c".to_owned() };
    let forgot_password = |base: &str, p| forgot_password(base, &body, p);
    assert!(matches!(
        forgot_password("http://h", ForgotProgress::Begin),
        ForgotAction::FindUser { email } if email == "a@b.c"
    ));
    assert!(matches!(forgot_password("http://h", ForgotProgress::Found(None)), ForgotAction::DummyHash));
    assert!(matches!(
        forgot_password("http://h", ForgotProgress::Found(Some(USER))),
        ForgotAction::KeepToken { ttl_secs: RESET_TOKEN_TTL_SECS, .. }
    ));
    match forgot_password("http://h", ForgotProgress::TokenKept("t".to_owned())) {
        ForgotAction::SendLink { to, link } => {
            assert_eq!((to.as_str(), link.as_str()), ("a@b.c", "http://h/auth/reset-password?token=t"));
        }
        other => panic!("{other:?}"),
    }
}

fn reset(password: &str, progress: ResetProgress) -> ResetAction {
    let body = ResetPasswordRequest { token: "abc".to_owned(), new_password: password.to_owned() };
    reset_password(&body, progress)
}

#[test]
fn reset_looks_the_token_up_by_its_digest() {
    assert!(matches!(reset("short", ResetProgress::Begin), ResetAction::Refuse(AppError::WeakPassword)));
    assert!(matches!(reset("correct-horse", ResetProgress::Begin), ResetAction::HashPassword { password } if password == "correct-horse"));
    match reset("correct-horse", ResetProgress::Hashed(Some("h".to_owned()))) {
        ResetAction::FindToken { token_hash, .. } => assert_eq!(
            token_hash,
            "ba7816bf8f01cfea414140de5dae2223b00361a396177a9cb410ff61f20015ad"
        ),
        other => panic!("{other:?}"),
    }
    assert!(matches!(
        reset("correct-horse", ResetProgress::Found(None, "h".to_owned())),
        ResetAction::Refuse(AppError::InvalidToken)
    ));
}

#[test]
fn a_reset_token_is_good_once_and_for_a_time() {
    let token = |used, expires_at| Some(ResetToken { user_id: USER, used, expires_at });
    assert!(matches!(
        reset("correct-horse", ResetProgress::Found(token(false, in_seconds(60)), "h".to_owned())),
        ResetAction::Reset { user_id: USER, password_hash, .. } if password_hash == "h"
    ));
    assert!(matches!(
        reset("correct-horse", ResetProgress::Found(token(true, in_seconds(60)), "h".to_owned())),
        ResetAction::Refuse(AppError::InvalidToken)
    ));
    assert!(matches!(
        reset("correct-horse", ResetProgress::Found(token(false, in_seconds(-60)), "h".to_owned())),
        ResetAction::Refuse(AppError::InvalidToken)
    ));
    let t = ResetToken { user_id: USER, used: false, expires_at: Timestamp { micros: 5 } };
    assert!(matches!(redeem(&t, String::new(), "h".to_owned(), 5000), ResetAction::Reset { .. }));
    assert!(matches!(redeem(&t, String::new(), "h".to_owned(), 5001), ResetAction::Refuse(AppError::InvalidToken)));
}

// ── OAuth ─────────────────────────────────────────────────────────────────

#[test]
fn code_challenge_is_base64url_no_pad() {
    let verifier = "test_verifier_value_for_unit_test";
    let challenge = derive_code_challenge(verifier);
    assert!(!challenge.contains('+'));
    assert!(!challenge.contains('/'));
    assert!(!challenge.contains('='));
}

#[test]
fn code_challenge_of_the_rfc_example() {
    assert_eq!(
        derive_code_challenge("dBjftJeZ4CVP-mB92K27uhbUJU1p1r_wW1gFWFOEjXk"),
        "E9Melhoa2OwvFrEMTJguCHaoeK1t8URWbuGJSstw-cM"
    );
}

#[test]
fn code_verifier_is_64_chars() {
    let v = generate_code_verifier();
    assert_eq!(v.len(), 64);
    assert_ne!(v, generate_code_verifier());
}

#[test]
fn state_is_32_chars() {
    let s = generate_state();
    assert_eq!(s.len(), 32);
    assert!(s.chars().all(|c| c.is_ascii_alphanumeric()));
}

fn provider() -> OauthProvider {
    OauthProvider {
        name: "acme".to_owned(),
        authorize_url: "https://acme.test/oauth/authorize".to_owned(),
        token_url: "https://acme.test/oauth/token".to_owned(),
    }
}

#[test]
fn oauth_starts_at_the_consent_screen() {
    let s = oauth_start(&provider(), "cid", "http://h", true, "ver", "sta");
    assert_eq!(
        s.location,
        format!(
            "https://acme.test/oauth/authorize?response_type=code&client_id=cid&redirect_uri=http%3A%2F%2Fh%2Fv1%2F\
             auth%2Foauth%2Facme%2Fcallback&code_challenge={}&code_challenge_method=S256&state=sta",
            derive_code_challenge("ver")
        )
    );
    assert_eq!(
        s.cookie,
        "rb_pkce_state=sta:ver; HttpOnly; SameSite=Lax; Path=/; Max-Age=600; Secure"
    );
    assert!(matches!(
        claude_oauth_start(&AuthContext::Anonymous, &provider(), &Some("c".to_owned()), "http://h", false),
        Err(AppError::Unauthorized)
    ));
    assert!(matches!(
        claude_oauth_start(&signed_in(), &provider(), &None, "http://h", false),
        Err(AppError::RuntimeNotConfigured)
    ));
    let a = claude_oauth_start(&signed_in(), &provider(), &Some("c".to_owned()), "http://h", false).unwrap();
    let b = claude_oauth_start(&signed_in(), &provider(), &Some("c".to_owned()), "http://h", false).unwrap();
    assert_ne!(a.location, b.location);
}

fn query(state: &str) -> CallbackQuery {
    CallbackQuery { code: "c0de".to_owned(), state: state.to_owned(), error: None }
}

#[test]
fn a_callback_answers_its_own_flow_only() {
    let cookie = Some("sta:ver:ifier".to_owned());
    assert_eq!(verifier_for(&query("sta"), &cookie).as_deref(), Some("ver:ifier"));
    assert_eq!(verifier_for(&query("other"), &cookie), None);
    assert_eq!(verifier_for(&query("sta"), &None), None);
    assert_eq!(verifier_for(&query("sta"), &Some("sta".to_owned())), None);
    let mut denied = query("sta");
    denied.error = Some("access_denied".to_owned());
    assert_eq!(verifier_for(&denied, &cookie), None);
}

fn callback(progress: CallbackProgress) -> CallbackAction {
    let cookie = Some("sta:ver".to_owned());
    claude_oauth_callback(&signed_in(), &provider(), &query("sta"), &cookie, &Some("cid".to_owned()), "http://h", progress)
}

fn token_response(expires_in: Option<i64>) -> TokenResponse {
    TokenResponse {
        access_token: "a".to_owned(),
        refresh_token: Some("r".to_owned()),
        expires_in,
        scope: Some(" user:inference  user:profile".to_owned()),
    }
}

#[test]
fn a_callback_exchanges_keeps_and_redirects() {
    match callback(CallbackProgress::Begin) {
        CallbackAction::Exchange(form) => {
            assert_eq!(form.grant_type, "authorization_code");
            assert_eq!(form.code, "c0de");
            assert_eq!(form.redirect_uri, callback_address("http://h", &provider()));
            assert_eq!(form.client_id, "cid");
            assert_eq!(form.code_verifier, "ver");
        }
        other => panic!("{other:?}"),
    }
    match callback(CallbackProgress::Exchanged(Exchange::Tokens(token_response(Some(60))))) {
        CallbackAction::Keep(upsert) => {
            assert_eq!(upsert.tenant_id, TENANT);
            assert_eq!(upsert.user_id, USER);
            assert_eq!(upsert.scopes, vec!["user:inference", "user:profile"]);
            assert!(upsert.expires_at.is_some());
        }
        other => panic!("{other:?}"),
    }
    match callback(CallbackProgress::Kept(true)) {
        CallbackAction::Redirect { location } => {
            assert_eq!(location, "http://h/settings/integrations?oauth=acme&status=success")
        }
        other => panic!("{other:?}"),
    }
    assert_eq!(callback_address("http://h", &provider()), "http://h/v1/auth/oauth/acme/callback");
}

#[test]
fn callback_refusals() {
    let refused = |action| match action {
        CallbackAction::Refuse(e) => e,
        other => panic!("{other:?}"),
    };
    assert_eq!(refused(callback(CallbackProgress::Exchanged(Exchange::Unreachable))), AppError::Internal);
    assert_eq!(refused(callback(CallbackProgress::Exchanged(Exchange::Rejected))), AppError::InvalidToken);
    assert_eq!(refused(callback(CallbackProgress::Exchanged(Exchange::Unreadable))), AppError::Internal);
    assert_eq!(refused(callback(CallbackProgress::Kept(false))), AppError::Internal);
    let no_cookie = claude_oauth_callback(
        &signed_in(),
        &provider(),
        &query("sta"),
        &None,
        &Some("cid".to_owned()),
        "http://h",
        CallbackProgress::Begin,
    );
    assert_eq!(refused(no_cookie), AppError::InvalidToken);
}

#[test]
fn lifetimes_become_expiries() {
    assert_eq!(token_expiry(1_000_000_000, Some(60)), Some(Some(Timestamp { micros: 61_000_000 })));
    assert_eq!(token_expiry(0, Some(-1)), Some(Some(Timestamp { micros: -1_000_000 })));
    assert_eq!(token_expiry(0, None), Some(None));
    assert_eq!(token_expiry(0, Some(i64::MAX)), None);
    match keep_tokens(TENANT, USER, token_response(Some(60)), 1_000_000_000) {
        CallbackAction::Keep(upsert) => assert_eq!(upsert.expires_at, Some(Timestamp { micros: 61_000_000 })),
        other => panic!("{other:?}"),
    }
    assert!(matches!(
        keep_tokens(TENANT, USER, token_response(Some(i64::MAX)), 0),
        CallbackAction::Refuse(AppError::Internal)
    ));
}

#[test]
fn connections_can_be_removed() {
    match claude_oauth_delete(&signed_in(), None) {
        OauthDeleteAction::Delete { tenant_id, user_id } => {
            assert_eq!(tenant_id, TENANT);
            assert_eq!(user_id, USER);
        }
        other => panic!("{other:?}"),
    }
    assert!(matches!(claude_oauth_delete(&signed_in(), Some(Some(1))), OauthDeleteAction::Gone));
    assert!(matches!(
        claude_oauth_delete(&AuthContext::ExpiredSession, None),
        OauthDeleteAction::Refuse(AppError::SessionExpired)
    ));
}

// ── Token store ───────────────────────────────────────────────────────────

#[test]
fn refresh_triggered_when_expiry_within_lead() {
    assert!(needs_refresh(Some(in_seconds(30)), 60));
}

#[test]
fn no_refresh_when_expiry_beyond_lead() {
    assert!(!needs_refresh(Some(in_seconds(120)), 60));
}

#[test]
fn no_refresh_when_expiry_absent() {
    assert!(!needs_refresh(None, 60));
}

#[test]
fn refresh_at_exact_boundary_uses_strict_less_than() {
    assert!(!needs_refresh(Some(in_seconds(62)), 60));
    assert!(!needs_refresh_at(0, Some(Timestamp { micros: 60_000_000 }), 60));
    assert!(needs_refresh_at(1, Some(Timestamp { micros: 60_000_000 }), 60));
}

#[test]
fn refresh_lead_secs_zero_never_triggers() {
    assert!(!needs_refresh(Some(in_seconds(1)), 0));
}

fn stored(expires_at: Option<Timestamp>) -> TokenProgress {
    TokenProgress::AccessClear { token: Some("a".to_owned()), refresh_token: Some("r".to_owned()), expires_at }
}

#[test]
fn a_fresh_token_is_returned_and_an_old_one_refreshed() {
    assert!(matches!(access_token("cid", 60, TokenProgress::Begin), TokenAction::FindTokens));
    let tokens = StoredTokens { access_token: "x".to_owned(), refresh_token: None, expires_at: None };
    assert!(matches!(
        access_token("cid", 60, TokenProgress::Found(Ok(Some(tokens)))),
        TokenAction::ClearAccess(_)
    ));
    assert!(matches!(
        access_token("cid", 60, stored(Some(in_seconds(600)))),
        TokenAction::Return { result: Ok(t), audit: None } if t == "a"
    ));
    assert!(matches!(
        access_token("cid", 60, stored(Some(in_seconds(5)))),
        TokenAction::ClearRefresh { stored } if stored == "r"
    ));
    match access_token("cid", 60, TokenProgress::RefreshClear(Some("r".to_owned()))) {
        TokenAction::Refresh(form) => {
            assert_eq!(form.grant_type, "refresh_token");
            assert_eq!(form.refresh_token, "r");
            assert_eq!(form.client_id, "cid");
        }
        other => panic!("{other:?}"),
    }
    let resp = RefreshResponse { access_token: "n".to_owned(), refresh_token: None, expires_in: None };
    assert!(matches!(
        access_token("cid", 60, TokenProgress::Refreshed(Ok(resp))),
        TokenAction::Keep { access_token, expires_at: None, .. } if access_token == "n"
    ));
    assert!(matches!(
        access_token("cid", 60, TokenProgress::Kept(Ok("n".to_owned()))),
        TokenAction::Return { result: Ok(t), audit: Some("success") } if t == "n"
    ));
}

#[test]
fn what_follows_a_token_depends_on_the_time() {
    let expires = Some(Timestamp { micros: 1_000_000_000 });
    let at = |seconds: i128, refresh: Option<&str>| {
        use_access_token("a".to_owned(), refresh.map(str::to_owned), expires, 60, seconds * 1_000_000_000)
    };
    assert!(matches!(
        at(940, Some("r")),
        TokenAction::Return { result: Ok(t), audit: None } if t == "a"
    ));
    assert!(matches!(at(941, Some("r")), TokenAction::ClearRefresh { stored } if stored == "r"));
    assert!(matches!(at(2000, Some("r")), TokenAction::ClearRefresh { .. }));
    assert!(matches!(
        at(941, None),
        TokenAction::Return { result: Err(TokenError::TokenMissing { runtime_kind: "claude_code" }), audit: Some("failure") }
    ));
}

#[test]
fn a_renewed_token_is_kept_with_its_new_expiry() {
    let resp = |expires_in| RefreshResponse {
        access_token: "n".to_owned(),
        refresh_token: Some("m".to_owned()),
        expires_in,
    };
    assert!(matches!(
        renew(resp(Some(30)), 2_000_001_000),
        TokenAction::Keep { access_token, refresh_token: Some(r), expires_at: Some(Timestamp { micros: 32_000_001 }) }
            if access_token == "n" && r == "m"
    ));
    assert!(matches!(renew(resp(None), 0), TokenAction::Keep { expires_at: None, .. }));
    assert!(matches!(
        renew(resp(Some(i64::MAX)), 0),
        TokenAction::Return { result: Err(TokenError::Internal(_)), audit: Some("failure") }
    ));
}

#[test]
fn a_reset_token_works_once() {
    let mut t = ResetToken { user_id: USER, used: false, expires_at: Timestamp { micros: 5 } };
    assert!(matches!(redeem(&t, String::new(), "h".to_owned(), 0), ResetAction::Reset { user_id: USER, .. }));
    t.used = true;
    for now in [0, 5000, i128::MAX, i128::MIN] {
        assert!(matches!(redeem(&t, String::new(), "h".to_owned(), now), ResetAction::Refuse(AppError::InvalidToken)));
    }
    let body = ResetPasswordRequest { token: "t".to_owned(), new_password: "another-horse".to_owned() };
    assert!(matches!(
        reset_password(&body, ResetProgress::Found(Some(t), "h".to_owned())),
        ResetAction::Refuse(AppError::InvalidToken)
    ));
}

#[test]
fn token_failures_are_told_and_refreshes_audited() {
    let failed = |p| match access_token("cid", 60, p) {
        TokenAction::Return { result: Err(e), audit } => (format!("{e:?}"), audit),
        other => panic!("{other:?}"),
    };
    let gone = "TokenMissing { runtime_kind: \"claude_code\" }".to_owned();
    let locked = "Internal(\"OAuth token decryption failed\")".to_owned();
    assert_eq!(failed(TokenProgress::Found(Ok(None))), (gone.clone(), None));
    assert_eq!(
        failed(TokenProgress::Found(Err("down".to_owned()))),
        ("Internal(\"DB error fetching OAuth token: down\")".to_owned(), None)
    );
    let sealed = TokenProgress::AccessClear { token: None, refresh_token: None, expires_at: None };
    assert_eq!(failed(sealed), (locked.clone(), None));
    assert_eq!(
        failed(TokenProgress::Kept(Err(SealFailure::Access("x".to_owned())))),
        ("Internal(\"encrypt access_token: x\")".to_owned(), Some("failure"))
    );
    assert_eq!(
        failed(TokenProgress::Kept(Err(SealFailure::Refresh("y".to_owned())))),
        ("Internal(\"encrypt refresh_token: y\")".to_owned(), Some("failure"))
    );
    assert_eq!(
        failed(TokenProgress::Refreshed(Err(TokenError::AnthropicApi { status: 400, message: "no".to_owned() }))),
        ("AnthropicApi { status: 400, message: \"no\" }".to_owned(), Some("failure"))
    );
    assert_eq!(failed(TokenProgress::RefreshClear(None)), (locked, Some("failure")));
    let missing = TokenProgress::AccessClear {
        token: Some("a".to_owned()),
        refresh_token: None,
        expires_at: Some(in_seconds(1)),
    };
    assert_eq!(failed(missing), (gone, Some("failure")));
    assert_eq!(kept_key_id(Some("k1".to_owned())), "k1");
    assert_eq!(kept_key_id(None), "none");
    assert!(must_decrypt(true, true));
    assert!(!must_decrypt(true, false));
    assert!(!must_decrypt(false, true));
}
