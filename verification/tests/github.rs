use control_api::caller::{AuthContext, SessionInfo};
use control_api::error::AppError;
use control_api::github::install::{
    github_callback, github_install_url, Account, CallbackAction, CallbackFacts, CallbackParams, Initiator,
    InstallUrlAction, InstallUrlFacts, InstallUrlResponse,
};
use control_api::github::repos::{
    default_page, default_per_page, list_available_repos, shown_repositories, token_mint_error, QueryParams,
    RepoItemResponse, RepoPage, ReposAction, ReposFacts, TokenMint,
};
use control_api::ids::Uuid;
use control_api::state_token::{issue_state_token, read_state_token, state_token};

const USER: Uuid = Uuid { bits: 11 };
const TENANT: Uuid = Uuid { bits: 22 };

fn signed_in() -> AuthContext {
    AuthContext::Session(SessionInfo {
        session_id: Uuid { bits: 33 },
        user_id: USER,
        tenant_id: TENANT,
        email_verified: true,
    })
}

#[test]
fn install_url_response_serializes() {
    let resp = InstallUrlResponse {
        url: "https://github.com/apps/my-app/installations/new?state=abc".to_owned(),
        state_token: "abc".to_owned(),
    };
    let v = resp.to_json();
    assert!(v["url"].as_str().unwrap().contains("state=abc"));
    assert_eq!(v["state_token"], "abc");
}

#[test]
fn state_token_round_trip() {
    let raw = [0xdeu8; 32];
    let token = state_token(&raw);
    assert_eq!(token.text, "de".repeat(32));
    assert_eq!(read_state_token(&token.text).unwrap(), token.hash);
    assert_eq!(read_state_token(&token.text.to_uppercase()).unwrap(), token.hash);
}

#[test]
fn state_token_invalid_hex_is_rejected() {
    assert!(read_state_token("not-valid-hex!").is_err());
    assert_eq!(read_state_token("abc"), Err(AppError::InvalidToken));
}

#[test]
fn issued_state_tokens_differ() {
    let a = issue_state_token();
    let b = issue_state_token();
    assert_eq!(a.text.len(), 64);
    assert_ne!(a.text, b.text);
    assert_eq!(read_state_token(&a.text).unwrap(), a.hash);
}

#[test]
fn github_installation_conflict_is_409() {
    assert_eq!(AppError::GithubInstallationConflict.status(), 409);
}

#[test]
fn install_urls_carry_a_stored_state() {
    let step = |configured, slug, stored| {
        github_install_url(&signed_in(), configured, InstallUrlFacts { slug, stored })
    };
    assert!(matches!(
        step(false, None, None),
        InstallUrlAction::Refuse(AppError::GithubAppNotConfigured)
    ));
    assert!(matches!(step(true, None, None), InstallUrlAction::CheckIdentity));
    assert!(matches!(step(true, Some(None), None), InstallUrlAction::Refuse(AppError::Internal)));
    match step(true, Some(Some("my-app".to_owned())), None) {
        InstallUrlAction::Store { token, tenant_id, user_id, ttl_secs } => {
            assert_eq!(ttl_secs, 600);
            assert_eq!(token.text.len(), 64);
            assert_eq!((tenant_id, user_id), (TENANT, USER));
        }
        other => panic!("{other:?}"),
    }
    let token = state_token(&[1u8; 32]);
    match step(true, Some(Some("my-app".to_owned())), Some(token)) {
        InstallUrlAction::Answer(r) => assert_eq!(
            r.url,
            format!("https://github.com/apps/my-app/installations/new?state={}", "01".repeat(32))
        ),
        other => panic!("{other:?}"),
    }
}

fn callback(state: Option<&str>, facts: CallbackFacts) -> CallbackAction {
    let params = CallbackParams { installation_id: 77, state: state.map(str::to_owned), setup_action: None };
    github_callback(true, &params, "http://h", &facts)
}

fn known(account: Option<Option<Account>>, upserted: Option<Option<Uuid>>) -> CallbackFacts {
    CallbackFacts { claimed: Some(Some(Initiator { tenant_id: TENANT, user_id: USER })), account, upserted }
}

fn someone() -> Option<Option<Account>> {
    Some(Some(Account { login: "a b".to_owned(), kind: "User".to_owned(), id: 5 }))
}

#[test]
fn a_callback_binds_the_installation_to_the_tenant_that_asked() {
    let token = state_token(&[2u8; 32]);
    let text = Some(token.text.as_str());
    let nothing = CallbackFacts { claimed: None, account: None, upserted: None };
    match callback(text, nothing) {
        CallbackAction::Claim { token_hash } => assert_eq!(token_hash, token.hash),
        other => panic!("{other:?}"),
    }
    assert!(matches!(
        callback(text, known(None, None)),
        CallbackAction::FetchInstallation { installation_id: 77 }
    ));
    match callback(text, known(someone(), None)) {
        CallbackAction::Upsert { tenant_id, login, account_id, installation_id, .. } => {
            assert_eq!(tenant_id, TENANT);
            assert_eq!(login, "a b");
            assert_eq!((account_id, installation_id), (5, 77));
        }
        other => panic!("{other:?}"),
    }
    match callback(text, known(someone(), Some(Some(Uuid { bits: 3 })))) {
        CallbackAction::Redirect { location } => assert_eq!(
            location,
            "http://h/repos?install=success&installation_uuid=00000000-0000-0000-0000-000000000003&account_login=a%20b"
        ),
        other => panic!("{other:?}"),
    }
    match callback(text, known(someone(), Some(None))) {
        CallbackAction::Redirect { location } => assert_eq!(location, "http://h/repos?install=conflict"),
        other => panic!("{other:?}"),
    }
}

#[test]
fn callbacks_without_a_good_state() {
    let nothing = || CallbackFacts { claimed: None, account: None, upserted: None };
    for state in [None, Some("")] {
        match callback(state, nothing()) {
            CallbackAction::Redirect { location } => assert_eq!(location, "http://h/repos"),
            other => panic!("{other:?}"),
        }
    }
    assert!(matches!(callback(Some("zz"), nothing()), CallbackAction::Refuse(AppError::InvalidToken)));
    let gone = CallbackFacts { claimed: Some(None), account: None, upserted: None };
    assert!(matches!(callback(Some("00"), gone), CallbackAction::Refuse(AppError::InvalidToken)));
    assert!(matches!(
        callback(Some("00"), known(Some(None), None)),
        CallbackAction::Refuse(AppError::Internal)
    ));
}

// ── Repositories ──────────────────────────────────────────────────────────

#[test]
fn installation_for_different_app_returns_409() {
    let err = AppError::InstallationForDifferentApp {
        install_url: "https://github.com/apps/rustacean-dev-4/installations/new".to_owned(),
    };
    assert_eq!(err.status(), 409);
}

#[test]
fn token_mint_404_maps_to_installation_for_different_app_not_internal() {
    let app_err = token_mint_error(TokenMint::ApiError { status: 404 }, &Some("test".to_owned())).unwrap();
    assert_eq!(
        app_err,
        AppError::InstallationForDifferentApp {
            install_url: "https://github.com/apps/test/installations/new".to_owned()
        }
    );
    assert_eq!(app_err.status(), 409);
}

#[test]
fn token_mint_401_maps_to_installation_for_different_app() {
    let app_err = token_mint_error(TokenMint::ApiError { status: 401 }, &Some("test".to_owned())).unwrap();
    assert!(matches!(app_err, AppError::InstallationForDifferentApp { .. }));
}

#[test]
fn token_mint_500_maps_to_internal() {
    let app_err = token_mint_error(TokenMint::ApiError { status: 500 }, &Some("test".to_owned())).unwrap();
    assert!(matches!(app_err, AppError::Internal));
    assert_eq!(app_err.status(), 500);
}

#[test]
fn other_mint_outcomes() {
    assert_eq!(token_mint_error(TokenMint::Minted, &None), None);
    assert_eq!(token_mint_error(TokenMint::OtherError, &None), Some(AppError::Internal));
    assert_eq!(
        token_mint_error(TokenMint::ApiError { status: 404 }, &None),
        Some(AppError::InstallationForDifferentApp { install_url: "https://github.com/apps".to_owned() })
    );
}

fn repo(id: i64, archived: bool) -> RepoItemResponse {
    RepoItemResponse {
        id,
        name: "n".to_owned(),
        full_name: "o/n".to_owned(),
        private: false,
        archived,
        default_branch: "main".to_owned(),
        html_url: "u".to_owned(),
    }
}

#[test]
fn archived_repositories_are_left_out_unless_asked_for() {
    let ids = |v: Vec<RepoItemResponse>| v.iter().map(|r| r.id).collect::<Vec<_>>();
    let all = || vec![repo(1, false), repo(2, true), repo(3, false)];
    assert_eq!(ids(shown_repositories(all(), false)), vec![1, 3]);
    assert_eq!(ids(shown_repositories(all(), true)), vec![1, 2, 3]);
}

#[test]
fn repositories_are_listed_page_by_page() {
    assert_eq!((default_page(), default_per_page()), (1, 30));
    let nothing = || ReposFacts { installation: None, token: None, active_slug: None, listed: None };
    let step = |page, per_page, facts| {
        let params = QueryParams { page, per_page, include_archived: false };
        list_available_repos(&signed_in(), Uuid { bits: 8 }, &params, true, facts)
    };
    assert!(matches!(step(1, 30, nothing()), ReposAction::FindInstallation { tenant_id, .. } if tenant_id == TENANT));
    let gone = ReposFacts { installation: Some(None), ..nothing() };
    assert!(matches!(step(1, 30, gone), ReposAction::Refuse(AppError::NotFound)));
    let found = ReposFacts { installation: Some(Some(7)), ..nothing() };
    assert!(matches!(step(1, 30, found), ReposAction::MintToken { installation_id: 7 }));
    let minted = ReposFacts { installation: Some(Some(7)), token: Some(TokenMint::Minted), ..nothing() };
    assert!(matches!(step(0, 500, minted), ReposAction::ListPage { installation_id: 7, page: 1, per_page: 100 }));
    let foreign =
        ReposFacts { installation: Some(Some(7)), token: Some(TokenMint::ApiError { status: 404 }), ..nothing() };
    assert!(matches!(step(1, 30, foreign), ReposAction::FindActiveSlug));
    let listed = ReposFacts {
        installation: Some(Some(7)),
        token: Some(TokenMint::Minted),
        active_slug: None,
        listed: Some(Some(RepoPage { total_count: 9, repositories: vec![repo(1, true), repo(2, false)] })),
    };
    match step(2, 0, listed) {
        ReposAction::Answer(r) => {
            assert_eq!((r.total_count, r.page, r.per_page), (9, 2, 1));
            assert_eq!(r.repositories.len(), 1);
        }
        other => panic!("{other:?}"),
    }
}
