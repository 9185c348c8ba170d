//! `GET /v1/github/install-url` and `GET /v1/github/callback`: install the GitHub
//! App for a tenant.

use crate::caller::{require_verified_session, verified_session, AuthContext};
use crate::clock::Timestamp;
use crate::digest::{percent_encoded, url_encode};
use crate::error::AppError;
use crate::ids::Uuid;
use crate::json::{self, json_of, Json};
use crate::state_token::{
    issue_state_token, presented, read_state_token, state_tokens_are_single_use, ClaimAttempt, StateTable, StateToken,
    STATE_TOKEN_TTL_SECS,
};
use vstd::prelude::*;
use vstd::string::*;
use vstd::utf8::*;

verus! {

#[derive(Debug)]
pub struct InstallUrlResponse {
    /// GitHub App install URL to open in the browser.
    pub url: String,
    /// The state token in the URL.
    pub state_token: String,
}

impl InstallUrlResponse {
    /// The response in JSON.
    pub fn to_json(&self) -> (v: serde_json::Value)
        ensures
            json_of(v) == Json::Object(
                map!["url"@ => Json::Str(self.url@), "state_token"@ => Json::Str(self.state_token@)],
            ),
    {
        let v = json::with(json::object(), "url", json::string(self.url.as_str()));
        json::with(v, "state_token", json::string(self.state_token.as_str()))
    }
}

/// What is known so far while an install URL is made.
#[derive(Debug)]
pub struct InstallUrlFacts {
    /// The App's slug; `Some(None)` where GitHub does not tell it.
    pub slug: Option<Option<String>>,
    /// The state token that was kept.
    pub stored: Option<StateToken>,
}

/// What to do next.
#[derive(Debug)]
pub enum InstallUrlAction {
    /// Ask GitHub who the App is.
    CheckIdentity,
    /// Keep the token for so many seconds, for this tenant and user.
    Store { token: StateToken, tenant_id: Uuid, user_id: Uuid, ttl_secs: i64 },
    /// Answer.
    Answer(InstallUrlResponse),
    /// Refuse.
    Refuse(AppError),
}

/// The URL at which the App with `slug` is installed, with the state `token`.
pub open spec fn install_url(slug: Seq<char>, token: Seq<char>) -> Seq<char> {
    "https://github.com/apps/"@ + slug + "/installations/new?state="@ + token
}

/// The next step of making an install URL.
pub fn github_install_url(auth: &AuthContext, configured: bool, facts: InstallUrlFacts) -> (action: InstallUrlAction)
    ensures
        match verified_session(*auth) {
            Err(e) => action == InstallUrlAction::Refuse(e),
            Ok(session) => if !configured {
                action == InstallUrlAction::Refuse(AppError::GithubAppNotConfigured)
            } else {
                match (facts.slug, facts.stored) {
                    (None, _) => action is CheckIdentity,
                    (Some(None), _) => action == InstallUrlAction::Refuse(AppError::Internal),
                    (Some(Some(_)), None) => action matches InstallUrlAction::Store {
                        token,
                        tenant_id,
                        user_id,
                        ttl_secs,
                    } && token.issued() && tenant_id == session.tenant_id && user_id == session.user_id && ttl_secs
                        == STATE_TOKEN_TTL_SECS,
                    (Some(Some(slug)), Some(token)) => action matches InstallUrlAction::Answer(resp) && resp.url@
                        == install_url(slug@, token.text@) && resp.state_token@ == token.text@,
                }
            },
        },
        action matches InstallUrlAction::Answer(resp) ==> (facts.slug matches Some(Some(slug)) && resp.url@
            == "https://github.com/apps/"@ + slug@ + "/installations/new?state="@ + resp.state_token@),
        action matches InstallUrlAction::Store { tenant_id, user_id, ttl_secs, .. } ==> ttl_secs == 600 && (auth
            matches AuthContext::Session(info) && tenant_id == info.tenant_id && user_id == info.user_id),
{
    let session = match require_verified_session(auth) {
        Ok(s) => s,
        Err(e) => return InstallUrlAction::Refuse(e),
    };
    if !configured {
        return InstallUrlAction::Refuse(AppError::GithubAppNotConfigured);
    }
    match facts.slug {
        None => InstallUrlAction::CheckIdentity,
        Some(None) => InstallUrlAction::Refuse(AppError::Internal),
        Some(Some(slug)) => match facts.stored {
            None => InstallUrlAction::Store {
                token: issue_state_token(),
                tenant_id: session.tenant_id,
                user_id: session.user_id,
                ttl_secs: STATE_TOKEN_TTL_SECS,
            },
            Some(token) => {
                let mut url = "https://github.com/apps/".to_owned();
                url.append(slug.as_str());
                url.append("/installations/new?state=");
                url.append(token.text.as_str());
                InstallUrlAction::Answer(InstallUrlResponse { url, state_token: token.text })
            },
        },
    }
}

#[derive(Debug)]
pub struct CallbackParams {
    /// GitHub's number for the installation.
    pub installation_id: i64,
    /// The state token; absent when GitHub started the redirect.
    pub state: Option<String>,
    /// `install` or `update`.
    pub setup_action: Option<String>,
}

/// The account that an installation belongs to.
#[derive(Debug)]
pub struct Account {
    pub login: String,
    pub kind: String,
    pub id: i64,
}

/// Who a state token was handed out to.
#[derive(Debug, Clone, Copy, PartialEq, Eq)]
pub struct Initiator {
    pub tenant_id: Uuid,
    pub user_id: Uuid,
}

/// What is known so far while a callback is handled.
#[derive(Debug)]
pub struct CallbackFacts {
    /// Who the token was handed out to, if it was there to be claimed.
    pub claimed: Option<Option<Initiator>>,
    /// The account of the installation; `Some(None)` where GitHub does not tell it.
    pub account: Option<Option<Account>>,
    /// The row that was inserted or updated; `Some(None)` where another tenant owns the installation.
    pub upserted: Option<Option<Uuid>>,
}

/// What to do next.
#[derive(Debug)]
pub enum CallbackAction {
    /// Claim the unexpired, unused state row with this digest.
    Claim { token_hash: Vec<u8> },
    /// Ask GitHub about the installation.
    FetchInstallation { installation_id: i64 },
    /// Insert the installation for the tenant, or update the row if the tenant owns it.
    Upsert { id: Uuid, tenant_id: Uuid, installation_id: i64, login: String, kind: String, account_id: i64 },
    /// Send the browser there.
    Redirect { location: String },
    /// Refuse.
    Refuse(AppError),
}

/// `base` followed by `path`.
fn redirect(base: &str, path: &str) -> (action: CallbackAction)
    ensures
        action matches CallbackAction::Redirect { location } && location@ == base@ + path@,
{
    let mut location = base.to_owned();
    location.append(path);
    CallbackAction::Redirect { location }
}

/// Whether a callback carries a state token.
pub open spec fn has_state(params: CallbackParams) -> bool {
    params.state matches Some(s) && s@.len() > 0
}

/// Whether `action` is the next step of a callback.
pub open spec fn callback_step(
    configured: bool,
    params: CallbackParams,
    base_url: Seq<char>,
    facts: CallbackFacts,
    action: CallbackAction,
) -> bool {
    if !configured {
        action == CallbackAction::Refuse(AppError::GithubAppNotConfigured)
    } else if !has_state(params) {
        action matches CallbackAction::Redirect { location } && location@ == base_url + "/repos"@
    } else {
        match presented(params.state->0@) {
            Err(e) => action == CallbackAction::Refuse(e),
            Ok(hash) => match facts.claimed {
                None => action matches CallbackAction::Claim { token_hash } && token_hash@ == hash,
                Some(None) => action == CallbackAction::Refuse(AppError::InvalidToken),
                Some(Some(initiator)) => match (facts.account, facts.upserted) {
                    (None, _) => action == (CallbackAction::FetchInstallation {
                        installation_id: params.installation_id,
                    }),
                    (Some(None), _) => action == CallbackAction::Refuse(AppError::Internal),
                    (Some(Some(account)), None) => {
                        &&& action matches CallbackAction::Upsert {
                            id,
                            tenant_id,
                            installation_id,
                            login,
                            kind,
                            account_id,
                        }
                        &&& id.is_v4()
                        &&& tenant_id == initiator.tenant_id
                        &&& installation_id == params.installation_id
                        &&& login@ == account.login@
                        &&& kind@ == account.kind@
                        &&& account_id == account.id
                    },
                    (Some(Some(_)), Some(None)) => action matches CallbackAction::Redirect { location } && location@
                        == base_url + "/repos?install=conflict"@,
                    (Some(Some(account)), Some(Some(row))) => action matches CallbackAction::Redirect { location }
                        && location@ == base_url + "/repos?install=success&installation_uuid="@ + row.text()
                        + "&account_login="@ + percent_encoded(encode_utf8(account.login@)),
                },
            },
        }
    }
}

/// The next step of a callback.
///
/// Without a token the browser goes back to the repositories. With one, the
/// installation is bound to the tenant the token was handed out to, unless
/// another tenant owns it.
pub fn github_callback(configured: bool, params: &CallbackParams, base_url: &str, facts: &CallbackFacts) -> (action:
    CallbackAction)
    ensures
        callback_step(configured, *params, base_url@, *facts, action),
{
    if !configured {
        return CallbackAction::Refuse(AppError::GithubAppNotConfigured);
    }
    let state = match &params.state {
        None => return redirect(base_url, "/repos"),
        Some(s) => s.as_str(),
    };
    if state.is_empty() {
        return redirect(base_url, "/repos");
    }
    let token_hash = match read_state_token(state) {
        Ok(h) => h,
        Err(e) => return CallbackAction::Refuse(e),
    };
    let initiator = match facts.claimed {
        None => return CallbackAction::Claim { token_hash },
        Some(None) => return CallbackAction::Refuse(AppError::InvalidToken),
        Some(Some(i)) => i,
    };
    let account = match &facts.account {
        None => return CallbackAction::FetchInstallation { installation_id: params.installation_id },
        Some(None) => return CallbackAction::Refuse(AppError::Internal),
        Some(Some(a)) => a,
    };
    match facts.upserted {
        None => CallbackAction::Upsert {
            id: Uuid::new_v4(),
            tenant_id: initiator.tenant_id,
            installation_id: params.installation_id,
            login: account.login.clone(),
            kind: account.kind.clone(),
            account_id: account.id,
        },
        Some(None) => redirect(base_url, "/repos?install=conflict"),
        Some(Some(row)) => {
            let mut location = base_url.to_owned();
            location.append("/repos?install=success&installation_uuid=");
            location.append(row.to_text().as_str());
            location.append("&account_login=");
            location.append(url_encode(account.login.as_str()).as_str());
            CallbackAction::Redirect { location }
        },
    }
}

/// A state token binds one installation: once a callback has claimed it, another
/// callback with it does nothing but try to claim it, and is refused with
/// `InvalidToken`.
pub proof fn install_states_work_once(
    table: StateTable<Initiator>,
    first: CallbackParams,
    hash: Seq<u8>,
    at: Timestamp,
    between: Seq<ClaimAttempt>,
    params: CallbackParams,
    base_url: Seq<char>,
    facts: CallbackFacts,
    action: CallbackAction,
    again: Timestamp,
)
    requires
        has_state(first) && presented(first.state->0@) == Ok::<Seq<u8>, AppError>(hash),
        table.claim(hash, at) is Some,
        params.state matches Some(s) && s@ == first.state->0@,
        callback_step(true, params, base_url, facts, action),
        facts.claimed matches Some(found) ==> found == table.after_claim(hash, at).after_claims(between).claim(
            hash,
            again,
        ),
    ensures
        match facts.claimed {
            None => action matches CallbackAction::Claim { token_hash } && token_hash@ == hash,
            Some(_) => action == CallbackAction::Refuse(AppError::InvalidToken),
        },
{
    state_tokens_are_single_use(table, hash, at, between, again);
}

/// What becomes of a callback, step by step. One without a token goes back to the
/// repositories. One with a token claims it, asks GitHub about the installation that it
/// names, binds that to the tenant that the token was handed out to, and tells the browser
/// how it went.
pub proof fn callbacks_bind_installations(
    configured: bool,
    params: CallbackParams,
    base_url: Seq<char>,
    facts: CallbackFacts,
    action: CallbackAction,
)
    requires
        callback_step(configured, params, base_url, facts, action),
    ensures
        !configured ==> action == CallbackAction::Refuse(AppError::GithubAppNotConfigured),
        configured && !(params.state matches Some(s) && s@.len() > 0) ==> (action matches CallbackAction::Redirect {
            location,
        } && location@ == base_url + "/repos"@),
        configured && (params.state matches Some(s) && s@.len() > 0 && presented(s@) is Ok) ==> match facts.claimed {
            None => action matches CallbackAction::Claim { token_hash } && presented(params.state->0@) == Ok::<
                Seq<u8>,
                AppError,
            >(token_hash@),
            Some(None) => action == CallbackAction::Refuse(AppError::InvalidToken),
            Some(Some(initiator)) => match (facts.account, facts.upserted) {
                (None, _) => action matches CallbackAction::FetchInstallation { installation_id } && installation_id
                    == params.installation_id,
                (Some(None), _) => action == CallbackAction::Refuse(AppError::Internal),
                (Some(Some(account)), None) => {
                    &&& action matches CallbackAction::Upsert { tenant_id, installation_id, login, kind, account_id, .. }
                    &&& tenant_id == initiator.tenant_id
                    &&& installation_id == params.installation_id
                    &&& login@ == account.login@
                    &&& kind@ == account.kind@
                    &&& account_id == account.id
                },
                (Some(Some(_)), Some(None)) => action matches CallbackAction::Redirect { location } && location@
                    == base_url + "/repos?install=conflict"@,
                (Some(Some(account)), Some(Some(row))) => action matches CallbackAction::Redirect { location }
                    && location@ == base_url + "/repos?install=success&installation_uuid="@ + row.text()
                    + "&account_login="@ + percent_encoded(encode_utf8(account.login@)),
            },
        },
{
}

} // verus!
