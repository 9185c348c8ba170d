//! `GET /v1/admin/github/app-callback`: take the state token back, exchange the
//! one-time code for the App's credentials, keep them and load the App.

use crate::clock::Timestamp;
use crate::error::AppError;
use crate::ids::Uuid;
use crate::state_token::{presented, read_state_token, state_tokens_are_single_use, ClaimAttempt, StateTable};
use vstd::prelude::*;
use vstd::string::*;

verus! {

#[derive(Debug)]
pub struct CallbackParams {
    pub code: Option<String>,
    pub state: Option<String>,
}

/// What is known so far.
#[derive(Debug, Clone, Copy)]
pub struct AppCallbackFacts {
    /// Who started the flow, if the state token was there to be claimed.
    pub claimed: Option<Option<Uuid>>,
    /// Whether the encryption key could be read.
    pub key_valid: Option<bool>,
    /// Whether GitHub exchanged the code for credentials.
    pub exchanged: Option<bool>,
    /// Whether the credentials were kept, read back and loaded.
    pub installed: Option<bool>,
}

/// What to do next.
#[derive(Debug)]
pub enum AppCallbackAction {
    /// Claim the unexpired, unused state row with this digest.
    Claim { token_hash: Vec<u8> },
    /// Read the encryption key.
    ReadKey { key_b64: String },
    /// Exchange the code for credentials.
    Exchange { code: String },
    /// Keep the credentials, encrypted with this key, as installed by this user; read
    /// them back and load the App.
    Install { key_b64: String, installed_by: Uuid },
    /// Send the browser there.
    Redirect { location: String },
    /// Refuse.
    Refuse(AppError),
}

/// Whether `s` is there and not empty.
pub open spec fn present(s: Option<String>) -> bool {
    s matches Some(x) && x@.len() > 0
}

/// Whether `action` is the next step of the callback.
pub open spec fn callback_step(
    user_id: Uuid,
    params: CallbackParams,
    enc_key_b64: Option<String>,
    base_url: Seq<char>,
    facts: AppCallbackFacts,
    action: AppCallbackAction,
) -> bool {
    if !present(params.code) || !present(params.state) {
        action == AppCallbackAction::Refuse(AppError::InvalidInput)
    } else {
        match presented(params.state->0@) {
            Err(e) => action == AppCallbackAction::Refuse(e),
            Ok(hash) => match facts.claimed {
                None => action matches AppCallbackAction::Claim { token_hash } && token_hash@ == hash,
                Some(None) => action == AppCallbackAction::Refuse(AppError::InvalidToken),
                Some(Some(initiator)) => if initiator != user_id {
                    action == AppCallbackAction::Refuse(AppError::InvalidToken)
                } else if !present(enc_key_b64) {
                    action == AppCallbackAction::Refuse(AppError::ServiceUnavailable)
                } else {
                    match (facts.key_valid, facts.exchanged, facts.installed) {
                        (None, _, _) => action matches AppCallbackAction::ReadKey { key_b64 } && key_b64@
                            == enc_key_b64->0@,
                        (Some(false), _, _) => action == AppCallbackAction::Refuse(AppError::Internal),
                        (Some(true), None, _) => action matches AppCallbackAction::Exchange { code } && code@
                            == params.code->0@,
                        (Some(true), Some(false), _) => action == AppCallbackAction::Refuse(
                            AppError::GithubExchangeFailed,
                        ),
                        (Some(true), Some(true), None) => action matches AppCallbackAction::Install {
                            key_b64,
                            installed_by,
                        } && key_b64@ == enc_key_b64->0@ && installed_by == user_id,
                        (Some(true), Some(true), Some(false)) => action == AppCallbackAction::Refuse(
                            AppError::Internal,
                        ),
                        (Some(true), Some(true), Some(true)) => action matches AppCallbackAction::Redirect {
                            location,
                        } && location@ == base_url + "/admin/github?registered=true"@,
                    }
                },
            },
        }
    }
}

/// The next step of the callback.
///
/// Both parameters are required. The state token must be hexadecimal, must be
/// there to be claimed, and must have been handed out to the same user. Without
/// an encryption key nothing can be kept.
pub fn get_app_callback(
    user_id: Uuid,
    params: &CallbackParams,
    enc_key_b64: &Option<String>,
    base_url: &str,
    facts: &AppCallbackFacts,
) -> (action: AppCallbackAction)
    ensures
        callback_step(user_id, *params, *enc_key_b64, base_url@, *facts, action),
{
    let code = match &params.code {
        Some(s) => s,
        None => return AppCallbackAction::Refuse(AppError::InvalidInput),
    };
    let state = match &params.state {
        Some(s) => s,
        None => return AppCallbackAction::Refuse(AppError::InvalidInput),
    };
    if code.as_str().is_empty() || state.as_str().is_empty() {
        return AppCallbackAction::Refuse(AppError::InvalidInput);
    }
    let token_hash = match read_state_token(state.as_str()) {
        Ok(h) => h,
        Err(e) => return AppCallbackAction::Refuse(e),
    };
    match facts.claimed {
        None => return AppCallbackAction::Claim { token_hash },
        Some(None) => return AppCallbackAction::Refuse(AppError::InvalidToken),
        Some(Some(initiator)) => {
            if initiator != user_id {
                return AppCallbackAction::Refuse(AppError::InvalidToken);
            }
        },
    }
    let key = match enc_key_b64 {
        Some(k) => k,
        None => return AppCallbackAction::Refuse(AppError::ServiceUnavailable),
    };
    if key.as_str().is_empty() {
        return AppCallbackAction::Refuse(AppError::ServiceUnavailable);
    }
    match facts.key_valid {
        None => return AppCallbackAction::ReadKey { key_b64: key.clone() },
        Some(false) => return AppCallbackAction::Refuse(AppError::Internal),
        Some(true) => {},
    }
    match facts.exchanged {
        None => return AppCallbackAction::Exchange { code: code.clone() },
        Some(false) => return AppCallbackAction::Refuse(AppError::GithubExchangeFailed),
        Some(true) => {},
    }
    match facts.installed {
        None => AppCallbackAction::Install { key_b64: key.clone(), installed_by: user_id },
        Some(false) => AppCallbackAction::Refuse(AppError::Internal),
        Some(true) => {
            let mut location = base_url.to_owned();
            location.append("/admin/github?registered=true");
            AppCallbackAction::Redirect { location }
        },
    }
}

/// A state token takes one callback through, whatever that one then came to: once a
/// callback has claimed it, another callback with it does nothing but try to claim it,
/// and is refused with `InvalidToken`. No code is exchanged, and no App is installed.
pub proof fn app_states_work_once(
    table: StateTable<Uuid>,
    first: CallbackParams,
    hash: Seq<u8>,
    at: Timestamp,
    between: Seq<ClaimAttempt>,
    user_id: Uuid,
    params: CallbackParams,
    enc_key_b64: Option<String>,
    base_url: Seq<char>,
    facts: AppCallbackFacts,
    action: AppCallbackAction,
    again: Timestamp,
)
    requires
        present(first.state) && presented(first.state->0@) == Ok::<Seq<u8>, AppError>(hash),
        table.claim(hash, at) is Some,
        present(params.code),
        params.state matches Some(s) && s@ == first.state->0@,
        callback_step(user_id, params, enc_key_b64, base_url, facts, action),
        facts.claimed matches Some(found) ==> found == table.after_claim(hash, at).after_claims(between).claim(
            hash,
            again,
        ),
    ensures
        match facts.claimed {
            None => action matches AppCallbackAction::Claim { token_hash } && token_hash@ == hash,
            Some(_) => action == AppCallbackAction::Refuse(AppError::InvalidToken),
        },
{
    state_tokens_are_single_use(table, hash, at, between, again);
}

/// What becomes of a callback, step by step: both parameters must be there; the token is
/// claimed, by the user it was handed out to; there must be a key to keep the credentials
/// with; then the code that came is exchanged, the credentials are kept with that key as
/// installed by that user, and the browser is sent on.
pub proof fn app_callbacks_install_the_app(
    user_id: Uuid,
    params: CallbackParams,
    enc_key_b64: Option<String>,
    base_url: Seq<char>,
    facts: AppCallbackFacts,
    action: AppCallbackAction,
)
    requires
        callback_step(user_id, params, enc_key_b64, base_url, facts, action),
    ensures
        !(params.code matches Some(s) && s@.len() > 0) ==> action == AppCallbackAction::Refuse(AppError::InvalidInput),
        !(params.state matches Some(s) && s@.len() > 0) ==> action == AppCallbackAction::Refuse(AppError::InvalidInput),
        action matches AppCallbackAction::Claim { token_hash } ==> facts.claimed is None && presented(params.state->0@)
            == Ok::<Seq<u8>, AppError>(token_hash@),
        facts.claimed matches Some(Some(initiator)) ==> initiator != user_id ==> action is Refuse,
        facts.claimed == Some(None::<Uuid>) ==> action is Refuse,
        action is ReadKey || action is Exchange || action is Install || action is Redirect ==> facts.claimed == Some(
            Some(user_id),
        ) && (enc_key_b64 matches Some(k) && k@.len() > 0),
        action matches AppCallbackAction::ReadKey { key_b64 } ==> key_b64@ == enc_key_b64->0@,
        action matches AppCallbackAction::Exchange { code } ==> code@ == params.code->0@ && facts.key_valid == Some(true),
        action matches AppCallbackAction::Install { key_b64, installed_by } ==> key_b64@ == enc_key_b64->0@
            && installed_by == user_id && facts.key_valid == Some(true) && facts.exchanged == Some(true),
        action matches AppCallbackAction::Redirect { location } ==> location@ == base_url
            + "/admin/github?registered=true"@ && facts.installed == Some(true),
        present(params.code) && present(params.state) && presented(params.state->0@) is Ok && facts.claimed == Some(
            Some(user_id),
        ) && present(enc_key_b64) && facts.key_valid == Some(true) && facts.exchanged == Some(true) && facts.installed
            == Some(true) ==> action is Redirect,
        present(params.code) && present(params.state) && presented(params.state->0@) is Ok && facts.claimed == Some(
            Some(user_id),
        ) && present(enc_key_b64) && facts.key_valid == Some(true) && facts.exchanged == Some(false) ==> action
            == AppCallbackAction::Refuse(AppError::GithubExchangeFailed),
{
}

} // verus!
