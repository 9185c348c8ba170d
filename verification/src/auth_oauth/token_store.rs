//! The stored tokens of the `claude_code` runtime: read, decrypted, and refreshed
//! when they are about to expire. Every refresh that is attempted leaves an audit
//! event, whether it succeeds or fails.

use crate::auth_oauth::callback::{expiry_of, token_expiry};
use crate::clock::{now_nanoseconds, Timestamp, CLOCK_END, FIRST_MICROSECOND, LAST_MICROSECOND};
use vstd::prelude::*;

verus! {

/// Why there is no access token.
#[derive(Debug, PartialEq, Eq)]
pub enum TokenError {
    /// None is stored for this runtime, or it has expired and cannot be refreshed.
    TokenMissing { runtime_kind: &'static str },
    /// The token endpoint could not be reached, or its answer not be read.
    Transport(String),
    /// The token endpoint answered with this status and body.
    AnthropicApi { status: u16, message: String },
    /// Anything else.
    Internal(String),
}

/// Which of the new tokens could not be encrypted, and why.
#[derive(Debug)]
pub enum SealFailure {
    Access(String),
    Refresh(String),
}

/// The stored tokens of a user.
#[derive(Debug)]
pub struct StoredTokens {
    pub access_token: String,
    pub refresh_token: Option<String>,
    pub expires_at: Option<Timestamp>,
}

/// The whole seconds from `now`, in nanoseconds since the start of 1970, to `expires_at`.
pub open spec fn seconds_left(now: int, expires_at: Timestamp) -> int {
    let left = expires_at.micros * 1000 - now;
    if left >= 0 {
        left / 1_000_000_000
    } else {
        -((-left) / 1_000_000_000)
    }
}

/// Whether a token must be refreshed at `now`: fewer than `lead_secs` whole seconds are left.
pub open spec fn due(now: int, expires_at: Option<Timestamp>, lead_secs: i64) -> bool {
    expires_at matches Some(t) && seconds_left(now, t) < lead_secs
}

/// Whether a token must be refreshed at `now` nanoseconds since the start of 1970.
pub fn needs_refresh_at(now: i128, expires_at: Option<Timestamp>, lead_secs: i64) -> (r: bool)
    requires
        0 <= now < CLOCK_END,
    ensures
        r == due(now as int, expires_at, lead_secs),
        expires_at is None ==> !r,
        expires_at matches Some(t) ==> (lead_secs >= 1 ==> r == (t.micros * 1000 - now < lead_secs * 1_000_000_000)) && (
        lead_secs < 1 ==> r == (t.micros * 1000 - now <= (lead_secs - 1) * 1_000_000_000)),
{
    match expires_at {
        None => false,
        Some(t) => {
            let left: i128 = t.micros as i128 * 1000 - now;
            let seconds: i128 = if left >= 0 {
                left / 1_000_000_000
            } else {
                -((-left) / 1_000_000_000)
            };
            seconds < lead_secs as i128
        },
    }
}

/// Whether a token must be refreshed now. A token without an expiry never must.
pub fn needs_refresh(expires_at: Option<Timestamp>, lead_secs: i64) -> (r: bool)
    ensures
        exists|now: int| 0 <= now && now < CLOCK_END && r == #[trigger] due(now, expires_at, lead_secs),
        expires_at is None ==> !r,
{
    let now: i128 = now_nanoseconds();
    let r = needs_refresh_at(now, expires_at, lead_secs);
    assert(r == due(now as int, expires_at, lead_secs));
    r
}

/// Whether a stored value must be decrypted: there is a cipher, and the value is in
/// its format. Anything else is plain text.
pub fn must_decrypt(has_cipher: bool, is_encrypted: bool) -> (r: bool)
    ensures
        r == (has_cipher && is_encrypted),
{
    has_cipher && is_encrypted
}

/// The name of the key that tokens are kept under: that of the cipher, or `none` where
/// there is no cipher and they are kept as they are.
pub fn kept_key_id(cipher_key_id: Option<String>) -> (s: String)
    ensures
        s@ == match cipher_key_id {
            Some(k) => k@,
            None => "none"@,
        },
{
    match cipher_key_id {
        Some(k) => k,
        None => "none".to_owned(),
    }
}

/// The form that a token is refreshed with.
#[derive(Debug)]
pub struct RefreshForm {
    pub grant_type: &'static str,
    pub refresh_token: String,
    pub client_id: String,
}

/// What a refresh answers.
#[derive(Debug)]
pub struct RefreshResponse {
    pub access_token: String,
    pub refresh_token: Option<String>,
    pub expires_in: Option<i64>,
}

/// What was learnt last.
#[derive(Debug)]
pub enum TokenProgress {
    /// Nothing yet.
    Begin,
    /// The stored tokens, if there are any, or why they could not be read.
    Found(Result<Option<StoredTokens>, String>),
    /// The access token in the clear, unless it could not be decrypted.
    AccessClear { token: Option<String>, refresh_token: Option<String>, expires_at: Option<Timestamp> },
    /// The refresh token in the clear, unless it could not be decrypted.
    RefreshClear(Option<String>),
    /// How the refresh ended.
    Refreshed(Result<RefreshResponse, TokenError>),
    /// The new access token, or why the tokens could not be encrypted. Whether they
    /// could be kept makes no difference.
    Kept(Result<String, SealFailure>),
}

/// What to do next.
#[derive(Debug)]
pub enum TokenAction {
    /// Read the user's tokens.
    FindTokens,
    /// Decrypt the access token if it is encrypted.
    ClearAccess(StoredTokens),
    /// Decrypt the refresh token if it is encrypted.
    ClearRefresh { stored: String },
    /// Refresh.
    Refresh(RefreshForm),
    /// Encrypt the new tokens if there is a cipher, and keep them; an absent refresh
    /// token leaves the old one in place.
    Keep { access_token: String, refresh_token: Option<String>, expires_at: Option<Timestamp> },
    /// Write an audit event with the outcome, if there is one, then return.
    Return { result: Result<String, TokenError>, audit: Option<&'static str> },
}

/// Whether `action` returns `error`, after an audit event of a failure if `audited` says so.
pub open spec fn returns_error(action: TokenAction, error: TokenError, audited: bool) -> bool {
    &&& action matches TokenAction::Return { result, audit }
    &&& result == Err::<String, TokenError>(error)
    &&& audit is Some == audited
    &&& audited ==> audit->0@ == "failure"@
}

/// Whether `action` returns that there is no token of the runtime.
pub open spec fn returns_missing(action: TokenAction, audited: bool) -> bool {
    exists|kind: &'static str| #[trigger]
        returns_error(action, TokenError::TokenMissing { runtime_kind: kind }, audited) && kind@ == "claude_code"@
}

/// Whether `action` returns an internal error with this text.
pub open spec fn returns_internal(action: TokenAction, text: Seq<char>, audited: bool) -> bool {
    exists|s: String| #[trigger] returns_error(action, TokenError::Internal(s), audited) && s@ == text
}

/// What is told of new tokens that could not be encrypted.
pub open spec fn seal_text(e: SealFailure) -> Seq<char> {
    match e {
        SealFailure::Access(why) => "encrypt access_token: "@ + why@,
        SealFailure::Refresh(why) => "encrypt refresh_token: "@ + why@,
    }
}

/// What follows an access token in the clear at `now`.
pub open spec fn used_at(
    action: TokenAction,
    token: String,
    refresh_token: Option<String>,
    expires_at: Option<Timestamp>,
    lead_secs: i64,
    now: int,
) -> bool {
    if !due(now, expires_at, lead_secs) {
        action == (TokenAction::Return { result: Ok(token), audit: None })
    } else {
        match refresh_token {
            None => returns_missing(action, true),
            Some(stored) => action == (TokenAction::ClearRefresh { stored }),
        }
    }
}

/// What follows an access token in the clear at some time the clock can show.
pub open spec fn used_sometime(
    action: TokenAction,
    token: String,
    refresh_token: Option<String>,
    expires_at: Option<Timestamp>,
    lead_secs: i64,
) -> bool {
    exists|now: int| 0 <= now && now < CLOCK_END && #[trigger] used_at(action, token, refresh_token, expires_at, lead_secs, now)
}

/// What follows a refresh that came at `now`.
pub open spec fn renewed_at(action: TokenAction, resp: RefreshResponse, now: int) -> bool {
    match expiry_of(now, resp.expires_in) {
        Some(expires_at) => action == (TokenAction::Keep {
            access_token: resp.access_token,
            refresh_token: resp.refresh_token,
            expires_at,
        }),
        None => returns_internal(action, "token expiry out of range"@, true),
    }
}

/// What follows a refresh that came at some time the clock can show.
pub open spec fn renewed_sometime(action: TokenAction, resp: RefreshResponse) -> bool {
    exists|now: int| 0 <= now && now < CLOCK_END && #[trigger] renewed_at(action, resp, now)
}

fn failure(error: TokenError) -> (action: TokenAction)
    ensures
        returns_error(action, error, true),
{
    TokenAction::Return { result: Err(error), audit: Some("failure") }
}

fn missing(audited: bool) -> (action: TokenAction)
    ensures
        returns_missing(action, audited),
{
    let kind = "claude_code";
    let audit = if audited {
        Some("failure")
    } else {
        None
    };
    let action = TokenAction::Return { result: Err(TokenError::TokenMissing { runtime_kind: kind }), audit };
    assert(returns_error(action, TokenError::TokenMissing { runtime_kind: kind }, audited));
    action
}

fn internal(text: String, audited: bool) -> (action: TokenAction)
    ensures
        returns_internal(action, text@, audited),
{
    let ghost t = text;
    let audit = if audited {
        Some("failure")
    } else {
        None
    };
    let action = TokenAction::Return { result: Err(TokenError::Internal(text)), audit };
    assert(returns_error(action, TokenError::Internal(t), audited));
    action
}

/// What follows an access token in the clear at `now` nanoseconds since the start of
/// 1970: it is handed out while enough is left of it, and refreshed otherwise.
pub fn use_access_token(
    token: String,
    refresh_token: Option<String>,
    expires_at: Option<Timestamp>,
    lead_secs: i64,
    now: i128,
) -> (action: TokenAction)
    requires
        0 <= now < CLOCK_END,
    ensures
        used_at(action, token, refresh_token, expires_at, lead_secs, now as int),
        !due(now as int, expires_at, lead_secs) ==> (action matches TokenAction::Return { result, audit } && result == Ok::<
            String,
            TokenError,
        >(token) && audit is None),
        due(now as int, expires_at, lead_secs) && refresh_token is None ==> (action matches TokenAction::Return {
            result,
            audit,
        } && (result matches Err(TokenError::TokenMissing { runtime_kind }) && runtime_kind@ == "claude_code"@) && (audit
            matches Some(outcome) && outcome@ == "failure"@)),
        due(now as int, expires_at, lead_secs) && refresh_token is Some ==> (action matches TokenAction::ClearRefresh {
            stored,
        } && Some(stored) == refresh_token),
{
    if !needs_refresh_at(now, expires_at, lead_secs) {
        TokenAction::Return { result: Ok(token), audit: None }
    } else {
        match refresh_token {
            None => missing(true),
            Some(stored) => TokenAction::ClearRefresh { stored },
        }
    }
}

/// What follows a refresh that came at `now` nanoseconds since the start of 1970: the
/// new tokens are kept with their new expiry.
pub fn renew(resp: RefreshResponse, now: i128) -> (action: TokenAction)
    requires
        0 <= now < CLOCK_END,
    ensures
        renewed_at(action, resp, now as int),
        resp.expires_in is None ==> (action matches TokenAction::Keep { access_token, refresh_token, expires_at }
            && access_token == resp.access_token && refresh_token == resp.refresh_token && expires_at is None),
        resp.expires_in matches Some(secs) ==> FIRST_MICROSECOND <= now as int / 1000 + secs * 1_000_000
            <= LAST_MICROSECOND ==> (action matches TokenAction::Keep { access_token, refresh_token, expires_at }
            && access_token == resp.access_token && refresh_token == resp.refresh_token && (expires_at matches Some(t)
            && t.micros == now as int / 1000 + secs * 1_000_000)),
{
    match token_expiry(now, resp.expires_in) {
        Some(expires_at) => TokenAction::Keep {
            access_token: resp.access_token,
            refresh_token: resp.refresh_token,
            expires_at,
        },
        None => internal("token expiry out of range".to_owned(), true),
    }
}

/// The next step of getting a user's access token, which is refreshed when fewer
/// than `lead_secs` seconds are left of it.
pub fn access_token(client_id: &str, lead_secs: i64, progress: TokenProgress) -> (action: TokenAction)
    ensures
        match progress {
            TokenProgress::Begin => action is FindTokens,
            TokenProgress::Found(Err(why)) => returns_internal(
                action,
                "DB error fetching OAuth token: "@ + why@,
                false,
            ),
            TokenProgress::Found(Ok(None)) => returns_missing(action, false),
            TokenProgress::Found(Ok(Some(tokens))) => action == TokenAction::ClearAccess(tokens),
            TokenProgress::AccessClear { token: None, .. } => returns_internal(
                action,
                "OAuth token decryption failed"@,
                false,
            ),
            TokenProgress::AccessClear { token: Some(token), refresh_token, expires_at } => used_sometime(
                action,
                token,
                refresh_token,
                expires_at,
                lead_secs,
            ),
            TokenProgress::RefreshClear(None) => returns_internal(action, "OAuth token decryption failed"@, true),
            TokenProgress::RefreshClear(Some(token)) => action matches TokenAction::Refresh(form) && form.grant_type@
                == "refresh_token"@ && form.refresh_token == token && form.client_id@ == client_id@,
            TokenProgress::Refreshed(Err(e)) => returns_error(action, e, true),
            TokenProgress::Refreshed(Ok(resp)) => renewed_sometime(action, resp),
            TokenProgress::Kept(Err(e)) => returns_internal(action, seal_text(e), true),
            TokenProgress::Kept(Ok(token)) => action matches TokenAction::Return { result, audit } && result == Ok::<
                String,
                TokenError,
            >(token) && (audit matches Some(outcome) && outcome@ == "success"@),
        },
        action matches TokenAction::Return { result: Err(e), audit } ==> match progress {
            TokenProgress::Found(Err(why)) => audit is None && (e matches TokenError::Internal(s) && s@
                == "DB error fetching OAuth token: "@ + why@),
            TokenProgress::Found(Ok(_)) => audit is None && (e matches TokenError::TokenMissing { runtime_kind }
                && runtime_kind@ == "claude_code"@),
            TokenProgress::AccessClear { token: None, .. } => audit is None && (e matches TokenError::Internal(s) && s@
                == "OAuth token decryption failed"@),
            TokenProgress::AccessClear { refresh_token, expires_at, .. } => (audit matches Some(o) && o@ == "failure"@)
                && refresh_token is None && expires_at is Some && (e matches TokenError::TokenMissing { runtime_kind }
                && runtime_kind@ == "claude_code"@),
            TokenProgress::RefreshClear(_) => (audit matches Some(o) && o@ == "failure"@) && (e
                matches TokenError::Internal(s) && s@ == "OAuth token decryption failed"@),
            TokenProgress::Refreshed(Err(why)) => (audit matches Some(o) && o@ == "failure"@) && e == why,
            TokenProgress::Refreshed(Ok(_)) => audit matches Some(o) && o@ == "failure"@,
            TokenProgress::Kept(Err(SealFailure::Access(why))) => (audit matches Some(o) && o@ == "failure"@) && (e
                matches TokenError::Internal(s) && s@ == "encrypt access_token: "@ + why@),
            TokenProgress::Kept(Err(SealFailure::Refresh(why))) => (audit matches Some(o) && o@ == "failure"@) && (e
                matches TokenError::Internal(s) && s@ == "encrypt refresh_token: "@ + why@),
            _ => false,
        },
        action matches TokenAction::Return { result: Ok(t), audit } ==> match progress {
            TokenProgress::AccessClear { token: Some(clear), .. } => t == clear && audit is None,
            TokenProgress::Kept(Ok(kept)) => t == kept && (audit matches Some(o) && o@ == "success"@),
            _ => false,
        },
        action matches TokenAction::ClearRefresh { stored } ==> (progress matches TokenProgress::AccessClear {
            refresh_token,
            expires_at,
            ..
        } && refresh_token == Some(stored) && expires_at is Some),
        action matches TokenAction::Keep { access_token, refresh_token, expires_at } ==> (progress
            matches TokenProgress::Refreshed(Ok(resp)) && access_token == resp.access_token && refresh_token
            == resp.refresh_token && (expires_at is Some <==> resp.expires_in is Some)),
{
    match progress {
        TokenProgress::Begin => TokenAction::FindTokens,
        TokenProgress::Found(found) => match found {
            Err(why) => {
                let mut text = "DB error fetching OAuth token: ".to_owned();
                text.append(why.as_str());
                internal(text, false)
            },
            Ok(None) => missing(false),
            Ok(Some(tokens)) => TokenAction::ClearAccess(tokens),
        },
        TokenProgress::AccessClear { token, refresh_token, expires_at } => match token {
            None => internal("OAuth token decryption failed".to_owned(), false),
            Some(t) => {
                let now: i128 = now_nanoseconds();
                let ghost (clear, stored) = (t, refresh_token);
                let action = use_access_token(t, refresh_token, expires_at, lead_secs, now);
                assert(used_at(action, clear, stored, expires_at, lead_secs, now as int));
                action
            },
        },
        TokenProgress::RefreshClear(token) => match token {
            None => internal("OAuth token decryption failed".to_owned(), true),
            Some(t) => TokenAction::Refresh(
                RefreshForm { grant_type: "refresh_token", refresh_token: t, client_id: client_id.to_owned() },
            ),
        },
        TokenProgress::Refreshed(outcome) => match outcome {
            Err(e) => failure(e),
            Ok(resp) => {
                let now: i128 = now_nanoseconds();
                let ghost answer = resp;
                let action = renew(resp, now);
                assert(renewed_at(action, answer, now as int));
                action
            },
        },
        TokenProgress::Kept(token) => match token {
            Err(SealFailure::Access(why)) => {
                let mut text = "encrypt access_token: ".to_owned();
                text.append(why.as_str());
                internal(text, true)
            },
            Err(SealFailure::Refresh(why)) => {
                let mut text = "encrypt refresh_token: ".to_owned();
                text.append(why.as_str());
                internal(text, true)
            },
            Ok(t) => TokenAction::Return { result: Ok(t), audit: Some("success") },
        },
    }
}

} // verus!
