//! `GET /v1/auth/oauth/{provider}/callback`: check the state against the cookie,
//! exchange the code for tokens, and keep them.

use crate::auth_oauth::start::{callback_address, cookie_value, cookie_value_splits, random_string, redirect_uri};
use crate::auth_oauth::OauthProvider;
use crate::caller::{require_verified_session, verified_session, AuthContext};
use crate::clock::{now_nanoseconds, Timestamp, CLOCK_END, FIRST_MICROSECOND, LAST_MICROSECOND};
use crate::error::AppError;
use crate::ids::Uuid;
use crate::text::{same, split_at_first, split_once, split_words, texts, words};
use vstd::prelude::*;
use vstd::string::*;

verus! {

#[derive(Debug)]
pub struct CallbackQuery {
    pub code: String,
    pub state: String,
    pub error: Option<String>,
}

/// The form that a code is exchanged with.
#[derive(Debug)]
pub struct ExchangeForm {
    pub grant_type: &'static str,
    pub code: String,
    pub redirect_uri: String,
    pub client_id: String,
    pub code_verifier: String,
}

/// What the exchange answers.
#[derive(Debug)]
pub struct TokenResponse {
    pub access_token: String,
    pub refresh_token: Option<String>,
    pub expires_in: Option<i64>,
    pub scope: Option<String>,
}

/// How the exchange ended.
#[derive(Debug)]
pub enum Exchange {
    /// No answer came.
    Unreachable,
    /// The answer was not a success.
    Rejected,
    /// The answer could not be read.
    Unreadable,
    Tokens(TokenResponse),
}

/// The tokens to keep for a user.
#[derive(Debug)]
pub struct TokenUpsert {
    pub tenant_id: Uuid,
    pub user_id: Uuid,
    pub access_token: String,
    pub refresh_token: Option<String>,
    pub expires_at: Option<Timestamp>,
    pub scopes: Vec<String>,
}

/// What was learnt last.
#[derive(Debug)]
pub enum CallbackProgress {
    /// Nothing yet.
    Begin,
    /// How the exchange ended.
    Exchanged(Exchange),
    /// Whether the tokens were kept.
    Kept(bool),
}

/// What to do next.
#[derive(Debug)]
pub enum CallbackAction {
    /// Exchange the code.
    Exchange(ExchangeForm),
    /// Encrypt the tokens if there is a cipher, and keep them in place of older ones.
    Keep(TokenUpsert),
    /// Send the browser there.
    Redirect { location: String },
    /// Refuse.
    Refuse(AppError),
}

/// The code verifier that belongs to a callback, if the callback is the answer to
/// the flow in the cookie.
pub open spec fn matched_verifier(query: CallbackQuery, cookie: Option<String>) -> Option<Seq<char>> {
    if query.error is Some {
        None
    } else {
        match cookie {
            None => None,
            Some(c) => match split_at_first(c@, ':') {
                Some((state, verifier)) if state == query.state@ => Some(verifier),
                _ => None,
            },
        }
    }
}

/// A callback that brings back the state of a flow is taken for the answer to it,
/// and one that brings another state is not.
pub proof fn callback_answers_its_own_flow(query: CallbackQuery, cookie: String, state: Seq<char>, verifier: Seq<char>)
    requires
        query.error is None,
        random_string(state, 32),
        cookie@ == cookie_value(state, verifier),
    ensures
        matched_verifier(query, Some(cookie)) == if query.state@ == state {
            Some(verifier)
        } else {
            None
        },
{
    cookie_value_splits(state, verifier, 32);
}

/// The code verifier that belongs to a callback.
pub fn verifier_for(query: &CallbackQuery, cookie: &Option<String>) -> (r: Option<String>)
    ensures
        match r {
            Some(v) => matched_verifier(*query, *cookie) == Some(v@),
            None => matched_verifier(*query, *cookie) is None,
        },
        r matches Some(v) ==> query.error is None && (cookie matches Some(c) && c@ == query.state@ + seq![':'] + v@)
            && !query.state@.contains(':'),
        query.error is None && (cookie matches Some(c) && exists|v: Seq<char>|
            c@ == #[trigger] (query.state@ + seq![':'] + v)) && !query.state@.contains(':') ==> r is Some,
{
    if query.error.is_some() {
        return None;
    }
    match cookie {
        None => None,
        Some(c) => match split_once(c.as_str(), ':') {
            None => {
                proof {
                    assert forall|v: Seq<char>| c@ == #[trigger] (query.state@ + seq![':'] + v) implies false by {
                        assert((query.state@ + seq![':'] + v)[query.state@.len() as int] == ':');
                    }
                }
                None
            },
            Some((state, verifier)) => {
                proof {
                    assert forall|v: Seq<char>|
                        c@ == #[trigger] (query.state@ + seq![':'] + v) && !query.state@.contains(':') implies state@
                        == query.state@ by {
                        lemma_same_start(state@, verifier@, query.state@, v);
                    }
                }
                if same(state.as_str(), query.state.as_str()) {
                    Some(verifier)
                } else {
                    None
                }
            },
        },
    }
}

proof fn lemma_same_start(a: Seq<char>, b: Seq<char>, c: Seq<char>, d: Seq<char>)
    requires
        a + seq![':'] + b == c + seq![':'] + d,
        !a.contains(':'),
        !c.contains(':'),
    ensures
        a == c,
{
    let s = a + seq![':'] + b;
    assert(s[a.len() as int] == ':');
    assert(s[c.len() as int] == ':') by {
        assert((c + seq![':'] + d)[c.len() as int] == ':');
    }
    if a.len() < c.len() {
        assert((c + seq![':'] + d)[a.len() as int] == c[a.len() as int]);
        assert(c.contains(c[a.len() as int]));
    } else if c.len() < a.len() {
        assert(s[c.len() as int] == a[c.len() as int]);
        assert(a.contains(a[c.len() as int]));
    }
    assert forall|i: int| 0 <= i < a.len() implies a[i] == c[i] by {
        assert(s[i] == a[i]);
        assert((c + seq![':'] + d)[i] == c[i]);
    }
    assert(a =~= c);
}

/// When a token with a lifetime of `expires_in` seconds expires that came at `now`
/// nanoseconds since the start of 1970. There is no answer where that is too far
/// away to be kept.
pub open spec fn expiry_of(now: int, expires_in: Option<i64>) -> Option<Option<Timestamp>> {
    match expires_in {
        None => Some(None),
        Some(secs) => {
            let micros = now / 1000 + secs * 1_000_000;
            if FIRST_MICROSECOND <= micros <= LAST_MICROSECOND {
                Some(Some(Timestamp { micros: micros as i64 }))
            } else {
                None
            }
        },
    }
}

/// When a token expires that came at `now` nanoseconds since the start of 1970.
pub fn token_expiry(now: i128, expires_in: Option<i64>) -> (r: Option<Option<Timestamp>>)
    requires
        0 <= now < CLOCK_END,
    ensures
        r == expiry_of(now as int, expires_in),
        expires_in is None ==> r == Some(None::<Timestamp>),
        expires_in matches Some(secs) ==> match r {
            Some(Some(t)) => t.micros == now as int / 1000 + secs * 1_000_000 && FIRST_MICROSECOND <= t.micros
                <= LAST_MICROSECOND,
            Some(None) => false,
            None => !(FIRST_MICROSECOND <= now as int / 1000 + secs * 1_000_000 <= LAST_MICROSECOND),
        },
{
    match expires_in {
        None => Some(None),
        Some(secs) => {
            let micros: i128 = now / 1000 + secs as i128 * 1_000_000;
            if FIRST_MICROSECOND as i128 <= micros && micros <= LAST_MICROSECOND as i128 {
                Some(Some(Timestamp { micros: micros as i64 }))
            } else {
                None
            }
        },
    }
}

impl TokenUpsert {
    /// Whether these are the tokens of `resp` for `tenant` and `user`, with the expiry `expires_at`.
    pub open spec fn keeps(
        &self,
        tenant: Uuid,
        user: Uuid,
        resp: TokenResponse,
        expires_at: Option<Timestamp>,
    ) -> bool {
        &&& self.tenant_id == tenant
        &&& self.user_id == user
        &&& self.access_token == resp.access_token
        &&& self.refresh_token == resp.refresh_token
        &&& self.expires_at == expires_at
        &&& texts(self.scopes@) == match resp.scope {
            Some(s) => words(s@),
            None => Seq::empty(),
        }
    }
}

/// What is done with tokens that came at `now`.
pub open spec fn kept_at(action: CallbackAction, tenant: Uuid, user: Uuid, resp: TokenResponse, now: int) -> bool {
    match expiry_of(now, resp.expires_in) {
        Some(expires_at) => action matches CallbackAction::Keep(upsert) && upsert.keeps(tenant, user, resp, expires_at),
        None => action == CallbackAction::Refuse(AppError::Internal),
    }
}

/// What is done with tokens that came at some time the clock can show.
pub open spec fn kept_sometime(action: CallbackAction, tenant: Uuid, user: Uuid, resp: TokenResponse) -> bool {
    exists|now: int| 0 <= now && now < CLOCK_END && #[trigger] kept_at(action, tenant, user, resp, now)
}

/// What is done with tokens that came at `now`.
pub fn keep_tokens(tenant_id: Uuid, user_id: Uuid, resp: TokenResponse, now: i128) -> (action: CallbackAction)
    requires
        0 <= now < CLOCK_END,
    ensures
        kept_at(action, tenant_id, user_id, resp, now as int),
        action matches CallbackAction::Keep(upsert) ==> {
            &&& upsert.tenant_id == tenant_id
            &&& upsert.user_id == user_id
            &&& upsert.access_token == resp.access_token
            &&& upsert.refresh_token == resp.refresh_token
            &&& resp.expires_in is None ==> upsert.expires_at is None
            &&& resp.expires_in matches Some(secs) ==> (upsert.expires_at matches Some(t) && t.micros == now as int / 1000
                + secs * 1_000_000)
            &&& resp.scope is None ==> upsert.scopes@.len() == 0
            &&& resp.scope matches Some(s) ==> texts(upsert.scopes@) == words(s@)
        },
        resp.expires_in is None ==> action is Keep,
{
    let expires_at = match token_expiry(now, resp.expires_in) {
        Some(e) => e,
        None => return CallbackAction::Refuse(AppError::Internal),
    };
    let scopes = match &resp.scope {
        Some(s) => split_words(s.as_str()),
        None => Vec::new(),
    };
    assert(resp.scope is None ==> texts(scopes@) =~= Seq::empty());
    CallbackAction::Keep(
        TokenUpsert {
            tenant_id,
            user_id,
            access_token: resp.access_token,
            refresh_token: resp.refresh_token,
            expires_at,
            scopes,
        },
    )
}

/// The next step of a callback.
pub fn claude_oauth_callback(
    auth: &AuthContext,
    provider: &OauthProvider,
    query: &CallbackQuery,
    cookie: &Option<String>,
    client_id: &Option<String>,
    base_url: &str,
    progress: CallbackProgress,
) -> (action: CallbackAction)
    ensures
        match verified_session(*auth) {
            Err(e) => action == CallbackAction::Refuse(e),
            Ok(session) => match matched_verifier(*query, *cookie) {
                None => action == CallbackAction::Refuse(AppError::InvalidToken),
                Some(verifier) => match *client_id {
                    None => action == CallbackAction::Refuse(AppError::RuntimeNotConfigured),
                    Some(id) => match progress {
                        CallbackProgress::Begin => {
                            &&& action matches CallbackAction::Exchange(form)
                            &&& form.grant_type@ == "authorization_code"@
                            &&& form.code@ == query.code@
                            &&& form.redirect_uri@ == redirect_uri(base_url@, *provider)
                            &&& form.client_id@ == id@
                            &&& form.code_verifier@ == verifier
                        },
                        CallbackProgress::Exchanged(Exchange::Unreachable) => action == CallbackAction::Refuse(
                            AppError::Internal,
                        ),
                        CallbackProgress::Exchanged(Exchange::Rejected) => action == CallbackAction::Refuse(
                            AppError::InvalidToken,
                        ),
                        CallbackProgress::Exchanged(Exchange::Unreadable) => action == CallbackAction::Refuse(
                            AppError::Internal,
                        ),
                        CallbackProgress::Exchanged(Exchange::Tokens(resp)) => kept_sometime(
                            action,
                            session.tenant_id,
                            session.user_id,
                            resp,
                        ),
                        CallbackProgress::Kept(false) => action == CallbackAction::Refuse(AppError::Internal),
                        CallbackProgress::Kept(true) => action matches CallbackAction::Redirect { location }
                            && location@ == base_url@ + "/settings/integrations?oauth="@ + provider.name@
                            + "&status=success"@,
                    },
                },
            },
        },
{
    let session = match require_verified_session(auth) {
        Err(e) => return CallbackAction::Refuse(e),
        Ok(s) => s,
    };
    let verifier = match verifier_for(query, cookie) {
        None => return CallbackAction::Refuse(AppError::InvalidToken),
        Some(v) => v,
    };
    let id = match client_id {
        None => return CallbackAction::Refuse(AppError::RuntimeNotConfigured),
        Some(id) => id,
    };
    match progress {
        CallbackProgress::Begin => {
            let uri = callback_address(base_url, provider);
            CallbackAction::Exchange(
                ExchangeForm {
                    grant_type: "authorization_code",
                    code: query.code.clone(),
                    redirect_uri: uri,
                    client_id: id.clone(),
                    code_verifier: verifier,
                },
            )
        },
        CallbackProgress::Exchanged(exchange) => match exchange {
            Exchange::Unreachable => CallbackAction::Refuse(AppError::Internal),
            Exchange::Rejected => CallbackAction::Refuse(AppError::InvalidToken),
            Exchange::Unreadable => CallbackAction::Refuse(AppError::Internal),
            Exchange::Tokens(resp) => {
                let ghost r = resp;
                let now: i128 = now_nanoseconds();
                let action = keep_tokens(session.tenant_id, session.user_id, resp, now);
                assert(kept_at(action, session.tenant_id, session.user_id, r, now as int));
                assert(kept_sometime(action, session.tenant_id, session.user_id, r));
                action
            },
        },
        CallbackProgress::Kept(done) => if done {
            let mut location = base_url.to_owned();
            location.append("/settings/integrations?oauth=");
            location.append(provider.name.as_str());
            location.append("&status=success");
            CallbackAction::Redirect { location }
        } else {
            CallbackAction::Refuse(AppError::Internal)
        },
    }
}

} // verus!
