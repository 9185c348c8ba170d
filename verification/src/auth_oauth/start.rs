//! `GET /v1/auth/oauth/{provider}/start`: send the browser to the consent screen, with
//! a PKCE challenge in the URL and what belongs to it in a short-lived cookie.

use crate::auth_oauth::OauthProvider;
use crate::caller::{require_verified_session, verified_session, AuthContext};
use crate::digest::{
    alphanumeric, base64url_char, base64url_encode, base64url_of, percent_encoded, random_alphanumeric, sextet, sha256, sha256_of,
    url_encode,
};
use crate::error::AppError;
use crate::text::{first_place, lemma_first_place, split_at_first};
use vstd::prelude::*;
use vstd::string::*;
use vstd::utf8::*;

verus! {

/// The cookie that carries the state and the code verifier.
pub const PKCE_STATE_COOKIE: &'static str = "rb_pkce_state";

/// Whether `s` is made of `n` ASCII letters and digits.
pub open spec fn random_string(s: Seq<char>, n: int) -> bool {
    s.len() == n && forall|i: int| 0 <= i < s.len() ==> alphanumeric(#[trigger] s[i])
}

/// A code verifier: 64 random letters and digits.
pub fn generate_code_verifier() -> (s: String)
    ensures
        random_string(s@, 64),
{
    random_alphanumeric(64)
}

/// A state: 32 random letters and digits.
pub fn generate_state() -> (s: String)
    ensures
        random_string(s@, 32),
{
    random_alphanumeric(32)
}

/// The challenge for a code verifier.
pub open spec fn code_challenge(verifier: Seq<char>) -> Seq<char> {
    base64url_of(sha256_of(encode_utf8(verifier)))
}

/// The challenge for a code verifier: its digest in URL-safe base64.
pub fn derive_code_challenge(verifier: &str) -> (s: String)
    ensures
        s@ == code_challenge(verifier@),
        s@ == base64url_of(sha256_of(encode_utf8(verifier@))),
        s@.len() == 43,
        forall|i: int|
            0 <= i < s@.len() ==> alphanumeric(#[trigger] s@[i]) || s@[i] == '-' || s@[i] == '_',
{
    let hash = sha256(verifier.as_bytes());
    let s = base64url_encode(hash.as_slice());
    assert forall|i: int| 0 <= i < s@.len() implies alphanumeric(#[trigger] s@[i]) || s@[i] == '-' || s@[i] == '_' by {
        assert(s@[i] == base64url_char(sextet(hash@, i)));
        assert(0 <= sextet(hash@, i) < 64);
    }
    s
}

/// The address that the consent screen sends the browser back to.
pub open spec fn redirect_uri(base_url: Seq<char>, provider: OauthProvider) -> Seq<char> {
    base_url + "/v1/auth/oauth/"@ + provider.name@ + "/callback"@
}

/// The address that the consent screen sends the browser back to.
pub fn callback_address(base_url: &str, provider: &OauthProvider) -> (s: String)
    ensures
        s@ == redirect_uri(base_url@, *provider),
        s@ == base_url@ + "/v1/auth/oauth/"@ + provider.name@ + "/callback"@,
{
    let mut uri = base_url.to_owned();
    uri.append("/v1/auth/oauth/");
    uri.append(provider.name.as_str());
    uri.append("/callback");
    uri
}

/// The address of the consent screen for a request.
pub open spec fn consent_url(
    provider: OauthProvider,
    client_id: Seq<char>,
    base_url: Seq<char>,
    challenge: Seq<char>,
    state: Seq<char>,
) -> Seq<char> {
    provider.authorize_url@ + "?response_type=code&client_id="@ + client_id + "&redirect_uri="@ + percent_encoded(
        encode_utf8(redirect_uri(base_url, provider)),
    ) + "&code_challenge="@ + challenge + "&code_challenge_method=S256&state="@ + state
}

/// What the cookie holds.
pub open spec fn cookie_value(state: Seq<char>, verifier: Seq<char>) -> Seq<char> {
    state + ":"@ + verifier
}

/// The value of the `Set-Cookie` header.
pub open spec fn cookie_header(state: Seq<char>, verifier: Seq<char>, secure: bool) -> Seq<char> {
    PKCE_STATE_COOKIE@ + "="@ + cookie_value(state, verifier) + "; HttpOnly; SameSite=Lax; Path=/; Max-Age=600"@ + if secure {
        "; Secure"@
    } else {
        Seq::empty()
    }
}

/// Where to send the browser, and the cookie to send along.
#[derive(Debug)]
pub struct OauthStart {
    pub location: String,
    pub cookie: String,
}

impl OauthStart {
    /// Whether this starts a flow with `verifier` and `state`.
    pub open spec fn starts(
        &self,
        provider: OauthProvider,
        client_id: Seq<char>,
        base_url: Seq<char>,
        secure: bool,
        verifier: Seq<char>,
        state: Seq<char>,
    ) -> bool {
        self.location@ == consent_url(provider, client_id, base_url, code_challenge(verifier), state) && self.cookie@
            == cookie_header(state, verifier, secure)
    }

    /// Whether this starts a flow with some fresh verifier and state.
    pub open spec fn starts_fresh(
        &self,
        provider: OauthProvider,
        client_id: Seq<char>,
        base_url: Seq<char>,
        secure: bool,
    ) -> bool {
        exists|verifier: Seq<char>, state: Seq<char>|
            random_string(verifier, 64) && random_string(state, 32) && #[trigger] self.starts(
                provider,
                client_id,
                base_url,
                secure,
                verifier,
                state,
            )
    }
}

/// A flow with `verifier` and `state`.
pub fn oauth_start(
    provider: &OauthProvider,
    client_id: &str,
    base_url: &str,
    secure: bool,
    verifier: &str,
    state: &str,
) -> (s: OauthStart)
    ensures
        s.starts(*provider, client_id@, base_url@, secure, verifier@, state@),
        s.location@ == provider.authorize_url@ + "?response_type=code&client_id="@ + client_id@ + "&redirect_uri="@
            + percent_encoded(encode_utf8(base_url@ + "/v1/auth/oauth/"@ + provider.name@ + "/callback"@))
            + "&code_challenge="@ + base64url_of(sha256_of(encode_utf8(verifier@)))
            + "&code_challenge_method=S256&state="@ + state@,
        secure ==> s.cookie@ == "rb_pkce_state"@ + "="@ + (state@ + ":"@ + verifier@)
            + "; HttpOnly; SameSite=Lax; Path=/; Max-Age=600"@ + "; Secure"@,
        !secure ==> s.cookie@ == "rb_pkce_state"@ + "="@ + (state@ + ":"@ + verifier@)
            + "; HttpOnly; SameSite=Lax; Path=/; Max-Age=600"@,
{
    let uri = callback_address(base_url, provider);
    let mut location = provider.authorize_url.clone();
    location.append("?response_type=code&client_id=");
    location.append(client_id);
    location.append("&redirect_uri=");
    location.append(url_encode(uri.as_str()).as_str());
    location.append("&code_challenge=");
    location.append(derive_code_challenge(verifier).as_str());
    location.append("&code_challenge_method=S256&state=");
    location.append(state);
    let mut cookie = PKCE_STATE_COOKIE.to_owned();
    cookie.append("=");
    let mut value = state.to_owned();
    value.append(":");
    value.append(verifier);
    cookie.append(value.as_str());
    cookie.append("; HttpOnly; SameSite=Lax; Path=/; Max-Age=600");
    if secure {
        cookie.append("; Secure");
    }
    assert(!secure ==> cookie@ =~= cookie_header(state@, verifier@, secure));
    OauthStart { location, cookie }
}

/// Starts a flow for a verified session.
pub fn claude_oauth_start(
    auth: &AuthContext,
    provider: &OauthProvider,
    client_id: &Option<String>,
    base_url: &str,
    secure: bool,
) -> (r: Result<OauthStart, AppError>)
    ensures
        match (verified_session(*auth), *client_id) {
            (Err(e), _) => r == Err::<OauthStart, AppError>(e),
            (Ok(_), None) => r == Err::<OauthStart, AppError>(AppError::RuntimeNotConfigured),
            (Ok(_), Some(id)) => r matches Ok(s) && s.starts_fresh(*provider, id@, base_url@, secure),
        },
{
    match require_verified_session(auth) {
        Err(e) => return Err(e),
        Ok(_) => {},
    }
    let verifier = generate_code_verifier();
    let state = generate_state();
    match client_id {
        None => Err(AppError::RuntimeNotConfigured),
        Some(id) => {
            let s = oauth_start(provider, id.as_str(), base_url, secure, verifier.as_str(), state.as_str());
            assert(s.starts(*provider, id@, base_url@, secure, verifier@, state@));
            assert(s.starts_fresh(*provider, id@, base_url@, secure));
            Ok(s)
        },
    }
}

/// The cookie of a flow gives back the state and the verifier of that flow.
pub proof fn cookie_value_splits(state: Seq<char>, verifier: Seq<char>, n: int)
    requires
        random_string(state, n),
    ensures
        split_at_first(cookie_value(state, verifier), ':') == Some((state, verifier)),
{
    reveal_strlit(":");
    let v = cookie_value(state, verifier);
    assert forall|j: int| 0 <= j < state.len() implies v[j] != ':' by {
        assert(v[j] == state[j]);
    }
    assert(v[state.len() as int] == ':');
    lemma_first_place(v, ':', state.len() as int);
    assert(v.take(state.len() as int) =~= state);
    assert(v.skip(state.len() as int + 1) =~= verifier);
}

} // verus!
