//! `POST /v1/auth/signup` and `POST /v1/auth/login`: accounts and sessions.

use crate::digest::alphanumeric;
use crate::error::AppError;
use crate::ids::{hex_digit, nibble, Uuid};
use crate::json::{self, json_of, Json};
use crate::text::{chars_of, find_char, first_place, lemma_first_place, lowercase_of, same, string_between, string_of};
use vstd::prelude::*;
use vstd::string::*;

verus! {

/// The shortest password that is accepted, in characters.
pub const MIN_PASSWORD_CHARS: usize = 12;

/// How long a verification link is good for, in seconds (one hour).
pub const VERIFY_TOKEN_TTL_SECS: i64 = 3600;

#[derive(Debug)]
pub struct SignupRequest {
    pub email: String,
    /// Plaintext password, minimum 12 characters.
    pub password: String,
    /// Display name for the new tenant workspace.
    pub tenant_name: String,
}

#[derive(Debug, Clone, Copy)]
pub struct SignupResponse {
    /// Whether the e-mail address must be verified before the tenant can be used.
    pub email_verification_required: bool,
    pub user_id: Uuid,
}

impl SignupResponse {
    /// The response in JSON.
    pub fn to_json(&self) -> (v: serde_json::Value)
        ensures
            json_of(v) == Json::Object(
                map![
                    "email_verification_required"@ => Json::Bool(self.email_verification_required),
                    "user_id"@ => Json::Str(self.user_id.text()),
                ],
            ),
    {
        let v = json::with(
            json::object(),
            "email_verification_required",
            json::boolean(self.email_verification_required),
        );
        json::with(v, "user_id", json::uuid(&self.user_id))
    }
}

/// The value of the `Set-Cookie` header for a session token.
pub open spec fn session_cookie(token: Seq<char>, secure: bool) -> Seq<char> {
    "rb_session="@ + token + "; HttpOnly; SameSite=Lax; Path=/"@ + if secure {
        "; Secure"@
    } else {
        Seq::empty()
    }
}

/// The value of the `Set-Cookie` header for a session token.
pub fn build_session_cookie(token: &str, secure: bool) -> (s: String)
    ensures
        s@ == session_cookie(token@, secure),
        secure ==> s@ == "rb_session="@ + token@ + "; HttpOnly; SameSite=Lax; Path=/"@ + "; Secure"@,
        !secure ==> s@ == "rb_session="@ + token@ + "; HttpOnly; SameSite=Lax; Path=/"@,
{
    let mut s = "rb_session=".to_owned();
    s.append(token);
    s.append("; HttpOnly; SameSite=Lax; Path=/");
    if secure {
        s.append("; Secure");
    }
    assert(!secure ==> s@ =~= session_cookie(token@, secure));
    s
}

/// Whether `email` has something before its first `@`, and a dot after it.
pub open spec fn plausible_email(email: Seq<char>) -> bool {
    match first_place(email, '@') {
        None => false,
        Some(at) => at > 0 && exists|i: int| at < i < email.len() && #[trigger] email[i] == '.',
    }
}

/// Accepts an e-mail address with something before its first `@` and a dot after it.
pub fn validate_email(email: &str) -> (r: Result<(), AppError>)
    ensures
        r == if plausible_email(email@) {
            Ok::<(), AppError>(())
        } else {
            Err(AppError::InvalidEmail)
        },
        r is Ok <==> exists|at: int, dot: int|
            0 < at < dot < email@.len() && #[trigger] email@[at] == '@' && #[trigger] email@[dot] == '.' && forall|k: int|
                0 <= k < at ==> email@[k] != '@',
{
    let chars = chars_of(email);
    let at: usize = match find_char(&chars, '@') {
        None => return Err(AppError::InvalidEmail),
        Some(i) => i,
    };
    if at == 0 {
        return Err(AppError::InvalidEmail);
    }
    let n: usize = chars.len();
    let mut i: usize = at;
    while i < n
        invariant
            at <= i <= n,
            n == chars@.len(),
            chars@ == email@,
            at > 0,
            first_place(email@, '@') == Some(at as int),
            email@[at as int] == '@',
            forall|j: int| at < j < i ==> email@[j] != '.',
            forall|k: int| 0 <= k < at ==> email@[k] != '@',
        decreases n - i,
    {
        if chars[i] == '.' {
            assert(email@[i as int] == '.');
            assert(email@[at as int] == '@');
            return Ok(());
        }
        i += 1;
    }
    Err(AppError::InvalidEmail)
}

/// The runs of ASCII letters and digits among the first `n` characters of `s`,
/// joined by single hyphens.
pub open spec fn runs_joined(s: Seq<char>, n: int) -> Seq<char>
    decreases n,
{
    if n <= 0 {
        Seq::empty()
    } else {
        let before = runs_joined(s, n - 1);
        let c = s[n - 1];
        if !alphanumeric(c) {
            before
        } else if before.len() > 0 && !alphanumeric(s[n - 2]) {
            before.push('-').push(c)
        } else {
            before.push(c)
        }
    }
}

/// The slug of a tenant: its name in lower case, with everything but letters and
/// digits collapsed to hyphens, and the first six digits of its ID.
pub open spec fn slug(name: Seq<char>, id: Uuid) -> Seq<char> {
    let lower = lowercase_of(name);
    let base = runs_joined(lower, lower.len() as int);
    (if base.len() == 0 {
        "workspace"@
    } else {
        base
    }) + "-"@ + id.text().take(6)
}

/// Whether `c` is an ASCII letter or digit.
fn is_alphanumeric(c: char) -> (r: bool)
    ensures
        r == alphanumeric(c),
{
    ('0' <= c && c <= '9') || ('A' <= c && c <= 'Z') || ('a' <= c && c <= 'z')
}

/// The slug of a tenant. It has no capitals.
pub fn derive_slug(name: &str, id: Uuid) -> (r: String)
    ensures
        r@ == slug(name@, id),
        runs_joined(lowercase_of(name@), lowercase_of(name@).len() as int).len() == 0 ==> r@ == "workspace"@ + "-"@
            + id.text().subrange(0, 6),
        runs_joined(lowercase_of(name@), lowercase_of(name@).len() as int).len() > 0 ==> r@ == runs_joined(
            lowercase_of(name@),
            lowercase_of(name@).len() as int,
        ) + "-"@ + id.text().subrange(0, 6),
        forall|i: int| 0 <= i < r@.len() ==> !('A' <= #[trigger] r@[i] <= 'Z'),
{
    let lower = chars_of(name.to_lowercase().as_str());
    let mut base = String::new();
    let mut pending = false;
    let mut i: usize = 0;
    while i < lower.len()
        invariant
            lower@ == lowercase_of(name@),
            i <= lower@.len(),
            base@ == runs_joined(lower@, i as int),
            pending == (i > 0 && !alphanumeric(lower@[i - 1])),
            forall|j: int| 0 <= j < lower@.len() ==> !('A' <= #[trigger] lower@[j] <= 'Z'),
            forall|j: int| 0 <= j < base@.len() ==> !('A' <= #[trigger] base@[j] <= 'Z'),
        decreases lower@.len() - i,
    {
        let c = lower[i];
        if is_alphanumeric(c) {
            if pending && !base.as_str().is_empty() {
                base.push('-');
            }
            base.push(c);
            pending = false;
        } else {
            pending = true;
        }
        i += 1;
    }
    if base.as_str().is_empty() {
        proof {
            reveal_strlit("workspace");
        }
        base = "workspace".to_owned();
    }
    let ghost start = base@;
    proof {
        reveal_strlit("-");
    }
    base.append("-");
    let digits = chars_of(id.to_text().as_str());
    base.append(string_between(&digits, 0, 6).as_str());
    assert(id.text().take(6) =~= id.text().subrange(0, 6));
    assert(digits@.subrange(0, 6) =~= id.text().take(6));
    assert forall|j: int| 0 <= j < base@.len() implies !('A' <= #[trigger] base@[j] <= 'Z') by {
        if j < start.len() {
            assert(base@[j] == start[j]);
        } else if j > start.len() {
            let k = j - start.len() - 1;
            assert(base@[j] == id.text()[k]);
            assert(id.text()[k] == hex_digit(nibble(id.bits, k)));
            assert(0 <= nibble(id.bits, k) < 16);
        }
    }
    base
}

proof fn lemma_runs_clean(s: Seq<char>, n: int)
    requires
        0 <= n <= s.len(),
    ensures
        forall|i: int|
            0 <= i < runs_joined(s, n).len() ==> alphanumeric(#[trigger] runs_joined(s, n)[i]) || (runs_joined(s, n)[i]
                == '-' && 0 < i < runs_joined(s, n).len() - 1),
        forall|i: int|
            0 < i < runs_joined(s, n).len() && #[trigger] runs_joined(s, n)[i] == '-' ==> runs_joined(s, n)[i - 1]
                != '-',
    decreases n,
{
    if n > 0 {
        lemma_runs_clean(s, n - 1);
        let before = runs_joined(s, n - 1);
        let after = runs_joined(s, n);
        assert forall|i: int| 0 <= i < after.len() implies alphanumeric(#[trigger] after[i]) || (after[i] == '-' && 0 < i
            < after.len() - 1) by {
            if i < before.len() {
                assert(after[i] == before[i]);
            }
        }
        assert forall|i: int| 0 < i < after.len() && #[trigger] after[i] == '-' implies after[i - 1] != '-' by {
            if i < before.len() {
                assert(after[i] == before[i]);
                assert(after[i - 1] == before[i - 1]);
            } else {
                assert(after[i - 1] == before[i - 1]);
                assert(alphanumeric(before[before.len() - 1]));
            }
        }
    }
}

/// A slug is made of ASCII letters, digits and single hyphens, none of them at
/// either end, and ends with the first six digits of the tenant's ID.
pub proof fn slug_is_clean(name: Seq<char>, id: Uuid)
    ensures
        slug(name, id).len() >= 8,
        slug(name, id).skip(slug(name, id).len() - 6) == id.text().take(6),
        forall|i: int|
            0 <= i < slug(name, id).len() ==> alphanumeric(#[trigger] slug(name, id)[i]) || (slug(name, id)[i] == '-'
                && 0 < i < slug(name, id).len() - 1),
        forall|i: int|
            0 < i < slug(name, id).len() && #[trigger] slug(name, id)[i] == '-' ==> slug(name, id)[i - 1] != '-',
{
    reveal_strlit("workspace");
    reveal_strlit("-");
    let lower = lowercase_of(name);
    let runs = runs_joined(lower, lower.len() as int);
    lemma_runs_clean(lower, lower.len() as int);
    let base = if runs.len() == 0 {
        "workspace"@
    } else {
        runs
    };
    let s = slug(name, id);
    let k = base.len() as int;
    assert(s.len() == k + 7);
    assert(s.skip(s.len() - 6) =~= id.text().take(6));
    assert forall|i: int| 0 <= i < 6 implies alphanumeric(#[trigger] id.text()[i]) by {
        let d = nibble(id.bits, i);
        assert(0 <= d < 16);
        assert(id.text()[i] == hex_digit(d));
    }
    assert forall|i: int| 0 <= i < s.len() implies alphanumeric(#[trigger] s[i]) || (s[i] == '-' && 0 < i < s.len() - 1) by {
        if i < k {
            assert(s[i] == base[i]);
        } else if i > k {
            assert(s[i] == id.text()[i - k - 1]);
        }
    }
    assert forall|i: int| 0 < i < s.len() && #[trigger] s[i] == '-' implies s[i - 1] != '-' by {
        if i < k {
            assert(s[i] == base[i] && s[i - 1] == base[i - 1]);
        } else if i == k {
            assert(s[i - 1] == base[k - 1]);
        } else {
            assert(s[i] == id.text()[i - k - 1]);
        }
    }
}

/// Whether an e-mail transport delivers nothing, so that addresses count as verified.
pub open spec fn undelivered(transport: Seq<char>) -> bool {
    transport == "console"@ || transport == "noop"@
}

/// Whether an e-mail transport delivers nothing, so that addresses count as verified.
pub fn auto_verifies(transport: &str) -> (r: bool)
    ensures
        r == undelivered(transport@),
        r <==> transport@ == "console"@ || transport@ == "noop"@,
{
    same(transport, "console") || same(transport, "noop")
}

/// The rows that a signup inserts.
#[derive(Debug)]
pub struct SignupRows {
    pub tenant_id: Uuid,
    pub tenant_name: String,
    pub slug: String,
    pub user_id: Uuid,
    pub email: String,
    pub password_hash: String,
    /// The user's role in the tenant.
    pub role: &'static str,
    /// For how many seconds the verification token is good.
    pub verify_ttl_secs: i64,
    pub session_id: Uuid,
}

impl SignupRows {
    /// Whether these are the rows for `body`, the password's digest being `password_hash`.
    pub open spec fn made_for(&self, body: SignupRequest, password_hash: String) -> bool {
        &&& self.tenant_id.is_v4()
        &&& self.tenant_name@ == body.tenant_name@
        &&& self.slug@ == slug(body.tenant_name@, self.tenant_id)
        &&& self.user_id.is_v4()
        &&& self.email@ == body.email@
        &&& self.password_hash == password_hash
        &&& self.role@ == "owner"@
        &&& self.verify_ttl_secs == VERIFY_TOKEN_TTL_SECS
        &&& self.session_id.is_v4()
    }
}

/// The tokens that were made for a new account.
#[derive(Debug)]
pub struct SignupTokens {
    pub tenant_id: Uuid,
    pub user_id: Uuid,
    pub session_token: String,
    pub email_token: String,
}

/// What was learnt last.
#[derive(Debug)]
pub enum SignupProgress {
    /// Nothing yet.
    Begin,
    /// The password's digest, unless it could not be made.
    Hashed(Option<String>),
    /// Whether the e-mail address is registered, and the password's digest.
    EmailChecked(bool, String),
    /// The account, unless it could not be created.
    Created(Option<SignupTokens>),
    /// Whether the tenant's schema was migrated.
    Migrated(SignupTokens, bool),
    /// Whether the e-mail address was marked as verified.
    Verified(SignupTokens, bool),
    /// Why the mail with the link could not be composed, if it could not.
    Composed(SignupTokens, Option<AppError>),
}

/// What to do next.
#[derive(Debug)]
pub enum SignupAction {
    /// Hash the password.
    HashPassword { password: String },
    /// In a transaction: look whether the e-mail address is registered.
    CheckEmail { email: String, password_hash: String },
    /// In the same transaction: insert tenant, schema, user, ownership, verification
    /// token, event and session, and commit.
    Create(SignupRows),
    /// Migrate the tenant's schema.
    Migrate(SignupTokens),
    /// Mark the e-mail address as verified.
    MarkVerified(SignupTokens),
    /// Compose the mail with the link to this address.
    Compose { to: String, link: String, tokens: SignupTokens },
    /// Send the mail, which may fail, then answer with the cookie.
    Answer { cookie: String, response: SignupResponse },
    /// Refuse.
    Refuse(AppError),
}

/// The service's settings, as far as accounts depend on them.
#[derive(Debug)]
pub struct AccountSettings {
    pub base_url: String,
    pub email_transport: String,
    pub secure_cookies: bool,
    /// Whether tenant schemas are migrated at signup.
    pub migrates: bool,
}

/// Whether `action` answers for the account behind `tokens`.
pub open spec fn signup_answered(action: SignupAction, settings: AccountSettings, tokens: SignupTokens) -> bool {
    &&& action matches SignupAction::Answer { cookie, response }
    &&& cookie@ == session_cookie(tokens.session_token@, settings.secure_cookies)
    &&& response.user_id == tokens.user_id
    &&& response.email_verification_required == !undelivered(settings.email_transport@)
}

/// Whether `action` has the mail composed that verifies the address behind `tokens`.
pub open spec fn signup_composes(
    action: SignupAction,
    settings: AccountSettings,
    email: Seq<char>,
    tokens: SignupTokens,
) -> bool {
    action matches SignupAction::Compose { to, link, tokens: t } && t == tokens && to@ == email && link@
        == settings.base_url@ + "/auth/verify-email?token="@ + tokens.email_token@
}

/// What follows once the tenant's schema is in place.
pub open spec fn after_migration(
    action: SignupAction,
    settings: AccountSettings,
    email: Seq<char>,
    tokens: SignupTokens,
) -> bool {
    if undelivered(settings.email_transport@) {
        action == SignupAction::MarkVerified(tokens)
    } else {
        signup_composes(action, settings, email, tokens)
    }
}

fn answer_signup(settings: &AccountSettings, tokens: SignupTokens) -> (action: SignupAction)
    ensures
        signup_answered(action, *settings, tokens),
{
    SignupAction::Answer {
        cookie: build_session_cookie(tokens.session_token.as_str(), settings.secure_cookies),
        response: SignupResponse {
            email_verification_required: !auto_verifies(settings.email_transport.as_str()),
            user_id: tokens.user_id,
        },
    }
}

fn compose_mail(settings: &AccountSettings, email: &str, tokens: SignupTokens) -> (action: SignupAction)
    ensures
        signup_composes(action, *settings, email@, tokens),
{
    let mut link = settings.base_url.clone();
    link.append("/auth/verify-email?token=");
    link.append(tokens.email_token.as_str());
    SignupAction::Compose { to: email.to_owned(), link, tokens }
}

fn continue_signup(settings: &AccountSettings, email: &str, tokens: SignupTokens) -> (action: SignupAction)
    ensures
        after_migration(action, *settings, email@, tokens),
{
    if auto_verifies(settings.email_transport.as_str()) {
        SignupAction::MarkVerified(tokens)
    } else {
        compose_mail(settings, email, tokens)
    }
}

/// The next step of a signup. E-mail address and password are looked at before
/// anything else; a registered address is refused. Where e-mail is not delivered,
/// the address counts as verified. A mail that cannot be composed ends the signup
/// with that error; one that cannot be sent does not.
pub fn signup(settings: &AccountSettings, body: &SignupRequest, progress: SignupProgress) -> (action: SignupAction)
    ensures
        !plausible_email(body.email@) ==> action == SignupAction::Refuse(AppError::InvalidEmail),
        plausible_email(body.email@) && body.password@.len() < MIN_PASSWORD_CHARS ==> action == SignupAction::Refuse(
            AppError::WeakPassword,
        ),
        plausible_email(body.email@) && body.password@.len() >= MIN_PASSWORD_CHARS ==> match progress {
            SignupProgress::Begin => action matches SignupAction::HashPassword { password } && password@
                == body.password@,
            SignupProgress::Hashed(None) => action == SignupAction::Refuse(AppError::Internal),
            SignupProgress::Hashed(Some(hash)) => action matches SignupAction::CheckEmail { email, password_hash }
                && email@ == body.email@ && password_hash == hash,
            SignupProgress::EmailChecked(true, _) => action == SignupAction::Refuse(AppError::EmailTaken),
            SignupProgress::EmailChecked(false, hash) => action matches SignupAction::Create(rows) && rows.made_for(
                *body,
                hash,
            ),
            SignupProgress::Created(None) => action == SignupAction::Refuse(AppError::Database),
            SignupProgress::Created(Some(tokens)) => if settings.migrates {
                action == SignupAction::Migrate(tokens)
            } else {
                after_migration(action, *settings, body.email@, tokens)
            },
            SignupProgress::Migrated(_, false) => action == SignupAction::Refuse(AppError::Internal),
            SignupProgress::Migrated(tokens, true) => after_migration(action, *settings, body.email@, tokens),
            SignupProgress::Verified(_, false) => action == SignupAction::Refuse(AppError::Database),
            SignupProgress::Verified(tokens, true) => signup_composes(action, *settings, body.email@, tokens),
            SignupProgress::Composed(_, Some(e)) => action == SignupAction::Refuse(e),
            SignupProgress::Composed(tokens, None) => signup_answered(action, *settings, tokens),
        },
        body.password@.len() < 12 ==> action is Refuse,
        action matches SignupAction::Create(rows) ==> {
            &&& rows.tenant_name@ == body.tenant_name@
            &&& rows.email@ == body.email@
            &&& rows.slug@ == slug(body.tenant_name@, rows.tenant_id)
            &&& rows.role@ == "owner"@
            &&& rows.verify_ttl_secs == 3600
            &&& rows.tenant_id.is_v4() && rows.user_id.is_v4() && rows.session_id.is_v4()
            &&& match progress {
                SignupProgress::EmailChecked(taken, hash) => !taken && rows.password_hash == hash,
                _ => false,
            }
        },
        action matches SignupAction::Compose { to, link, tokens } ==> to@ == body.email@ && link@ == settings.base_url@
            + "/auth/verify-email?token="@ + tokens.email_token@ && match progress {
            SignupProgress::Created(Some(t)) => t == tokens && !settings.migrates && settings.email_transport@
                != "console"@ && settings.email_transport@ != "noop"@,
            SignupProgress::Migrated(t, done) => t == tokens && done && settings.email_transport@ != "console"@
                && settings.email_transport@ != "noop"@,
            SignupProgress::Verified(t, done) => t == tokens && done,
            _ => false,
        },
        action matches SignupAction::MarkVerified(tokens) ==> settings.email_transport@ == "console"@
            || settings.email_transport@ == "noop"@,
        action matches SignupAction::Answer { cookie, response } ==> match progress {
            SignupProgress::Composed(tokens, None) => {
                &&& response.user_id == tokens.user_id
                &&& response.email_verification_required == !(settings.email_transport@ == "console"@
                    || settings.email_transport@ == "noop"@)
                &&& cookie@ == session_cookie(tokens.session_token@, settings.secure_cookies)
            },
            _ => false,
        },
{
    match validate_email(body.email.as_str()) {
        Err(e) => return SignupAction::Refuse(e),
        Ok(()) => {},
    }
    if body.password.as_str().unicode_len() < MIN_PASSWORD_CHARS {
        return SignupAction::Refuse(AppError::WeakPassword);
    }
    match progress {
        SignupProgress::Begin => SignupAction::HashPassword { password: body.password.clone() },
        SignupProgress::Hashed(None) => SignupAction::Refuse(AppError::Internal),
        SignupProgress::Hashed(Some(password_hash)) => SignupAction::CheckEmail {
            email: body.email.clone(),
            password_hash,
        },
        SignupProgress::EmailChecked(true, _) => SignupAction::Refuse(AppError::EmailTaken),
        SignupProgress::EmailChecked(false, password_hash) => {
            let tenant_id = Uuid::new_v4();
            SignupAction::Create(
                SignupRows {
                    tenant_id,
                    tenant_name: body.tenant_name.clone(),
                    slug: derive_slug(body.tenant_name.as_str(), tenant_id),
                    user_id: Uuid::new_v4(),
                    email: body.email.clone(),
                    password_hash,
                    role: "owner",
                    verify_ttl_secs: VERIFY_TOKEN_TTL_SECS,
                    session_id: Uuid::new_v4(),
                },
            )
        },
        SignupProgress::Created(None) => SignupAction::Refuse(AppError::Database),
        SignupProgress::Created(Some(tokens)) => if settings.migrates {
            SignupAction::Migrate(tokens)
        } else {
            continue_signup(settings, body.email.as_str(), tokens)
        },
        SignupProgress::Migrated(tokens, done) => if done {
            continue_signup(settings, body.email.as_str(), tokens)
        } else {
            SignupAction::Refuse(AppError::Internal)
        },
        SignupProgress::Verified(tokens, done) => if done {
            compose_mail(settings, body.email.as_str(), tokens)
        } else {
            SignupAction::Refuse(AppError::Database)
        },
        SignupProgress::Composed(tokens, flaw) => match flaw {
            Some(e) => SignupAction::Refuse(e),
            None => answer_signup(settings, tokens),
        },
    }
}

#[derive(Debug)]
pub struct LoginRequest {
    pub email: String,
    /// Plaintext password.
    pub password: String,
}

#[derive(Debug, Clone, Copy)]
pub struct LoginResponse {
    pub user_id: Uuid,
    pub tenant_id: Uuid,
    /// Whether the e-mail address is still to be verified.
    pub email_verification_required: bool,
}

impl LoginResponse {
    /// The response in JSON.
    pub fn to_json(&self) -> (v: serde_json::Value)
        ensures
            json_of(v) == Json::Object(
                map![
                    "user_id"@ => Json::Str(self.user_id.text()),
                    "tenant_id"@ => Json::Str(self.tenant_id.text()),
                    "email_verification_required"@ => Json::Bool(self.email_verification_required),
                ],
            ),
    {
        let v = json::with(json::object(), "user_id", json::uuid(&self.user_id));
        let v = json::with(v, "tenant_id", json::uuid(&self.tenant_id));
        json::with(v, "email_verification_required", json::boolean(self.email_verification_required))
    }
}

/// A user as login finds them, with the oldest of their active tenants.
#[derive(Debug)]
pub struct LoginUser {
    pub user_id: Uuid,
    pub password_hash: String,
    pub email_verified: bool,
    pub status: String,
    pub tenant_id: Uuid,
}

/// What was learnt last.
#[derive(Debug)]
pub enum LoginProgress {
    /// Nothing yet.
    Begin,
    /// Whether the address may try to log in.
    RateChecked(bool),
    /// The user with the address, if there is one in an active tenant.
    Found(Option<LoginUser>),
    /// Whether the password is right; `None` where that could not be found out.
    PasswordChecked(LoginUser, Option<bool>),
    /// The session's token, unless the session could not be created.
    SessionCreated(LoginUser, Option<String>),
}

/// What to do next.
#[derive(Debug)]
pub enum LoginAction {
    /// Ask the rate limiter about the address.
    CheckRate { email: String },
    /// Look the user with the address up.
    FindUser { email: String },
    /// Check the password against the user's hash.
    CheckPassword { password: String, user: LoginUser },
    /// Tell the rate limiter of a success with the address, and create a session.
    CreateSession { email: String, user: LoginUser, session_id: Uuid },
    /// Answer with the cookie.
    Answer { cookie: String, response: LoginResponse },
    /// Hash a dummy password if `dummy_hash` says so, so that it takes as long as for
    /// a user who exists; tell the rate limiter of a failure with the address in
    /// `failed_email`, if there is one; then refuse.
    Refuse { error: AppError, dummy_hash: bool, failed_email: Option<String> },
}

/// Whether `action` refuses with `error`, without a dummy hash and without counting a
/// failure.
pub open spec fn login_refused(action: LoginAction, error: AppError) -> bool {
    action == (LoginAction::Refuse { error, dummy_hash: false, failed_email: None })
}

/// Whether `action` refuses the credentials, after a dummy hash if `dummy` says so, and
/// counts a failure with `email`.
pub open spec fn login_failed(action: LoginAction, email: Seq<char>, dummy: bool) -> bool {
    action matches LoginAction::Refuse { error, dummy_hash, failed_email } && error == AppError::InvalidCredentials
        && dummy_hash == dummy && (failed_email matches Some(e) && e@ == email)
}

/// The next step of a login. An unknown address and a wrong password are refused
/// alike, and both count as failures; a suspended account is refused without
/// counting.
pub fn login(secure_cookies: bool, body: &LoginRequest, progress: LoginProgress) -> (action: LoginAction)
    ensures
        match progress {
            LoginProgress::Begin => action matches LoginAction::CheckRate { email } && email@ == body.email@,
            LoginProgress::RateChecked(true) => action matches LoginAction::FindUser { email } && email@ == body.email@,
            LoginProgress::RateChecked(false) => login_refused(action, AppError::RateLimited),
            LoginProgress::Found(None) => login_failed(action, body.email@, true),
            LoginProgress::Found(Some(user)) => action matches LoginAction::CheckPassword { password, user: u } && u
                == user && password@ == body.password@,
            LoginProgress::PasswordChecked(_, None) => login_refused(action, AppError::Internal),
            LoginProgress::PasswordChecked(_, Some(false)) => login_failed(action, body.email@, false),
            LoginProgress::PasswordChecked(user, Some(true)) => if user.status@ == "suspended"@ {
                login_refused(action, AppError::AccountSuspended)
            } else {
                action matches LoginAction::CreateSession { email, user: u, session_id } && email@ == body.email@ && u
                    == user && session_id.is_v4()
            },
            LoginProgress::SessionCreated(_, None) => login_refused(action, AppError::Database),
            LoginProgress::SessionCreated(user, Some(token)) => {
                &&& action matches LoginAction::Answer { cookie, response }
                &&& cookie@ == session_cookie(token@, secure_cookies)
                &&& response.user_id == user.user_id
                &&& response.tenant_id == user.tenant_id
                &&& response.email_verification_required == !user.email_verified
            },
        },
        action matches LoginAction::Refuse { error, dummy_hash, failed_email } ==> match progress {
            LoginProgress::RateChecked(false) => error == AppError::RateLimited && !dummy_hash && failed_email is None,
            LoginProgress::Found(None) => error == AppError::InvalidCredentials && dummy_hash && (failed_email matches Some(
                e,
            ) && e@ == body.email@),
            LoginProgress::PasswordChecked(_, Some(false)) => error == AppError::InvalidCredentials && !dummy_hash && (
            failed_email matches Some(e) && e@ == body.email@),
            LoginProgress::PasswordChecked(_, None) => error == AppError::Internal && failed_email is None,
            LoginProgress::PasswordChecked(user, Some(true)) => error == AppError::AccountSuspended && failed_email is None
                && user.status@ == "suspended"@,
            LoginProgress::SessionCreated(_, None) => error == AppError::Database && failed_email is None,
            _ => false,
        },
{
    match progress {
        LoginProgress::Begin => LoginAction::CheckRate { email: body.email.clone() },
        LoginProgress::RateChecked(allowed) => if allowed {
            LoginAction::FindUser { email: body.email.clone() }
        } else {
            LoginAction::Refuse { error: AppError::RateLimited, dummy_hash: false, failed_email: None }
        },
        LoginProgress::Found(None) => LoginAction::Refuse {
            error: AppError::InvalidCredentials,
            dummy_hash: true,
            failed_email: Some(body.email.clone()),
        },
        LoginProgress::Found(Some(user)) => LoginAction::CheckPassword { password: body.password.clone(), user },
        LoginProgress::PasswordChecked(user, right) => match right {
            None => LoginAction::Refuse { error: AppError::Internal, dummy_hash: false, failed_email: None },
            Some(false) => LoginAction::Refuse {
                error: AppError::InvalidCredentials,
                dummy_hash: false,
                failed_email: Some(body.email.clone()),
            },
            Some(true) => if same(user.status.as_str(), "suspended") {
                LoginAction::Refuse { error: AppError::AccountSuspended, dummy_hash: false, failed_email: None }
            } else {
                LoginAction::CreateSession { email: body.email.clone(), user, session_id: Uuid::new_v4() }
            },
        },
        LoginProgress::SessionCreated(user, token) => match token {
            None => LoginAction::Refuse { error: AppError::Database, dummy_hash: false, failed_email: None },
            Some(t) => LoginAction::Answer {
                cookie: build_session_cookie(t.as_str(), secure_cookies),
                response: LoginResponse {
                    user_id: user.user_id,
                    tenant_id: user.tenant_id,
                    email_verification_required: !user.email_verified,
                },
            },
        },
    }
}

proof fn lemma_runs_prefix(s: Seq<char>, t: Seq<char>, n: int)
    requires
        0 <= n <= s.len(),
        n <= t.len(),
        forall|i: int| 0 <= i < n ==> s[i] == t[i],
    ensures
        runs_joined(s, n) == runs_joined(t, n),
    decreases n,
{
    if n > 0 {
        lemma_runs_prefix(s, t, n - 1);
    }
}

proof fn lemma_runs_after(a: Seq<char>, c: char, b: Seq<char>, n: int)
    requires
        !alphanumeric(c),
        0 <= n <= b.len(),
    ensures
        ({
            let left = runs_joined(a, a.len() as int);
            let right = runs_joined(b, n);
            let all = runs_joined(a.push(c) + b, a.len() + 1 + n);
            all == if left.len() == 0 {
                right
            } else if right.len() == 0 {
                left
            } else {
                left.push('-') + right
            }
        }),
        runs_joined(b, n).len() == 0 ==> forall|i: int| 0 <= i < n ==> !alphanumeric(#[trigger] b[i]),
    decreases n,
{
    let s = a.push(c) + b;
    let left = runs_joined(a, a.len() as int);
    if n == 0 {
        lemma_runs_prefix(a, s, a.len() as int);
        assert(s[a.len() as int] == c);
    } else {
        lemma_runs_after(a, c, b, n - 1);
        let m = a.len() + 1 + n;
        let x = b[n - 1];
        assert(s[m - 1] == x);
        assert(s[m - 2] == if n == 1 {
            c
        } else {
            b[n - 2]
        });
        let right = runs_joined(b, n - 1);
        let now = runs_joined(b, n);
        let before = runs_joined(s, m - 1);
        if alphanumeric(x) && left.len() > 0 {
            if right.len() == 0 {
                assert(n >= 2 ==> !alphanumeric(b[n - 2]));
                assert(runs_joined(s, m) =~= left.push('-') + now);
            } else {
                assert(runs_joined(s, m) =~= left.push('-') + now);
            }
        }
    }
}

/// What is neither a letter nor a digit becomes one hyphen between what stands before and
/// after it, and nothing at the ends.
pub proof fn separators_become_hyphens(a: Seq<char>, c: char, b: Seq<char>)
    requires
        !alphanumeric(c),
    ensures
        ({
            let left = runs_joined(a, a.len() as int);
            let right = runs_joined(b, b.len() as int);
            let s = a + seq![c] + b;
            runs_joined(s, s.len() as int) == if left.len() == 0 {
                right
            } else if right.len() == 0 {
                left
            } else {
                left + seq!['-'] + right
            }
        }),
{
    lemma_runs_after(a, c, b, b.len() as int);
    assert(a + seq![c] + b =~= a.push(c) + b);
    let left = runs_joined(a, a.len() as int);
    let right = runs_joined(b, b.len() as int);
    assert(left + seq!['-'] + right =~= left.push('-') + right);
}

/// Letters and digits are kept as they are.
pub proof fn letters_and_digits_are_kept(w: Seq<char>, n: int)
    requires
        0 <= n <= w.len(),
        forall|i: int| 0 <= i < n ==> alphanumeric(#[trigger] w[i]),
    ensures
        runs_joined(w, n) == w.take(n),
    decreases n,
{
    if n > 0 {
        letters_and_digits_are_kept(w, n - 1);
        assert(alphanumeric(w[n - 1]));
        assert(n >= 2 ==> alphanumeric(w[n - 2]));
        assert(w.take(n - 1).push(w[n - 1]) =~= w.take(n));
    } else {
        assert(w.take(0) =~= Seq::empty());
    }
}

} // verus!
