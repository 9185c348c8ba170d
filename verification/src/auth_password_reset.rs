//! `POST /v1/auth/forgot-password` and `POST /v1/auth/reset-password`.

use crate::clock::{now_nanoseconds, Timestamp, CLOCK_END};
use crate::digest::{hex_encode, hex_of, sha256, sha256_of};
use crate::error::AppError;
use crate::ids::Uuid;
use vstd::prelude::*;
use vstd::string::*;
use vstd::utf8::*;

verus! {

/// The shortest password that is accepted, in characters.
pub const MIN_PASSWORD_CHARS: usize = 12;

/// How long a reset link is good for, in seconds (15 minutes).
pub const RESET_TOKEN_TTL_SECS: i64 = 900;

#[derive(Debug)]
pub struct ForgotPasswordRequest {
    /// Email address for the account to recover.
    pub email: String,
}

#[derive(Debug)]
pub struct ResetPasswordRequest {
    /// Plaintext reset token from the emailed link.
    pub token: String,
    /// New password; minimum 12 characters.
    pub new_password: String,
}

/// What was learnt last.
#[derive(Debug)]
pub enum ForgotProgress {
    /// Nothing yet.
    Begin,
    /// The user with the address, if there is one.
    Found(Option<Uuid>),
    /// The token that was kept for the user.
    TokenKept(String),
}

/// What to do next.
#[derive(Debug)]
pub enum ForgotAction {
    /// Look the user with the address up.
    FindUser { email: String },
    /// Make a reset token and keep its digest and an event for the user.
    KeepToken { user_id: Uuid, ttl_secs: i64 },
    /// Send the link to this address, which may fail, then answer.
    SendLink { to: String, link: String },
    /// Hash a dummy password, so that it takes as long as for a known address, then answer.
    DummyHash,
}

/// The next step of asking for a reset. The answer is the same whether or not the
/// address is known.
pub fn forgot_password(base_url: &str, body: &ForgotPasswordRequest, progress: ForgotProgress) -> (action: ForgotAction)
    ensures
        match progress {
            ForgotProgress::Begin => action matches ForgotAction::FindUser { email } && email@ == body.email@,
            ForgotProgress::Found(None) => action is DummyHash,
            ForgotProgress::Found(Some(user_id)) => action == (ForgotAction::KeepToken {
                user_id,
                ttl_secs: RESET_TOKEN_TTL_SECS,
            }),
            ForgotProgress::TokenKept(token) => action matches ForgotAction::SendLink { to, link } && to@ == body.email@
                && link@ == base_url@ + "/auth/reset-password?token="@ + token@,
        },
        action matches ForgotAction::KeepToken { user_id, ttl_secs } ==> ttl_secs == 900 && (progress
            matches ForgotProgress::Found(Some(u)) && u == user_id),
{
    match progress {
        ForgotProgress::Begin => ForgotAction::FindUser { email: body.email.clone() },
        ForgotProgress::Found(None) => ForgotAction::DummyHash,
        ForgotProgress::Found(Some(user_id)) => ForgotAction::KeepToken { user_id, ttl_secs: RESET_TOKEN_TTL_SECS },
        ForgotProgress::TokenKept(token) => {
            let mut link = base_url.to_owned();
            link.append("/auth/reset-password?token=");
            link.append(token.as_str());
            ForgotAction::SendLink { to: body.email.clone(), link }
        },
    }
}

/// A reset token as it was kept.
#[derive(Debug, Clone, Copy)]
pub struct ResetToken {
    pub user_id: Uuid,
    pub used: bool,
    pub expires_at: Timestamp,
}

impl ResetToken {
    /// Whether the token can still be used at `now`, in nanoseconds since the start of 1970.
    pub open spec fn usable(&self, now: int) -> bool {
        !self.used && self.expires_at.micros * 1000 >= now
    }
}

/// What was learnt last.
#[derive(Debug)]
pub enum ResetProgress {
    /// Nothing yet.
    Begin,
    /// The new password's digest, unless it could not be made.
    Hashed(Option<String>),
    /// The token with the digest, if there is one, and the new password's digest.
    Found(Option<ResetToken>, String),
}

/// What to do next.
#[derive(Debug)]
pub enum ResetAction {
    /// Hash the new password.
    HashPassword { password: String },
    /// In a transaction: look the token up by its digest, and lock it.
    FindToken { token_hash: String, password_hash: String },
    /// In the same transaction: set the password, mark the token as used, revoke all
    /// sessions of the user, record it, and commit; then answer. `Accounts::after`
    /// says what is kept then.
    Reset { user_id: Uuid, token_hash: String, password_hash: String },
    /// Refuse.
    Refuse(AppError),
}

/// The digest under which a reset token is kept.
pub open spec fn token_hash_of(token: Seq<char>) -> Seq<char> {
    hex_of(sha256_of(encode_utf8(token)))
}

/// The digest under which a reset token is kept.
fn token_hash(token: &str) -> (s: String)
    ensures
        s@ == token_hash_of(token@),
        s@ == hex_of(sha256_of(encode_utf8(token@))),
{
    hex_encode(sha256(token.as_bytes()).as_slice())
}

/// What becomes of a token that was found, at `now` nanoseconds since the start of 1970.
pub fn redeem(token: &ResetToken, hash: String, password_hash: String, now: i128) -> (action: ResetAction)
    ensures
        action == if token.usable(now as int) {
            ResetAction::Reset { user_id: token.user_id, token_hash: hash, password_hash }
        } else {
            ResetAction::Refuse(AppError::InvalidToken)
        },
        token.used || token.expires_at.micros * 1000 < now ==> action == ResetAction::Refuse(AppError::InvalidToken),
        !token.used && token.expires_at.micros * 1000 >= now ==> (action matches ResetAction::Reset {
            user_id,
            token_hash,
            password_hash: p,
        } && user_id == token.user_id && token_hash == hash && p == password_hash),
{
    let expires: i128 = token.expires_at.micros as i128 * 1000;
    if token.used || expires < now {
        ResetAction::Refuse(AppError::InvalidToken)
    } else {
        ResetAction::Reset { user_id: token.user_id, token_hash: hash, password_hash }
    }
}

/// Whether `action` is what becomes of `token` at `now`.
pub open spec fn redeemed(
    action: ResetAction,
    token: ResetToken,
    hash: Seq<char>,
    password_hash: Seq<char>,
    now: int,
) -> bool {
    if token.usable(now) {
        action matches ResetAction::Reset { user_id, token_hash, password_hash: p } && user_id == token.user_id
            && token_hash@ == hash && p@ == password_hash
    } else {
        action == ResetAction::Refuse(AppError::InvalidToken)
    }
}

/// Whether `action` is what becomes of `token` at some time the clock can show.
pub open spec fn redeemed_sometime(
    action: ResetAction,
    token: ResetToken,
    hash: Seq<char>,
    password_hash: Seq<char>,
) -> bool {
    exists|now: int| 0 <= now && now < CLOCK_END && #[trigger] redeemed(action, token, hash, password_hash, now)
}

/// Whether `action` is the next step of a reset.
pub open spec fn reset_step(body: ResetPasswordRequest, progress: ResetProgress, action: ResetAction) -> bool {
    if body.new_password@.len() < MIN_PASSWORD_CHARS {
        action == ResetAction::Refuse(AppError::WeakPassword)
    } else {
        match progress {
            ResetProgress::Begin => action matches ResetAction::HashPassword { password } && password@
                == body.new_password@,
            ResetProgress::Hashed(None) => action == ResetAction::Refuse(AppError::Internal),
            ResetProgress::Hashed(Some(hash)) => action matches ResetAction::FindToken { token_hash, password_hash }
                && token_hash@ == token_hash_of(body.token@) && password_hash == hash,
            ResetProgress::Found(None, _) => action == ResetAction::Refuse(AppError::InvalidToken),
            ResetProgress::Found(Some(token), hash) => redeemed_sometime(
                action,
                token,
                token_hash_of(body.token@),
                hash@,
            ),
        }
    }
}

/// The next step of a reset. The new password is looked at first; the token must
/// be known, unused and not expired.
pub fn reset_password(body: &ResetPasswordRequest, progress: ResetProgress) -> (action: ResetAction)
    ensures
        reset_step(*body, progress, action),
        body.new_password@.len() < 12 ==> action == ResetAction::Refuse(AppError::WeakPassword),
        body.new_password@.len() >= 12 ==> match progress {
            ResetProgress::Begin => action matches ResetAction::HashPassword { password } && password@
                == body.new_password@,
            ResetProgress::Hashed(None) => action == ResetAction::Refuse(AppError::Internal),
            ResetProgress::Hashed(Some(hash)) => action matches ResetAction::FindToken { token_hash, password_hash }
                && token_hash@ == hex_of(sha256_of(encode_utf8(body.token@))) && password_hash == hash,
            ResetProgress::Found(None, _) => action == ResetAction::Refuse(AppError::InvalidToken),
            ResetProgress::Found(Some(token), hash) => match action {
                ResetAction::Reset { user_id, token_hash, password_hash } => !token.used && user_id == token.user_id
                    && token_hash@ == hex_of(sha256_of(encode_utf8(body.token@))) && password_hash@ == hash@
                    && token.expires_at.micros >= 0,
                ResetAction::Refuse(e) => e == AppError::InvalidToken,
                _ => false,
            },
        },
{
    if body.new_password.as_str().unicode_len() < MIN_PASSWORD_CHARS {
        return ResetAction::Refuse(AppError::WeakPassword);
    }
    match progress {
        ResetProgress::Begin => ResetAction::HashPassword { password: body.new_password.clone() },
        ResetProgress::Hashed(hash) => match hash {
            Some(password_hash) => ResetAction::FindToken {
                token_hash: token_hash(body.token.as_str()),
                password_hash,
            },
            None => ResetAction::Refuse(AppError::Internal),
        },
        ResetProgress::Found(None, _) => ResetAction::Refuse(AppError::InvalidToken),
        ResetProgress::Found(Some(token), password_hash) => {
            let now: i128 = now_nanoseconds();
            let ghost p = password_hash@;
            let action = redeem(&token, token_hash(body.token.as_str()), password_hash, now);
            assert(redeemed(action, token, token_hash_of(body.token@), p, now as int));
            assert(redeemed_sometime(action, token, token_hash_of(body.token@), p));
            action
        },
    }
}

/// A session of a user.
pub struct UserSession {
    pub user_id: Uuid,
    pub revoked: bool,
}

/// What is kept of accounts: reset tokens by their digest, the digest of each user's
/// password, and the sessions.
pub struct Accounts {
    pub tokens: Map<Seq<char>, ResetToken>,
    pub passwords: Map<Uuid, Seq<char>>,
    pub sessions: Map<Uuid, UserSession>,
}

impl Accounts {
    /// What a reset finds out about the token of `body`, `password_hash` being the digest
    /// of the new password.
    pub open spec fn found(self, body: ResetPasswordRequest, password_hash: String) -> ResetProgress {
        let hash = token_hash_of(body.token@);
        ResetProgress::Found(
            if self.tokens.contains_key(hash) {
                Some(self.tokens[hash])
            } else {
                None
            },
            password_hash,
        )
    }

    /// What is kept once `action` is done. A reset sets the password of the user, marks
    /// the token as used and revokes all sessions of the user. Nothing else changes
    /// anything.
    pub open spec fn after(self, action: ResetAction) -> Accounts {
        match action {
            ResetAction::Reset { user_id, token_hash, password_hash } => Accounts {
                tokens: if self.tokens.contains_key(token_hash@) {
                    self.tokens.insert(token_hash@, ResetToken { used: true, ..self.tokens[token_hash@] })
                } else {
                    self.tokens
                },
                passwords: self.passwords.insert(user_id, password_hash@),
                sessions: self.sessions.map_values(
                    |s: UserSession| UserSession { user_id: s.user_id, revoked: s.revoked || s.user_id == user_id },
                ),
            },
            _ => self,
        }
    }
}

/// A reset token works once. After a reset the user has the new password, the token
/// is used and no session of the user is left; other users keep theirs. A second
/// call with the same token is refused, at whatever time and with whatever password
/// that is long enough, and changes nothing.
pub proof fn reset_tokens_work_once(
    accounts: Accounts,
    body: ResetPasswordRequest,
    password_hash: String,
    action: ResetAction,
    again: ResetPasswordRequest,
    other_hash: String,
    second: ResetAction,
)
    requires
        reset_step(body, accounts.found(body, password_hash), action),
        action is Reset,
        again.token@ == body.token@,
        again.new_password@.len() >= MIN_PASSWORD_CHARS,
        reset_step(again, accounts.after(action).found(again, other_hash), second),
    ensures
        ({
            let hash = token_hash_of(body.token@);
            let user = accounts.tokens[hash].user_id;
            let after = accounts.after(action);
            &&& accounts.tokens.contains_key(hash) && !accounts.tokens[hash].used
            &&& after.tokens == accounts.tokens.insert(hash, ResetToken { used: true, ..accounts.tokens[hash] })
            &&& after.passwords == accounts.passwords.insert(user, password_hash@)
            &&& after.sessions.dom() == accounts.sessions.dom()
            &&& forall|id: Uuid| #[trigger]
                accounts.sessions.contains_key(id) ==> after.sessions[id].user_id == accounts.sessions[id].user_id
                    && after.sessions[id].revoked == (accounts.sessions[id].revoked || accounts.sessions[id].user_id
                    == user)
            &&& second == ResetAction::Refuse(AppError::InvalidToken)
            &&& after.after(second) == after
        }),
{
    let after = accounts.after(action);
    assert(after.sessions.dom() =~= accounts.sessions.dom());
}

} // verus!
