//! `POST /api/admin/v1/tenants/{id}/impersonate`: a short-lived token with which
//! an operator acts as a member of a tenant.

use crate::admin::v1::{audit_row, AdminCaller, AuditRow, Ending};
use crate::clock::{now_seconds, rfc3339, rfc3339_of, LAST_SECOND};
use crate::digest::{hex_encode, hex_of, random_bytes, sha256, sha256_of};
use crate::error::AppError;
use crate::ids::Uuid;
use crate::json::{self, json_of, Json};
use crate::jwt::{self, jwt_claims, jwt_of, lasting};
use vstd::prelude::*;
use vstd::string::*;
use vstd::utf8::*;

verus! {

/// The longest an impersonation may last, in seconds (15 minutes).
pub const IMPERSONATION_MAX_SECS: i64 = 900;

/// How long an impersonation lasts when the request does not say.
pub fn default_impersonation_secs() -> (secs: i64)
    ensures
        secs == IMPERSONATION_MAX_SECS,
        secs == 900,
{
    IMPERSONATION_MAX_SECS
}

#[derive(Debug, Clone, Copy)]
pub struct ImpersonateReq {
    /// User to impersonate, who must be a member of the tenant.
    pub user_id: Uuid,
    /// Requested duration in seconds; at most 900 are granted.
    pub duration_secs: i64,
}

#[derive(Debug)]
pub struct ImpersonateResp {
    pub token: String,
    pub expires_at: String,
    pub user_id: Uuid,
    pub tenant_id: Uuid,
}

/// What an impersonation token says.
#[derive(Debug)]
pub struct ImpersonationClaims {
    /// The impersonated user.
    pub sub: String,
    /// The tenant.
    pub tid: String,
    /// The operator who asked for the token.
    pub imp: String,
    /// A one-time value that makes every token different.
    pub nonce: String,
    /// When the token expires, in seconds since the start of 1970.
    pub exp: u64,
    /// The kind of token.
    pub typ: &'static str,
}

/// What is known so far.
#[derive(Debug, Clone, Copy)]
pub struct ImpersonateFacts {
    /// Whether the user is a member of the tenant.
    pub member: Option<bool>,
    /// Whether a database statement failed.
    pub failed: bool,
}

/// What to do next.
pub enum ImpersonateAction {
    /// Look whether the user is a member of the tenant.
    FindMember { tenant: Uuid, user: Uuid },
    /// Write the audit row, then answer.
    Answer { audit: AuditRow, reply: Result<ImpersonateResp, AppError> },
}

/// The duration that is granted for a requested one.
pub open spec fn granted(requested: i64) -> i64 {
    if requested < 1 {
        1
    } else if requested > IMPERSONATION_MAX_SECS {
        IMPERSONATION_MAX_SECS
    } else {
        requested
    }
}

/// The second at which a token made at `now` expires.
pub open spec fn expiry(now: i64, requested: i64) -> i64 {
    if now + granted(requested) > i64::MAX {
        i64::MAX
    } else {
        (now + granted(requested)) as i64
    }
}

/// The HMAC key that a token with the one-time value `nonce` is signed with. Another
/// admin token makes another key.
pub open spec fn impersonation_key_of(admin_token: Option<String>, nonce: Seq<char>) -> Seq<u8> {
    sha256_of(
        encode_utf8(
            (match admin_token {
                Some(t) => t@,
                None => Seq::empty(),
            }) + ":imp:"@ + nonce,
        ),
    )
}

/// The HMAC key that a token with the one-time value `nonce` is signed with.
pub fn impersonation_key(admin_token: &Option<String>, nonce: &str) -> (key: Vec<u8>)
    ensures
        key@ == impersonation_key_of(*admin_token, nonce@),
        admin_token matches Some(t) ==> key@ == sha256_of(encode_utf8(t@ + ":imp:"@ + nonce@)),
{
    let mut material = match admin_token {
        Some(t) => t.clone(),
        None => String::new(),
    };
    material.append(":imp:");
    material.append(nonce);
    sha256(material.as_str().as_bytes())
}

/// The granted duration.
pub fn granted_duration(requested: i64) -> (secs: i64)
    ensures
        secs == granted(requested),
        1 <= secs <= IMPERSONATION_MAX_SECS,
        requested < 1 ==> secs == 1,
        1 <= requested <= 900 ==> secs == requested,
        requested > 900 ==> secs == 900,
{
    if requested < 1 {
        1
    } else if requested > IMPERSONATION_MAX_SECS {
        IMPERSONATION_MAX_SECS
    } else {
        requested
    }
}

/// What the token says that `actor` gets at `now` for `req` on `tenant`, with the
/// one-time value `nonce`.
pub open spec fn impersonation_fields(
    actor: Seq<char>,
    tenant: Uuid,
    req: ImpersonateReq,
    nonce: Seq<u8>,
    now: i64,
) -> Map<Seq<char>, Json> {
    let exp = expiry(now, req.duration_secs);
    map![
        "sub"@ => Json::Str(req.user_id.text()),
        "tid"@ => Json::Str(tenant.text()),
        "imp"@ => Json::Str(actor),
        "nonce"@ => Json::Str(hex_of(nonce)),
        "exp"@ => Json::Int(if exp >= 0 { exp as int } else { 0 }),
        "typ"@ => Json::Str("imp"@),
    ]
}

proof fn lemma_lasting(claims: ImpersonationClaims)
    ensures
        lasting(Json::Object(claims.fields())),
{
    reveal_strlit("sub");
    reveal_strlit("tid");
    reveal_strlit("imp");
    reveal_strlit("nonce");
    reveal_strlit("exp");
    reveal_strlit("typ");
    reveal_strlit("aud");
    reveal_strlit("$serde_json::private::RawValue");
    assert("sub"@.len() == 3 && "tid"@.len() == 3 && "imp"@.len() == 3 && "nonce"@.len() == 5);
    assert("sub"@[0] == 's' && "tid"@[0] == 't' && "imp"@[0] == 'i' && "nonce"@[0] == 'n');
    assert("exp"@[0] == 'e' && "typ"@[0] == 't' && "aud"@[0] == 'a');
    assert("exp"@.len() == 3 && "typ"@.len() == 3 && "$serde_json::private::RawValue"@.len() == 30);
}

impl ImpersonationClaims {
    /// The claims in JSON.
    pub open spec fn fields(&self) -> Map<Seq<char>, Json> {
        map![
            "sub"@ => Json::Str(self.sub@),
            "tid"@ => Json::Str(self.tid@),
            "imp"@ => Json::Str(self.imp@),
            "nonce"@ => Json::Str(self.nonce@),
            "exp"@ => Json::Int(self.exp as int),
            "typ"@ => Json::Str(self.typ@),
        ]
    }

    /// The token that carries the claims, signed with `key`.
    pub fn sign(&self, key: &[u8]) -> (r: Result<String, AppError>)
        ensures
            match r {
                Ok(token) => token@ == jwt_of(Json::Object(self.fields()), key@) && jwt_claims(token@, key@) == Some(
                    Json::Object(self.fields()),
                ),
                Err(_) => false,
            },
    {
        let v = json::with(json::object(), "sub", json::string(self.sub.as_str()));
        let v = json::with(v, "tid", json::string(self.tid.as_str()));
        let v = json::with(v, "imp", json::string(self.imp.as_str()));
        let v = json::with(v, "nonce", json::string(self.nonce.as_str()));
        let v = json::with(v, "exp", json::count(self.exp));
        let v = json::with(v, "typ", json::string(self.typ));
        proof {
            lemma_lasting(*self);
        }
        match jwt::sign(&v, key) {
            Ok(token) => Ok(token),
            Err(_) => Err(AppError::Internal),
        }
    }
}

/// What the token says that `actor` gets at `now` for `req` on `tenant`, with the
/// one-time value `nonce`.
pub fn impersonation_claims(
    actor: &str,
    tenant_id: Uuid,
    req: &ImpersonateReq,
    nonce: &[u8],
    now: i64,
) -> (claims: ImpersonationClaims)
    ensures
        claims.fields() == impersonation_fields(actor@, tenant_id, *req, nonce@, now),
        claims.nonce@ == hex_of(nonce@),
        claims.sub@ == req.user_id.text(),
        claims.tid@ == tenant_id.text(),
        claims.imp@ == actor@,
        claims.typ@ == "imp"@,
        0 <= now <= LAST_SECOND ==> claims.exp == now + granted(req.duration_secs),
{
    let exp: i64 = expiry_at(now, req.duration_secs);
    ImpersonationClaims {
        sub: req.user_id.to_text(),
        tid: tenant_id.to_text(),
        imp: actor.to_owned(),
        nonce: hex_encode(nonce),
        exp: if exp >= 0 { exp as u64 } else { 0 },
        typ: "imp",
    }
}

/// The second at which a token made at `now` expires.
fn expiry_at(now: i64, requested: i64) -> (exp: i64)
    ensures
        exp == expiry(now, requested),
{
    let secs: i64 = granted_duration(requested);
    if now > i64::MAX - secs {
        i64::MAX
    } else {
        now + secs
    }
}

/// The expiry as the answer has it; nothing where `chrono` cannot hold the date.
pub open spec fn expiry_text(exp: i64) -> Seq<char> {
    match rfc3339_of(exp, 0) {
        Some(s) => s,
        None => Seq::empty(),
    }
}

/// Whether `action` answers with an audit row for `req` that says `ending`.
pub open spec fn audited(
    action: ImpersonateAction,
    caller: AdminCaller,
    tenant: Uuid,
    req: ImpersonateReq,
    payload: Map<Seq<char>, Json>,
    ending: Ending,
) -> bool {
    &&& action matches ImpersonateAction::Answer { audit, .. }
    &&& audit.records(
        caller,
        false,
        "tenant.impersonate.start"@,
        Some(tenant),
        Some(req.user_id),
        Json::Object(payload),
    )
    &&& audit.ends(ending)
}

/// What the audit log is told of every request.
pub open spec fn brief(req: ImpersonateReq) -> Map<Seq<char>, Json> {
    map!["duration_secs"@ => Json::Int(granted(req.duration_secs) as int)]
}

/// Whether `action` answers with a token made at `now` with the one-time value
/// `nonce`. Read again with the key that belongs to the nonce, the token says what
/// it was made with.
pub open spec fn impersonated(
    action: ImpersonateAction,
    caller: AdminCaller,
    tenant: Uuid,
    req: ImpersonateReq,
    admin_token: Option<String>,
    nonce: Seq<u8>,
    now: i64,
) -> bool {
    let expires_at = expiry_text(expiry(now, req.duration_secs));
    let claims = Json::Object(impersonation_fields(caller.actor@, tenant, req, nonce, now));
    let key = impersonation_key_of(admin_token, hex_of(nonce));
    &&& audited(
        action,
        caller,
        tenant,
        req,
        brief(req).insert("expires_at"@, Json::Str(expires_at)),
        Ending::Served,
    )
    &&& action->reply matches Ok(resp)
    &&& resp.expires_at@ == expires_at
    &&& resp.user_id == req.user_id
    &&& resp.tenant_id == tenant
    &&& resp.token@ == jwt_of(claims, key)
    &&& jwt_claims(resp.token@, key) == Some(claims)
}

/// The answer with a token made at `now` with the one-time value `nonce`.
pub fn grant(
    caller: &AdminCaller,
    tenant_id: Uuid,
    req: &ImpersonateReq,
    admin_token: &Option<String>,
    nonce: &[u8],
    now: i64,
) -> (action: ImpersonateAction)
    ensures
        impersonated(action, *caller, tenant_id, *req, *admin_token, nonce@, now),
{
    let what = "tenant.impersonate.start";
    let payload = json::with(json::object(), "duration_secs", json::number(granted_duration(req.duration_secs)));
    let claims = impersonation_claims(caller.actor.as_str(), tenant_id, req, nonce, now);
    let key = impersonation_key(admin_token, claims.nonce.as_str());
    match claims.sign(key.as_slice()) {
        Ok(token) => {
            let expires_at = match rfc3339(expiry_at(now, req.duration_secs), 0) {
                Some(s) => s,
                None => String::new(),
            };
            let payload = json::with(payload, "expires_at", json::string(expires_at.as_str()));
            ImpersonateAction::Answer {
                audit: audit_row(caller, false, what, Some(tenant_id), Some(req.user_id), payload, "ok", None),
                reply: Ok(ImpersonateResp { token, expires_at, user_id: req.user_id, tenant_id }),
            }
        },
        Err(e) => ImpersonateAction::Answer {
            audit: audit_row(
                caller,
                false,
                what,
                Some(tenant_id),
                Some(req.user_id),
                payload,
                "error",
                Some("token_encode_failed"),
            ),
            reply: Err(e),
        },
    }
}

/// The next step of an impersonation.
///
/// Only a member of the tenant can be impersonated, and for at most 900 seconds.
/// The token is made from the clock and from sixteen random bytes.
pub fn impersonate(
    caller: &AdminCaller,
    tenant_id: Uuid,
    req: &ImpersonateReq,
    admin_token: &Option<String>,
    facts: ImpersonateFacts,
) -> (action: ImpersonateAction)
    ensures
        facts.failed ==> audited(
            action,
            *caller,
            tenant_id,
            *req,
            brief(*req),
            Ending::Failed("database_error"@),
        ) && action->reply == Err::<ImpersonateResp, AppError>(AppError::Database),
        !facts.failed ==> match facts.member {
            None => action == (ImpersonateAction::FindMember { tenant: tenant_id, user: req.user_id }),
            Some(false) => audited(
                action,
                *caller,
                tenant_id,
                *req,
                brief(*req),
                Ending::Denied("user_not_tenant_member"@),
            ) && action->reply == Err::<ImpersonateResp, AppError>(AppError::NotAMember),
            Some(true) => exists|nonce: Seq<u8>, now: i64|
                nonce.len() == 16 && 0 <= now && now <= LAST_SECOND && #[trigger] impersonated(
                    action,
                    *caller,
                    tenant_id,
                    *req,
                    *admin_token,
                    nonce,
                    now,
                ),
        },
        action matches ImpersonateAction::Answer { audit, reply } ==> {
            &&& audit.actor@ == caller.actor@
            &&& audit.action@ == "tenant.impersonate.start"@
            &&& audit.tenant_id == Some(tenant_id)
            &&& audit.target_user_id == Some(req.user_id)
            &&& json_of(audit.payload_summary) matches Json::Object(m) && m.contains_key("duration_secs"@)
                && m["duration_secs"@] == Json::Int(granted(req.duration_secs) as int)
            &&& reply is Ok ==> facts.member == Some(true) && !facts.failed && audit.outcome@ == "ok"@
            &&& reply matches Ok(resp) ==> resp.user_id == req.user_id && resp.tenant_id == tenant_id
            &&& !facts.failed && facts.member == Some(false) ==> reply == Err::<ImpersonateResp, AppError>(
                AppError::NotAMember,
            ) && audit.outcome@ == "denied"@
        },
{
    proof {
        reveal_strlit("duration_secs");
        reveal_strlit("expires_at");
        assert("duration_secs"@.len() == 13 && "expires_at"@.len() == 10);
    }
    let payload = json::with(json::object(), "duration_secs", json::number(granted_duration(req.duration_secs)));
    let what = "tenant.impersonate.start";
    let tenant = Some(tenant_id);
    let user = Some(req.user_id);
    if facts.failed {
        return ImpersonateAction::Answer {
            audit: audit_row(caller, false, what, tenant, user, payload, "error", Some("database_error")),
            reply: Err(AppError::Database),
        };
    }
    match facts.member {
        None => ImpersonateAction::FindMember { tenant: tenant_id, user: req.user_id },
        Some(false) => ImpersonateAction::Answer {
            audit: audit_row(caller, false, what, tenant, user, payload, "denied", Some("user_not_tenant_member")),
            reply: Err(AppError::NotAMember),
        },
        Some(true) => {
            let nonce = random_bytes(16);
            let now: i64 = now_seconds();
            let action = grant(caller, tenant_id, req, admin_token, nonce.as_slice(), now);
            assert(impersonated(action, *caller, tenant_id, *req, *admin_token, nonce@, now));
            action
        },
    }
}

/// An impersonation never outlasts the ceiling: the token says that it expires
/// after it is made, and at most 900 seconds later.
pub proof fn impersonation_is_bounded(
    action: ImpersonateAction,
    caller: AdminCaller,
    tenant: Uuid,
    req: ImpersonateReq,
    admin_token: Option<String>,
    nonce: Seq<u8>,
    now: i64,
)
    requires
        0 <= now <= LAST_SECOND,
        impersonated(action, caller, tenant, req, admin_token, nonce, now),
    ensures
        action->reply matches Ok(resp) && jwt_claims(
            resp.token@,
            impersonation_key_of(admin_token, hex_of(nonce)),
        ) matches Some(Json::Object(said)) && said.contains_key("exp"@) && (said["exp"@] matches Json::Int(exp) && now
            < exp <= now + IMPERSONATION_MAX_SECS),
{
    reveal_strlit("exp");
    reveal_strlit("typ");
    assert("exp"@[0] == 'e' && "typ"@[0] == 't');
}

/// What an impersonation token says: who is impersonated, in which tenant, by whom, and
/// until when; it is signed with a key that belongs to the admin token and to the token's
/// own one-time value. The answer names the same user, tenant and time.
pub proof fn impersonation_tokens_say_who(
    action: ImpersonateAction,
    caller: AdminCaller,
    tenant: Uuid,
    req: ImpersonateReq,
    admin_token: Option<String>,
    nonce: Seq<u8>,
    now: i64,
)
    requires
        0 <= now <= LAST_SECOND,
        impersonated(action, caller, tenant, req, admin_token, nonce, now),
    ensures
        action->reply matches Ok(resp) && resp.user_id == req.user_id && resp.tenant_id == tenant && (rfc3339_of(
            (now + granted(req.duration_secs)) as i64,
            0,
        ) matches Some(t) ==> resp.expires_at@ == t),
        action->reply matches Ok(resp) && jwt_claims(
            resp.token@,
            impersonation_key_of(admin_token, hex_of(nonce)),
        ) == Some(
            Json::Object(
                map![
                    "sub"@ => Json::Str(req.user_id.text()),
                    "tid"@ => Json::Str(tenant.text()),
                    "imp"@ => Json::Str(caller.actor@),
                    "nonce"@ => Json::Str(hex_of(nonce)),
                    "exp"@ => Json::Int(now + granted(req.duration_secs)),
                    "typ"@ => Json::Str("imp"@),
                ],
            ),
        ),
        1 <= req.duration_secs <= 900 ==> granted(req.duration_secs) == req.duration_secs,
        req.duration_secs > 900 ==> granted(req.duration_secs) == 900,
        req.duration_secs < 1 ==> granted(req.duration_secs) == 1,
        action matches ImpersonateAction::Answer { audit, .. } && audit.outcome@ == "ok"@ && audit.actor@
            == caller.actor@ && audit.tenant_id == Some(tenant) && audit.target_user_id == Some(req.user_id)
            && audit.action@ == "tenant.impersonate.start"@,
{
}

} // verus!
