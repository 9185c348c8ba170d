//! `POST /api/admin/v1/tenants/{id}/force-delete`: delete a tenant in two phases.
//! The dry run counts what the tenant holds and hands out a token; the execution
//! goes ahead only for the same operator, the same tenant and the same counts.

use crate::admin::v1::{audit_row, AdminCaller, AuditRow, Ending};
use crate::clock::{now_milliseconds, now_seconds, Timestamp, LAST_MILLISECOND, LAST_SECOND};
use crate::digest::{hex_encode, hex_of, sha256, sha256_of};
use crate::error::AppError;
use crate::ids::{uuid_text_is_injective, Uuid};
use crate::json::{self, json_of, str_field, u64_field, Json};
use crate::jwt::{self, expired, jwt_claims, jwt_of, lasting, verified_at, LEEWAY_SECS};
use crate::text::{decimal, decimal_of_i64, same};
use vstd::prelude::*;
use vstd::string::*;
use vstd::utf8::*;

verus! {

/// How long a confirm token is good for, in seconds.
pub const FORCE_DELETE_CONFIRM_TTL_SECS: i64 = 60;

#[derive(Debug)]
pub struct ForceDeleteReq {
    /// The token of a dry run. When it is there, the deletion is carried out.
    pub confirm_token: Option<String>,
}

#[derive(Debug)]
pub struct ForceDeleteDryRunResp {
    pub confirm_token: String,
    pub snapshot: ForceDeleteSnapshot,
    pub expires_in_secs: u64,
}

/// What a tenant holds.
#[derive(Debug, Clone, Copy, PartialEq, Eq)]
pub struct ForceDeleteSnapshot {
    pub tenant_id: Uuid,
    pub repos: i64,
    pub sessions: i64,
    pub api_keys: i64,
    pub members: i64,
    pub ingestion_runs: i64,
    pub github_installations: i64,
}

#[derive(Debug)]
pub struct ForceDeleteResp {
    pub tenant_id: Uuid,
    pub status: &'static str,
}

/// What a confirm token says.
#[derive(Debug)]
pub struct ConfirmTokenClaims {
    pub tenant_id: String,
    pub actor: String,
    pub snapshot_hash: String,
    pub exp: u64,
    pub typ: String,
}

/// The message that tells other services that a tenant is gone.
#[derive(Debug)]
pub struct Tombstone {
    pub tenant_id: String,
    /// Empty: the whole tenant goes.
    pub repo_id: String,
    pub requested_by: String,
    pub emitted_at_ms: i64,
}

impl ForceDeleteSnapshot {
    /// The snapshot's fields, in JSON.
    pub open spec fn fields(&self) -> Map<Seq<char>, Json> {
        map![
            "tenant_id"@ => Json::Str(self.tenant_id.text()),
            "repos"@ => Json::Int(self.repos as int),
            "sessions"@ => Json::Int(self.sessions as int),
            "api_keys"@ => Json::Int(self.api_keys as int),
            "members"@ => Json::Int(self.members as int),
            "ingestion_runs"@ => Json::Int(self.ingestion_runs as int),
            "github_installations"@ => Json::Int(self.github_installations as int),
        ]
    }

    /// The snapshot as JSON text, the fields in the order of their declaration.
    pub open spec fn text(&self) -> Seq<char> {
        "{\"tenant_id\":\""@ + self.tenant_id.text() + "\",\"repos\":"@ + decimal(self.repos as int)
            + ",\"sessions\":"@ + decimal(self.sessions as int) + ",\"api_keys\":"@ + decimal(
            self.api_keys as int,
        ) + ",\"members\":"@ + decimal(self.members as int) + ",\"ingestion_runs\":"@ + decimal(
            self.ingestion_runs as int,
        ) + ",\"github_installations\":"@ + decimal(self.github_installations as int) + "}"@
    }

    /// The digest by which two snapshots are compared.
    pub open spec fn hash(&self) -> Seq<char> {
        hex_of(sha256_of(encode_utf8(self.text())))
    }

    /// The snapshot in JSON.
    pub fn to_json(&self) -> (v: serde_json::Value)
        ensures
            json_of(v) == Json::Object(self.fields()),
            json_of(v) == Json::Object(
                map![
                    "tenant_id"@ => Json::Str(self.tenant_id.text()),
                    "repos"@ => Json::Int(self.repos as int),
                    "sessions"@ => Json::Int(self.sessions as int),
                    "api_keys"@ => Json::Int(self.api_keys as int),
                    "members"@ => Json::Int(self.members as int),
                    "ingestion_runs"@ => Json::Int(self.ingestion_runs as int),
                    "github_installations"@ => Json::Int(self.github_installations as int),
                ],
            ),
    {
        let v = json::with(json::object(), "tenant_id", json::uuid(&self.tenant_id));
        let v = json::with(v, "repos", json::number(self.repos));
        let v = json::with(v, "sessions", json::number(self.sessions));
        let v = json::with(v, "api_keys", json::number(self.api_keys));
        let v = json::with(v, "members", json::number(self.members));
        let v = json::with(v, "ingestion_runs", json::number(self.ingestion_runs));
        json::with(v, "github_installations", json::number(self.github_installations))
    }

    /// The snapshot as JSON text.
    pub fn to_text(&self) -> (s: String)
        ensures
            s@ == self.text(),
            s@ == "{\"tenant_id\":\""@ + self.tenant_id.text() + "\",\"repos\":"@ + decimal(self.repos as int)
                + ",\"sessions\":"@ + decimal(self.sessions as int) + ",\"api_keys\":"@ + decimal(self.api_keys as int)
                + ",\"members\":"@ + decimal(self.members as int) + ",\"ingestion_runs\":"@ + decimal(
                self.ingestion_runs as int,
            ) + ",\"github_installations\":"@ + decimal(self.github_installations as int) + "}"@,
    {
        let mut s = "{\"tenant_id\":\"".to_owned();
        s.append(self.tenant_id.to_text().as_str());
        s.append("\",\"repos\":");
        s.append(decimal_of_i64(self.repos).as_str());
        s.append(",\"sessions\":");
        s.append(decimal_of_i64(self.sessions).as_str());
        s.append(",\"api_keys\":");
        s.append(decimal_of_i64(self.api_keys).as_str());
        s.append(",\"members\":");
        s.append(decimal_of_i64(self.members).as_str());
        s.append(",\"ingestion_runs\":");
        s.append(decimal_of_i64(self.ingestion_runs).as_str());
        s.append(",\"github_installations\":");
        s.append(decimal_of_i64(self.github_installations).as_str());
        s.append("}");
        s
    }

    /// The digest by which two snapshots are compared.
    pub fn digest(&self) -> (s: String)
        ensures
            s@ == self.hash(),
            s@ == hex_of(sha256_of(encode_utf8(self.text()))),
    {
        let text = self.to_text();
        hex_encode(sha256(text.as_str().as_bytes()).as_slice())
    }
}

/// The HMAC key of confirm tokens.
pub open spec fn confirm_key_of(admin_token: Option<String>) -> Seq<u8> {
    sha256_of(
        encode_utf8(
            (match admin_token {
                Some(t) => t@,
                None => Seq::empty(),
            }) + ":fd_confirm"@,
        ),
    )
}

/// The HMAC key of confirm tokens.
pub fn confirm_key(admin_token: &Option<String>) -> (key: Vec<u8>)
    ensures
        key@ == confirm_key_of(*admin_token),
        admin_token matches Some(t) ==> key@ == sha256_of(encode_utf8(t@ + ":fd_confirm"@)),
{
    let mut material = match admin_token {
        Some(t) => t.clone(),
        None => String::new(),
    };
    material.append(":fd_confirm");
    sha256(material.as_str().as_bytes())
}

/// The claims of the token of a dry run by `actor`, made at `now`.
pub open spec fn confirm_fields(
    actor: Seq<char>,
    tenant: Uuid,
    snapshot: ForceDeleteSnapshot,
    now: i64,
) -> Map<Seq<char>, Json> {
    map![
        "tenant_id"@ => Json::Str(tenant.text()),
        "actor"@ => Json::Str(actor),
        "snapshot_hash"@ => Json::Str(snapshot.hash()),
        "exp"@ => Json::Int(now + FORCE_DELETE_CONFIRM_TTL_SECS),
        "typ"@ => Json::Str("force_delete_confirm"@),
    ]
}

/// Whether `token` is the one that a dry run by `actor` hands out at `now`. Read
/// again with the same admin token, it says what it was made with.
pub open spec fn token_made_at(
    token: Seq<char>,
    admin_token: Option<String>,
    actor: Seq<char>,
    tenant: Uuid,
    snapshot: ForceDeleteSnapshot,
    now: i64,
) -> bool {
    let claims = Json::Object(confirm_fields(actor, tenant, snapshot, now));
    &&& token == jwt_of(claims, confirm_key_of(admin_token))
    &&& jwt_claims(token, confirm_key_of(admin_token)) == Some(claims)
}

/// Whether `token` is the one that a dry run by `actor` hands out at some time the
/// clock can show.
pub open spec fn token_made(
    token: Seq<char>,
    admin_token: Option<String>,
    actor: Seq<char>,
    tenant: Uuid,
    snapshot: ForceDeleteSnapshot,
) -> bool {
    exists|now: i64|
        0 <= now && now <= LAST_SECOND && #[trigger] token_made_at(token, admin_token, actor, tenant, snapshot, now)
}

proof fn lemma_confirm_fields(actor: Seq<char>, tenant: Uuid, snapshot: ForceDeleteSnapshot, now: i64)
    requires
        0 <= now <= LAST_SECOND,
    ensures
        lasting(Json::Object(confirm_fields(actor, tenant, snapshot, now))),
        complete(Json::Object(confirm_fields(actor, tenant, snapshot, now))),
        u64_field(Json::Object(confirm_fields(actor, tenant, snapshot, now)), "exp"@) == Some(
            (now + FORCE_DELETE_CONFIRM_TTL_SECS) as u64,
        ),
        str_field(Json::Object(confirm_fields(actor, tenant, snapshot, now)), "tenant_id"@) == Some(tenant.text()),
        str_field(Json::Object(confirm_fields(actor, tenant, snapshot, now)), "actor"@) == Some(actor),
        str_field(Json::Object(confirm_fields(actor, tenant, snapshot, now)), "snapshot_hash"@) == Some(
            snapshot.hash(),
        ),
{
    reveal_strlit("tenant_id");
    reveal_strlit("actor");
    reveal_strlit("snapshot_hash");
    reveal_strlit("exp");
    reveal_strlit("typ");
    reveal_strlit("aud");
    reveal_strlit("$serde_json::private::RawValue");
    assert("tenant_id"@.len() == 9 && "actor"@.len() == 5 && "snapshot_hash"@.len() == 13);
    assert("exp"@.len() == 3 && "typ"@.len() == 3 && "$serde_json::private::RawValue"@.len() == 30);
    assert("exp"@[0] == 'e' && "typ"@[0] == 't' && "aud"@[0] == 'a' && "aud"@.len() == 3);
}

/// The token of a dry run by `actor`, made at `now`.
pub fn confirm_token(
    actor: &str,
    tenant_id: Uuid,
    snapshot: &ForceDeleteSnapshot,
    admin_token: &Option<String>,
    now: i64,
) -> (r: Result<String, AppError>)
    requires
        0 <= now <= LAST_SECOND,
    ensures
        match r {
            Ok(token) => token_made_at(token@, *admin_token, actor@, tenant_id, *snapshot, now),
            Err(_) => false,
        },
{
    let v = json::with(json::object(), "tenant_id", json::uuid(&tenant_id));
    let v = json::with(v, "actor", json::string(actor));
    let v = json::with(v, "snapshot_hash", json::string(snapshot.digest().as_str()));
    let v = json::with(v, "exp", json::number(now + FORCE_DELETE_CONFIRM_TTL_SECS));
    let v = json::with(v, "typ", json::string("force_delete_confirm"));
    proof {
        lemma_confirm_fields(actor@, tenant_id, *snapshot, now);
    }
    match jwt::sign(&v, confirm_key(admin_token).as_slice()) {
        Ok(token) => Ok(token),
        Err(_) => Err(AppError::Internal),
    }
}

impl ConfirmTokenClaims {
    /// Whether `self` is what `claims` say.
    pub open spec fn said_by(&self, claims: Json) -> bool {
        &&& str_field(claims, "tenant_id"@) == Some(self.tenant_id@)
        &&& str_field(claims, "actor"@) == Some(self.actor@)
        &&& str_field(claims, "snapshot_hash"@) == Some(self.snapshot_hash@)
        &&& u64_field(claims, "exp"@) == Some(self.exp)
        &&& str_field(claims, "typ"@) == Some(self.typ@)
    }

    /// Whether `self` is what `token` says, read with the admin token.
    pub open spec fn said_by_token(&self, token: Seq<char>, admin_token: Option<String>) -> bool {
        jwt_claims(token, confirm_key_of(admin_token)) matches Some(claims) && self.said_by(claims)
    }

    /// Whether the token lets `actor` delete `tenant` while it holds `snapshot`.
    pub open spec fn confirms(&self, actor: Seq<char>, tenant: Uuid, snapshot: ForceDeleteSnapshot) -> bool {
        self.actor@ == actor && self.tenant_id@ == tenant.text() && self.snapshot_hash@ == snapshot.hash()
    }
}

/// Whether `claims` say all that a confirm token says.
pub open spec fn complete(claims: Json) -> bool {
    &&& str_field(claims, "tenant_id"@) is Some
    &&& str_field(claims, "actor"@) is Some
    &&& str_field(claims, "snapshot_hash"@) is Some
    &&& u64_field(claims, "exp"@) is Some
    &&& str_field(claims, "typ"@) is Some
}

/// What `claims` say, if they are all there.
pub fn read_confirm_claims(claims: &serde_json::Value) -> (r: Option<ConfirmTokenClaims>)
    ensures
        match r {
            Some(c) => c.said_by(json_of(*claims)),
            None => !complete(json_of(*claims)),
        },
        r matches Some(c) ==> (json_of(*claims) matches Json::Object(m) && m["tenant_id"@] == Json::Str(c.tenant_id@)
            && m["actor"@] == Json::Str(c.actor@) && m["snapshot_hash"@] == Json::Str(c.snapshot_hash@) && m["exp"@]
            == Json::Int(c.exp as int) && m["typ"@] == Json::Str(c.typ@)),
        r is None ==> match json_of(*claims) {
            Json::Object(m) => !(m.contains_key("tenant_id"@) && m["tenant_id"@] is Str) || !(m.contains_key("actor"@)
                && m["actor"@] is Str) || !(m.contains_key("snapshot_hash"@) && m["snapshot_hash"@] is Str) || !(
            m.contains_key("exp"@) && (m["exp"@] matches Json::Int(n) && 0 <= n <= u64::MAX)) || !(m.contains_key("typ"@)
                && m["typ"@] is Str),
            _ => true,
        },
{
    match (
        json::text_field(claims, "tenant_id"),
        json::text_field(claims, "actor"),
        json::text_field(claims, "snapshot_hash"),
        json::count_field(claims, "exp"),
        json::text_field(claims, "typ"),
    ) {
        (Some(tenant_id), Some(actor), Some(snapshot_hash), Some(exp), Some(typ)) => Some(
            ConfirmTokenClaims {
                tenant_id: tenant_id.to_owned(),
                actor: actor.to_owned(),
                snapshot_hash: snapshot_hash.to_owned(),
                exp,
                typ: typ.to_owned(),
            },
        ),
        _ => None,
    }
}

/// Whether `r` is what `token` says, read with the admin token when the clock shows
/// the second `now`: what its claims say if it is signed under the admin token,
/// complete and not expired, and nothing otherwise.
pub open spec fn confirm_read_at(
    r: Option<ConfirmTokenClaims>,
    token: Seq<char>,
    admin_token: Option<String>,
    now: u64,
) -> bool {
    match jwt_claims(token, confirm_key_of(admin_token)) {
        Some(claims) => if complete(claims) && !expired(claims, now) {
            r matches Some(c) && c.said_by(claims)
        } else {
            r is None
        },
        None => r is None,
    }
}

/// What a confirm token says, if it is valid: signed under the admin token, not
/// expired by the clock, and complete.
pub fn verify_confirm_token(token: &str, admin_token: &Option<String>) -> (r: Option<ConfirmTokenClaims>)
    ensures
        r matches Some(c) ==> c.said_by_token(token@, *admin_token),
        exists|now: u64| #[trigger] confirm_read_at(r, token@, *admin_token, now),
{
    let key = confirm_key(admin_token);
    match jwt::verify(token, key.as_slice()) {
        Ok(claims) => {
            let ghost said = Some(json_of(claims));
            let ghost now = choose|now: u64| #[trigger] verified_at(said, token@, key@, now);
            let r = read_confirm_claims(&claims);
            assert(confirm_read_at(r, token@, *admin_token, now));
            r
        },
        Err(_) => {
            let ghost now = choose|now: u64| #[trigger] verified_at(None, token@, key@, now);
            assert(confirm_read_at(None, token@, *admin_token, now));
            None
        },
    }
}

/// The token of a dry run is good for a minute and the leeway, and no longer: read
/// until then with the same admin token it confirms what it was made for, and read
/// later it is refused.
pub proof fn dry_run_token_lasts(
    token: Seq<char>,
    admin_token: Option<String>,
    actor: Seq<char>,
    tenant: Uuid,
    snapshot: ForceDeleteSnapshot,
    made: i64,
    r: Option<ConfirmTokenClaims>,
    now: u64,
)
    requires
        0 <= made <= LAST_SECOND,
        token_made_at(token, admin_token, actor, tenant, snapshot, made),
        confirm_read_at(r, token, admin_token, now),
        LEEWAY_SECS <= now,
    ensures
        now <= made + FORCE_DELETE_CONFIRM_TTL_SECS + LEEWAY_SECS ==> (r matches Some(c) && c.confirms(
            actor,
            tenant,
            snapshot,
        )),
        now > made + FORCE_DELETE_CONFIRM_TTL_SECS + LEEWAY_SECS ==> r is None,
{
    lemma_confirm_fields(actor, tenant, snapshot, made);
}

/// The token of a dry run lets its operator delete that tenant as long as the
/// counts stay the same, and lets nobody else and nothing else.
pub proof fn dry_run_token_binds(
    token: Seq<char>,
    admin_token: Option<String>,
    actor: Seq<char>,
    tenant: Uuid,
    snapshot: ForceDeleteSnapshot,
    claims: ConfirmTokenClaims,
    other_actor: Seq<char>,
    other_tenant: Uuid,
    other_snapshot: ForceDeleteSnapshot,
)
    requires
        token_made(token, admin_token, actor, tenant, snapshot),
        claims.said_by_token(token, admin_token),
    ensures
        claims.confirms(actor, tenant, snapshot),
        claims.confirms(other_actor, other_tenant, other_snapshot) ==> other_actor == actor && other_tenant == tenant
            && other_snapshot.hash() == snapshot.hash(),
{
    let now = choose|now: i64|
        0 <= now && now <= LAST_SECOND && #[trigger] token_made_at(token, admin_token, actor, tenant, snapshot, now);
    lemma_confirm_fields(actor, tenant, snapshot, now);
    if claims.confirms(other_actor, other_tenant, other_snapshot) {
        uuid_text_is_injective(other_tenant, tenant);
    }
}

/// What a request asks for.
#[derive(Debug)]
pub enum ForceDeletePhase {
    /// Count, and hand out a token.
    DryRun,
    /// Delete, given the token of a dry run.
    Execute(String),
}

/// The phase that a request asks for.
pub fn force_delete(body: ForceDeleteReq) -> (phase: ForceDeletePhase)
    ensures
        phase == (match body.confirm_token {
            None => ForceDeletePhase::DryRun,
            Some(token) => ForceDeletePhase::Execute(token),
        }),
{
    match body.confirm_token {
        None => ForceDeletePhase::DryRun,
        Some(token) => ForceDeletePhase::Execute(token),
    }
}

/// What is known so far during a dry run.
#[derive(Debug, Clone, Copy)]
pub struct DryRunFacts {
    pub snapshot: Option<ForceDeleteSnapshot>,
    /// Whether a database statement failed.
    pub failed: bool,
}

/// What to do next in a dry run.
pub enum DryRunAction {
    /// Count what the tenant holds.
    TakeSnapshot { tenant_id: Uuid },
    /// Write the audit row, then answer.
    Answer { audit: AuditRow, reply: Result<ForceDeleteDryRunResp, AppError> },
}

/// Whether `action` answers a dry run with an audit row that says `ending`.
pub open spec fn dry_run_audited(
    action: DryRunAction,
    caller: AdminCaller,
    tenant: Uuid,
    payload: Map<Seq<char>, Json>,
    ending: Ending,
) -> bool {
    &&& action matches DryRunAction::Answer { audit, .. }
    &&& audit.records(caller, true, "tenant.force_delete.dry_run"@, Some(tenant), None, Json::Object(payload))
    &&& audit.ends(ending)
}

/// The payload of an audit row that names an error.
pub open spec fn error_payload(class: Seq<char>) -> Map<Seq<char>, Json> {
    map!["error"@ => Json::Str(class)]
}

/// The next step of a dry run: count, then make a token for the counts and answer
/// with both.
pub fn force_delete_phase1(
    caller: &AdminCaller,
    tenant_id: Uuid,
    admin_token: &Option<String>,
    facts: DryRunFacts,
) -> (action: DryRunAction)
    ensures
        facts.failed ==> dry_run_audited(
            action,
            *caller,
            tenant_id,
            error_payload("database_error"@),
            Ending::Failed("database_error"@),
        ) && action->reply == Err::<ForceDeleteDryRunResp, AppError>(AppError::Database),
        !facts.failed ==> match facts.snapshot {
            None => action == (DryRunAction::TakeSnapshot { tenant_id }),
            Some(snapshot) => {
                &&& dry_run_audited(
                    action,
                    *caller,
                    tenant_id,
                    map!["snapshot"@ => Json::Object(snapshot.fields())],
                    Ending::Served,
                )
                &&& action->reply matches Ok(resp)
                &&& token_made(resp.confirm_token@, *admin_token, caller.actor@, tenant_id, snapshot)
                &&& resp.snapshot == snapshot
                &&& resp.expires_in_secs == FORCE_DELETE_CONFIRM_TTL_SECS
            },
        },
        action matches DryRunAction::Answer { audit, reply } ==> {
            &&& audit.actor@ == caller.actor@
            &&& audit.action@ == "tenant.force_delete.dry_run"@
            &&& audit.tenant_id == Some(tenant_id)
            &&& reply is Ok ==> audit.outcome@ == "ok"@
            &&& reply is Err ==> audit.outcome@ == "error"@ && facts.failed
            &&& reply matches Ok(resp) ==> facts.snapshot == Some(resp.snapshot) && resp.expires_in_secs == 60
        },
{
    let what = "tenant.force_delete.dry_run";
    let tenant = Some(tenant_id);
    if facts.failed {
        let payload = json::with(json::object(), "error", json::string("database_error"));
        return DryRunAction::Answer {
            audit: audit_row(caller, true, what, tenant, None, payload, "error", Some("database_error")),
            reply: Err(AppError::Database),
        };
    }
    let snapshot = match facts.snapshot {
        None => return DryRunAction::TakeSnapshot { tenant_id },
        Some(s) => s,
    };
    let now: i64 = now_seconds();
    match confirm_token(caller.actor.as_str(), tenant_id, &snapshot, admin_token, now) {
        Ok(token) => {
            assert(token_made_at(token@, *admin_token, caller.actor@, tenant_id, snapshot, now));
            let payload = json::with(json::object(), "snapshot", snapshot.to_json());
            DryRunAction::Answer {
                audit: audit_row(caller, true, what, tenant, None, payload, "ok", None),
                reply: Ok(ForceDeleteDryRunResp { confirm_token: token, snapshot, expires_in_secs: 60 }),
            }
        },
        Err(e) => {
            let payload = json::with(json::object(), "error", json::string("token_encode_failed"));
            DryRunAction::Answer {
                audit: audit_row(caller, true, what, tenant, None, payload, "error", Some("token_encode_failed")),
                reply: Err(e),
            }
        },
    }
}

/// How the deletion itself went.
#[derive(Debug, Clone, Copy, PartialEq, Eq)]
pub enum Applied {
    /// Everything was written, and the tombstone published if there is a producer.
    Done,
    /// The tombstone could not be published, and everything was rolled back.
    PublishFailed,
}

/// What is known so far while a deletion is carried out.
#[derive(Debug)]
pub struct ExecuteFacts {
    /// What the token says; nothing where it is not valid.
    pub claims: Option<ConfirmTokenClaims>,
    pub snapshot: Option<ForceDeleteSnapshot>,
    pub applied: Option<Applied>,
    /// Whether a database statement failed.
    pub failed: bool,
}

/// What to do next while a deletion is carried out.
pub enum ExecuteAction {
    /// Count what the tenant holds.
    TakeSnapshot { tenant_id: Uuid },
    /// In one transaction: mark the tenant as deleting unless it is gone already,
    /// cancel its queued and running ingestion runs, and publish the tombstone if there
    /// is a producer; if that fails, roll everything back. `Holdings::deleted` says what
    /// is kept then.
    Delete { tenant_id: Uuid, message: TombstoneMessage },
    /// Write the audit row, then answer.
    Answer { audit: AuditRow, reply: Result<ForceDeleteResp, AppError> },
}

/// Whether `action` answers an execution with an audit row that carries `payload`
/// and says `ending`.
pub open spec fn execute_audited(
    action: ExecuteAction,
    caller: AdminCaller,
    tenant: Uuid,
    payload: Map<Seq<char>, Json>,
    ending: Ending,
) -> bool {
    &&& action matches ExecuteAction::Answer { audit, .. }
    &&& audit.records(caller, true, "tenant.force_delete.execute"@, Some(tenant), None, Json::Object(payload))
    &&& audit.ends(ending)
}

/// Whether `action` refuses the execution for `class` with `error`.
pub open spec fn execute_refused(
    action: ExecuteAction,
    caller: AdminCaller,
    tenant: Uuid,
    class: Seq<char>,
    error: AppError,
) -> bool {
    &&& execute_audited(action, caller, tenant, error_payload(class), Ending::Denied(class))
    &&& action->Answer_reply == Err::<ForceDeleteResp, AppError>(error)
}

/// Whether `action` gives the execution up for `class` with `error`.
pub open spec fn execute_failed(
    action: ExecuteAction,
    caller: AdminCaller,
    tenant: Uuid,
    class: Seq<char>,
    error: AppError,
) -> bool {
    &&& execute_audited(action, caller, tenant, error_payload(class), Ending::Failed(class))
    &&& action->Answer_reply == Err::<ForceDeleteResp, AppError>(error)
}

/// An answer without a result, and its audit row.
fn execute_ended(
    caller: &AdminCaller,
    tenant_id: Uuid,
    outcome: &'static str,
    class: &'static str,
    error: AppError,
) -> (action: ExecuteAction)
    ensures
        outcome@ == "denied"@ ==> execute_refused(action, *caller, tenant_id, class@, error),
        outcome@ == "error"@ ==> execute_failed(action, *caller, tenant_id, class@, error),
{
    let payload = json::with(json::object(), "error", json::string(class));
    ExecuteAction::Answer {
        audit: audit_row(
            caller,
            true,
            "tenant.force_delete.execute",
            Some(tenant_id),
            None,
            payload,
            outcome,
            Some(class),
        ),
        reply: Err(error),
    }
}

impl Tombstone {
    /// Whether this is the tombstone of a whole tenant, asked for by `actor` at `at`.
    pub open spec fn of(&self, tenant: Uuid, actor: Seq<char>, at: i64) -> bool {
        self.tenant_id@ == tenant.text() && self.repo_id@ == Seq::<char>::empty() && self.requested_by@ == actor
            && self.emitted_at_ms == at
    }
}

/// A tombstone on its way to the other services.
#[derive(Debug)]
pub struct TombstoneMessage {
    pub topic: &'static str,
    pub key: String,
    pub tenant_id: Uuid,
    pub tombstone: Tombstone,
}

impl TombstoneMessage {
    /// Whether this tells the other services that the whole tenant goes, asked for by
    /// `actor` at `at`. It is published under the tenant's key.
    pub open spec fn tells(&self, tenant: Uuid, actor: Seq<char>, at: i64) -> bool {
        &&& self.topic@ == "rb.tombstones.v1"@
        &&& self.key@ == tenant.text()
        &&& self.tenant_id == tenant
        &&& self.tombstone.of(tenant, actor, at)
    }

    /// Whether this tells it at some time the clock can show.
    pub open spec fn tells_sometime(&self, tenant: Uuid, actor: Seq<char>) -> bool {
        exists|at: i64| 0 <= at && at <= LAST_MILLISECOND && #[trigger] self.tells(tenant, actor, at)
    }
}

/// The message that tells the other services that a whole tenant goes.
pub fn tombstone_message(tenant_id: Uuid, actor: &str, at: i64) -> (m: TombstoneMessage)
    ensures
        m.tells(tenant_id, actor@, at),
        m.topic@ == "rb.tombstones.v1"@,
        m.key@ == tenant_id.text(),
        m.tenant_id == tenant_id,
        m.tombstone.tenant_id@ == tenant_id.text(),
        m.tombstone.requested_by@ == actor@,
        m.tombstone.emitted_at_ms == at,
{
    TombstoneMessage {
        topic: "rb.tombstones.v1",
        key: tenant_id.to_text(),
        tenant_id,
        tombstone: tombstone(tenant_id, actor, at),
    }
}

/// The tombstone of a whole tenant.
pub fn tombstone(tenant_id: Uuid, actor: &str, emitted_at_ms: i64) -> (t: Tombstone)
    ensures
        t.of(tenant_id, actor@, emitted_at_ms),
        t.tenant_id@ == tenant_id.text(),
        t.repo_id@.len() == 0,
        t.requested_by@ == actor@,
        t.emitted_at_ms == emitted_at_ms,
{
    Tombstone {
        tenant_id: tenant_id.to_text(),
        repo_id: String::new(),
        requested_by: actor.to_owned(),
        emitted_at_ms,
    }
}

/// Whether `action` is the next step of an execution.
pub open spec fn execute_step(caller: AdminCaller, tenant_id: Uuid, facts: ExecuteFacts, action: ExecuteAction) -> bool {
    if facts.failed {
        execute_failed(action, caller, tenant_id, "database_error"@, AppError::Database)
    } else {
        match facts.claims {
            None => execute_refused(action, caller, tenant_id, "invalid_token"@, AppError::InvalidToken),
            Some(claims) => if claims.actor@ != caller.actor@ {
                execute_refused(action, caller, tenant_id, "actor_mismatch"@, AppError::InvalidToken)
            } else if claims.tenant_id@ != tenant_id.text() {
                execute_refused(action, caller, tenant_id, "tenant_id_mismatch"@, AppError::InvalidToken)
            } else {
                match (facts.snapshot, facts.applied) {
                    (None, _) => action == (ExecuteAction::TakeSnapshot { tenant_id }),
                    (Some(snapshot), applied) => if snapshot.hash() != claims.snapshot_hash@ {
                        execute_refused(
                            action,
                            caller,
                            tenant_id,
                            "snapshot_shifted"@,
                            AppError::AdminForceDeleteConflict,
                        )
                    } else {
                        match applied {
                            None => action matches ExecuteAction::Delete { tenant_id: target, message } && target
                                == tenant_id && message.tells_sometime(tenant_id, caller.actor@),
                            Some(Applied::PublishFailed) => execute_failed(
                                action,
                                caller,
                                tenant_id,
                                "kafka_publish_failed"@,
                                AppError::KafkaPublish,
                            ),
                            Some(Applied::Done) => {
                                &&& execute_audited(
                                    action,
                                    caller,
                                    tenant_id,
                                    map!["snapshot"@ => Json::Object(snapshot.fields())],
                                    Ending::Served,
                                )
                                &&& action->Answer_reply matches Ok(resp)
                                &&& resp.tenant_id == tenant_id
                                &&& resp.status@ == "deleting"@
                            },
                        }
                    },
                }
            },
        }
    }
}

/// The next step of an execution.
///
/// The token must be valid, must have been given to the same operator for the
/// same tenant, and the tenant must hold what it held then. Only then is the
/// tenant deleted.
pub fn force_delete_phase2(caller: &AdminCaller, tenant_id: Uuid, facts: &ExecuteFacts) -> (action: ExecuteAction)
    ensures
        execute_step(*caller, tenant_id, *facts, action),
        action is Delete ==> match (facts.claims, facts.snapshot) {
            (Some(c), Some(s)) => c.confirms(caller.actor@, tenant_id, s),
            _ => false,
        },
        action matches ExecuteAction::Delete { tenant_id: target, message } ==> target == tenant_id
            && message.topic@ == "rb.tombstones.v1"@ && message.key@ == tenant_id.text() && message.tenant_id == tenant_id
            && message.tombstone.tenant_id@ == tenant_id.text() && message.tombstone.repo_id@.len() == 0
            && message.tombstone.requested_by@ == caller.actor@ && match (facts.claims, facts.snapshot) {
            (Some(c), Some(s)) => !facts.failed && facts.applied is None && c.actor@ == caller.actor@ && c.tenant_id@
                == tenant_id.text() && c.snapshot_hash@ == s.hash(),
            _ => false,
        },
        action matches ExecuteAction::Answer { audit, reply } ==> {
            &&& audit.actor@ == caller.actor@
            &&& audit.action@ == "tenant.force_delete.execute"@
            &&& audit.tenant_id == Some(tenant_id)
            &&& reply is Ok ==> audit.outcome@ == "ok"@ && facts.applied == Some(Applied::Done) && !facts.failed
            &&& reply matches Ok(resp) ==> resp.tenant_id == tenant_id && resp.status@ == "deleting"@
            &&& reply is Err ==> audit.outcome@ == "denied"@ || audit.outcome@ == "error"@
        },
{
    if facts.failed {
        return execute_ended(caller, tenant_id, "error", "database_error", AppError::Database);
    }
    let claims = match &facts.claims {
        None => return execute_ended(caller, tenant_id, "denied", "invalid_token", AppError::InvalidToken),
        Some(c) => c,
    };
    if !same(claims.actor.as_str(), caller.actor.as_str()) {
        return execute_ended(caller, tenant_id, "denied", "actor_mismatch", AppError::InvalidToken);
    }
    if !same(claims.tenant_id.as_str(), tenant_id.to_text().as_str()) {
        return execute_ended(caller, tenant_id, "denied", "tenant_id_mismatch", AppError::InvalidToken);
    }
    let snapshot = match facts.snapshot {
        None => return ExecuteAction::TakeSnapshot { tenant_id },
        Some(s) => s,
    };
    if !same(snapshot.digest().as_str(), claims.snapshot_hash.as_str()) {
        return execute_ended(
            caller,
            tenant_id,
            "denied",
            "snapshot_shifted",
            AppError::AdminForceDeleteConflict,
        );
    }
    match facts.applied {
        None => {
            let at: i64 = now_milliseconds();
            let message = tombstone_message(tenant_id, caller.actor.as_str(), at);
            assert(message.tells(tenant_id, caller.actor@, at));
            ExecuteAction::Delete { tenant_id, message }
        },
        Some(Applied::PublishFailed) => execute_ended(
            caller,
            tenant_id,
            "error",
            "kafka_publish_failed",
            AppError::KafkaPublish,
        ),
        Some(Applied::Done) => {
            let payload = json::with(json::object(), "snapshot", snapshot.to_json());
            ExecuteAction::Answer {
                audit: audit_row(
                    caller,
                    true,
                    "tenant.force_delete.execute",
                    Some(tenant_id),
                    None,
                    payload,
                    "ok",
                    None,
                ),
                reply: Ok(ForceDeleteResp { tenant_id, status: "deleting" }),
            }
        },
    }
}

/// The first step of an execution: reads the token, once, and goes on with what it
/// says. What is known after that comes with it.
pub fn force_delete_execute(
    caller: &AdminCaller,
    tenant_id: Uuid,
    token: &str,
    admin_token: &Option<String>,
) -> (r: (ExecuteFacts, ExecuteAction))
    ensures
        exists|now: u64| #[trigger] confirm_read_at(r.0.claims, token@, *admin_token, now),
        r.0 == (ExecuteFacts { claims: r.0.claims, snapshot: None, applied: None, failed: false }),
        execute_step(*caller, tenant_id, r.0, r.1),
{
    let claims = verify_confirm_token(token, admin_token);
    let facts = ExecuteFacts { claims, snapshot: None, applied: None, failed: false };
    let action = force_delete_phase2(caller, tenant_id, &facts);
    (facts, action)
}

/// A tenant as it is kept.
pub struct TenantState {
    pub status: Seq<char>,
    pub deleted_at: Option<Timestamp>,
}

/// An ingestion run as it is kept.
pub struct RunState {
    pub tenant_id: Uuid,
    pub status: Seq<char>,
}

/// The tenants, and the ingestion runs of all of them.
pub struct Holdings {
    pub tenants: Map<Uuid, TenantState>,
    pub runs: Map<Uuid, RunState>,
}

/// Whether a run has not ended.
pub open spec fn open_run(status: Seq<char>) -> bool {
    status == "queued"@ || status == "running"@
}

impl Holdings {
    /// What a deletion of `tenant` at `now` leaves.
    pub open spec fn deleted(self, tenant: Uuid, now: Timestamp) -> Holdings {
        Holdings {
            tenants: if self.tenants.contains_key(tenant) && self.tenants[tenant].deleted_at is None {
                self.tenants.insert(tenant, TenantState { status: "deleting"@, deleted_at: Some(now) })
            } else {
                self.tenants
            },
            runs: self.runs.map_values(
                |r: RunState|
                    if r.tenant_id == tenant && open_run(r.status) {
                        RunState { tenant_id: r.tenant_id, status: "cancelled"@ }
                    } else {
                        r
                    },
            ),
        }
    }
}

/// A deletion marks the tenant as deleting and cancels its queued and running runs.
/// Other tenants and other runs stay as they are.
pub proof fn a_deletion_touches_one_tenant(held: Holdings, tenant: Uuid, now: Timestamp)
    ensures
        held.deleted(tenant, now).tenants.dom() == held.tenants.dom(),
        held.tenants.contains_key(tenant) && held.tenants[tenant].deleted_at is None ==> held.deleted(
            tenant,
            now,
        ).tenants[tenant] == (TenantState { status: "deleting"@, deleted_at: Some(now) }),
        forall|t: Uuid|
            held.tenants.contains_key(t) && (t != tenant || held.tenants[t].deleted_at is Some)
                ==> #[trigger] held.deleted(tenant, now).tenants[t] == held.tenants[t],
        held.deleted(tenant, now).runs.dom() == held.runs.dom(),
        forall|id: Uuid| #[trigger]
            held.runs.contains_key(id) ==> held.deleted(tenant, now).runs[id] == if held.runs[id].tenant_id == tenant
                && open_run(held.runs[id].status) {
                RunState { tenant_id: tenant, status: "cancelled"@ }
            } else {
                held.runs[id]
            },
{
    assert(held.deleted(tenant, now).tenants.dom() =~= held.tenants.dom());
    assert(held.deleted(tenant, now).runs.dom() =~= held.runs.dom());
}

/// An execution from its first step to its answer.
pub struct Execution {
    /// What is known after the first step, and what it does.
    pub facts: ExecuteFacts,
    pub first: ExecuteAction,
    /// What the tenant holds, unless it could not be counted, and what follows.
    pub counted: Option<ForceDeleteSnapshot>,
    pub second: ExecuteAction,
    /// How the deletion went, unless a statement failed, and what follows.
    pub applied: Option<Applied>,
    pub third: ExecuteAction,
}

impl Execution {
    /// What is known once the counting is over.
    pub open spec fn after_count(self) -> ExecuteFacts {
        ExecuteFacts { snapshot: self.counted, failed: self.counted is None, ..self.facts }
    }

    /// What is known once the deletion is over.
    pub open spec fn after_deletion(self) -> ExecuteFacts {
        ExecuteFacts { applied: self.applied, failed: self.applied is None, ..self.after_count() }
    }

    /// Whether each step follows from what is known before it.
    pub open spec fn follows(self, caller: AdminCaller, tenant: Uuid) -> bool {
        &&& self.facts == (ExecuteFacts { claims: self.facts.claims, snapshot: None, applied: None, failed: false })
        &&& execute_step(caller, tenant, self.facts, self.first)
        &&& self.first is TakeSnapshot ==> execute_step(caller, tenant, self.after_count(), self.second)
        &&& self.deletes() ==> execute_step(caller, tenant, self.after_deletion(), self.third)
    }

    /// Whether it comes to the deletion.
    pub open spec fn deletes(self) -> bool {
        self.first is TakeSnapshot && self.second is Delete
    }

    /// What is answered.
    pub open spec fn reply(self) -> Result<ForceDeleteResp, AppError> {
        if self.deletes() {
            self.third->Answer_reply
        } else if self.first is TakeSnapshot {
            self.second->Answer_reply
        } else {
            self.first->Answer_reply
        }
    }

    /// What is kept at the end: a deletion that failed was rolled back.
    pub open spec fn leaves(self, held: Holdings, now: Timestamp) -> Holdings {
        if self.deletes() && self.applied == Some(Applied::Done) {
            held.deleted(self.second->Delete_tenant_id, now)
        } else {
            held
        }
    }
}

/// An execution with the token of a dry run that is not older than a minute. Another
/// operator or another tenant is refused with `InvalidToken`, and other counts with
/// `AdminForceDeleteConflict`; otherwise the tenant is deleted. On every error all
/// stays as it is.
pub proof fn executions_do_what_was_confirmed(
    token: Seq<char>,
    admin_token: Option<String>,
    actor: Seq<char>,
    tenant: Uuid,
    snapshot: ForceDeleteSnapshot,
    made: i64,
    caller: AdminCaller,
    target: Uuid,
    read_at: u64,
    run: Execution,
    held: Holdings,
    now: Timestamp,
)
    requires
        0 <= made <= LAST_SECOND,
        token_made_at(token, admin_token, actor, tenant, snapshot, made),
        LEEWAY_SECS <= read_at <= made + FORCE_DELETE_CONFIRM_TTL_SECS,
        confirm_read_at(run.facts.claims, token, admin_token, read_at),
        run.follows(caller, target),
    ensures
        caller.actor@ != actor || target != tenant ==> run.reply() == Err::<ForceDeleteResp, AppError>(
            AppError::InvalidToken,
        ),
        caller.actor@ == actor && target == tenant ==> match run.counted {
            None => run.reply() == Err::<ForceDeleteResp, AppError>(AppError::Database),
            Some(counts) => if counts.hash() != snapshot.hash() {
                run.reply() == Err::<ForceDeleteResp, AppError>(AppError::AdminForceDeleteConflict)
            } else {
                match run.applied {
                    None => run.reply() == Err::<ForceDeleteResp, AppError>(AppError::Database),
                    Some(Applied::PublishFailed) => run.reply() == Err::<ForceDeleteResp, AppError>(
                        AppError::KafkaPublish,
                    ),
                    Some(Applied::Done) => run.reply() matches Ok(resp) && resp.tenant_id == tenant && resp.status@
                        == "deleting"@ && run.leaves(held, now) == held.deleted(tenant, now),
                }
            },
        },
        run.reply() is Err ==> run.leaves(held, now) == held,
{
    dry_run_token_lasts(token, admin_token, actor, tenant, snapshot, made, run.facts.claims, read_at);
    lemma_confirm_fields(actor, tenant, snapshot, made);
    if target != tenant && target.text() == tenant.text() {
        uuid_text_is_injective(target, tenant);
    }
}

/// An execution with whatever token: it changes something only where the token is
/// valid and was given to the operator for the tenant and what it holds.
pub proof fn executions_need_a_confirmation(
    caller: AdminCaller,
    tenant: Uuid,
    run: Execution,
    held: Holdings,
    now: Timestamp,
)
    requires
        run.follows(caller, tenant),
    ensures
        run.leaves(held, now) != held ==> (run.facts.claims matches Some(c) && run.counted matches Some(counts)
            && c.confirms(caller.actor@, tenant, counts)) && run.reply() is Ok,
        run.facts.claims is None ==> run.reply() == Err::<ForceDeleteResp, AppError>(AppError::InvalidToken),
{
}

/// What the token of a dry run says: the tenant, the operator, the digest of the counts,
/// and an expiry a minute after it was made; it is signed with a key that belongs to the
/// admin token.
pub proof fn dry_run_tokens_say_what_was_counted(
    token: Seq<char>,
    admin_token: Option<String>,
    actor: Seq<char>,
    tenant: Uuid,
    snapshot: ForceDeleteSnapshot,
    now: i64,
)
    requires
        token_made_at(token, admin_token, actor, tenant, snapshot, now),
    ensures
        jwt_claims(token, confirm_key_of(admin_token)) == Some(
            Json::Object(
                map![
                    "tenant_id"@ => Json::Str(tenant.text()),
                    "actor"@ => Json::Str(actor),
                    "snapshot_hash"@ => Json::Str(hex_of(sha256_of(encode_utf8(snapshot.text())))),
                    "exp"@ => Json::Int(now + 60),
                    "typ"@ => Json::Str("force_delete_confirm"@),
                ],
            ),
        ),
        admin_token matches Some(t) ==> confirm_key_of(admin_token) == sha256_of(encode_utf8(t@ + ":fd_confirm"@)),
{
}

} // verus!
