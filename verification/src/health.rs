//! `GET /health`, `GET /ready`, `GET /v1/_version`, `GET /health/build` and
//! `GET /v1/health/consistency`: how the service is.

use crate::caller::{require_verified_session, verified_session, AuthContext, Scope};
use crate::clock::{now, now_milliseconds, Moment, Timestamp, LAST_MILLISECOND};
use crate::error::AppError;
use crate::ids::Uuid;
use crate::text::{chars_of, find_char, first_place, lemma_first_place, same, string_between, trim_slashes, without_trailing_slashes};
use vstd::prelude::*;
use vstd::string::*;

verus! {

/// Where the build came from.
#[derive(Debug, Clone, Copy)]
pub struct BuildInfoResponse {
    pub sha: &'static str,
    pub timestamp: &'static str,
    pub dirty: &'static str,
}

/// Where the build came from.
pub fn build_info(sha: &'static str, timestamp: &'static str, dirty: &'static str) -> (r: BuildInfoResponse)
    ensures
        r == (BuildInfoResponse { sha, timestamp, dirty }),
{
    BuildInfoResponse { sha, timestamp, dirty }
}

#[derive(Debug)]
pub struct VersionResponse {
    pub git_sha: String,
    pub built_at: String,
}

/// The build identity, given what the image was built with.
pub fn version(git_sha: Option<String>, built_at: Option<String>) -> (v: VersionResponse)
    ensures
        v.git_sha@ == match git_sha {
            Some(s) => s@,
            None => "unknown"@,
        },
        v.built_at@ == match built_at {
            Some(s) => s@,
            None => "unknown"@,
        },
{
    VersionResponse {
        git_sha: match git_sha {
            Some(s) => s,
            None => "unknown".to_owned(),
        },
        built_at: match built_at {
            Some(s) => s,
            None => "unknown".to_owned(),
        },
    }
}

/// The answer of the readiness probe.
#[derive(Debug, Clone, Copy)]
pub struct ProbeResponse {
    pub status: &'static str,
}

/// The service is ready as soon as it answers.
pub fn ready_check() -> (r: ProbeResponse)
    ensures
        r.status@ == "ok"@,
{
    ProbeResponse { status: "ok" }
}

/// What a probe of a store found.
#[derive(Debug, Clone, Copy, PartialEq, Eq, Structural)]
pub enum StoreStatus {
    Reachable,
    Unreachable,
    /// The store is not configured, or nothing was heard of it yet.
    Unknown,
}

impl StoreStatus {
    /// The status as the answer names it.
    pub open spec fn text(self) -> Seq<char> {
        match self {
            StoreStatus::Reachable => "ok"@,
            StoreStatus::Unreachable => "error"@,
            StoreStatus::Unknown => "unknown"@,
        }
    }

    /// The status as the answer names it.
    pub fn name(self) -> (s: &'static str)
        ensures
            s@ == self.text(),
            self == StoreStatus::Reachable ==> s@ == "ok"@,
            self == StoreStatus::Unreachable ==> s@ == "error"@,
            self == StoreStatus::Unknown ==> s@ == "unknown"@,
    {
        match self {
            StoreStatus::Reachable => "ok",
            StoreStatus::Unreachable => "error",
            StoreStatus::Unknown => "unknown",
        }
    }
}

#[derive(Debug, Clone, Copy)]
pub struct StoreStatuses {
    pub postgres: &'static str,
    pub neo4j: &'static str,
    pub qdrant: &'static str,
    pub kafka: &'static str,
}

#[derive(Debug, Clone, Copy)]
pub struct HealthResponse {
    /// `ok`, or `degraded` when a store cannot be reached.
    pub status: &'static str,
    pub stores: StoreStatuses,
}

/// The health, given what the probes found. The database must be reachable; the
/// other stores must not be unreachable.
pub fn health_check(postgres: StoreStatus, neo4j: StoreStatus, qdrant: StoreStatus, kafka: StoreStatus) -> (r:
    HealthResponse)
    ensures
        r.status@ == if postgres == StoreStatus::Reachable && neo4j != StoreStatus::Unreachable && qdrant != StoreStatus::Unreachable
            && kafka != StoreStatus::Unreachable {
            "ok"@
        } else {
            "degraded"@
        },
        r.stores.postgres@ == postgres.text(),
        r.stores.neo4j@ == neo4j.text(),
        r.stores.qdrant@ == qdrant.text(),
        r.stores.kafka@ == kafka.text(),
{
    let good = postgres == StoreStatus::Reachable && neo4j != StoreStatus::Unreachable && qdrant != StoreStatus::Unreachable && kafka
        != StoreStatus::Unreachable;
    HealthResponse {
        status: if good { "ok" } else { "degraded" },
        stores: StoreStatuses {
            postgres: postgres.name(),
            neo4j: neo4j.name(),
            qdrant: qdrant.name(),
            kafka: kafka.name(),
        },
    }
}

/// `s` without `prefix`, if it starts with it.
pub open spec fn without_prefix(s: Seq<char>, prefix: Seq<char>) -> Seq<char> {
    if prefix.len() <= s.len() && s.take(prefix.len() as int) == prefix {
        s.skip(prefix.len() as int)
    } else {
        s
    }
}

/// The address that a Neo4j URI is probed at: host and port, where 7687 is the
/// port if none is given.
pub open spec fn neo4j_address_of(uri: Seq<char>) -> Seq<char> {
    let addr = without_trailing_slashes(without_prefix(uri, "bolt://"@));
    if first_place(addr, ':') is Some {
        addr
    } else {
        addr + ":7687"@
    }
}

/// The address that a Neo4j URI is probed at.
pub fn neo4j_address(uri: &str) -> (addr: String)
    ensures
        addr@ == neo4j_address_of(uri@),
        addr@.contains(':'),
{
    let chars = chars_of(uri);
    let prefix = chars_of("bolt://");
    let mut k: usize = 0;
    while k < prefix.len() && k < chars.len() && chars[k] == prefix[k]
        invariant
            k <= prefix@.len(),
            k <= chars@.len(),
            chars@ == uri@,
            forall|j: int| 0 <= j < k ==> chars@[j] == prefix@[j],
        decreases prefix@.len() - k,
    {
        k += 1;
    }
    let from: usize = if k == prefix.len() {
        assert(chars@.take(k as int) =~= prefix@);
        k
    } else {
        proof {
            if prefix@.len() <= chars@.len() && chars@.take(prefix@.len() as int) == prefix@ {
                assert(chars@.take(prefix@.len() as int)[k as int] == prefix@[k as int]);
            }
        }
        0
    };
    let rest = string_between(&chars, from, chars.len());
    assert(rest@ =~= without_prefix(uri@, "bolt://"@));
    let mut addr = trim_slashes(rest.as_str());
    let addr_chars = chars_of(addr.as_str());
    match find_char(&addr_chars, ':') {
        Some(_) => {},
        None => {
            proof {
                reveal_strlit(":7687");
            }
            let ghost host = addr@;
            addr.append(":7687");
            assert(addr@[host.len() as int] == ':');
        },
    }
    addr
}

/// The URL that Qdrant is probed at.
pub fn qdrant_health_url(base: &str) -> (url: String)
    ensures
        url@ == without_trailing_slashes(base@) + "/healthz"@,
{
    let mut url = trim_slashes(base);
    url.append("/healthz");
    url
}

/// The seconds from `last_ms` to `now_ms`; the largest number where nothing was ever heard.
pub open spec fn age_at(now_ms: int, last_ms: int) -> int {
    if last_ms == 0 {
        i64::MAX as int
    } else if now_ms <= last_ms {
        0
    } else {
        (now_ms - last_ms) / 1000
    }
}

/// The seconds from `last_ms` to `now_ms`.
pub fn age_between(now_ms: i64, last_ms: i64) -> (age: i64)
    requires
        0 <= now_ms <= LAST_MILLISECOND,
        now_ms - last_ms <= i64::MAX,
    ensures
        age == age_at(now_ms as int, last_ms as int),
        last_ms == 0 ==> age == i64::MAX,
        last_ms != 0 && now_ms <= last_ms ==> age == 0,
        last_ms != 0 && now_ms > last_ms ==> age * 1000 <= now_ms - last_ms < age * 1000 + 1000,
{
    if last_ms == 0 {
        return i64::MAX;
    }
    if now_ms <= last_ms {
        0
    } else {
        (now_ms - last_ms) / 1000
    }
}

/// The earliest time for which there is an age, whatever the clock shows.
pub const EARLIEST_MILLISECOND: i64 = -9_215_161_769_977_975_808;

/// The seconds since `last_ms`; the largest number where nothing was ever heard.
pub fn age_from_ms(last_ms: i64) -> (age: i64)
    requires
        last_ms >= EARLIEST_MILLISECOND,
    ensures
        exists|now_ms: int| 0 <= now_ms && now_ms <= LAST_MILLISECOND && age == #[trigger] age_at(now_ms, last_ms as int),
        last_ms == 0 ==> age == i64::MAX,
        age >= 0,
{
    let now_ms: i64 = now_milliseconds();
    let age: i64 = age_between(now_ms, last_ms);
    assert(age == age_at(now_ms as int, last_ms as int));
    age
}

/// What the age of the last event says about Kafka.
pub fn check_kafka_liveness(last_ms: i64, age_secs: i64) -> (s: StoreStatus)
    ensures
        s == if last_ms == 0 {
            StoreStatus::Unknown
        } else if age_secs < 300 {
            StoreStatus::Reachable
        } else {
            StoreStatus::Unreachable
        },
{
    if last_ms == 0 {
        StoreStatus::Unknown
    } else if age_secs < 300 {
        StoreStatus::Reachable
    } else {
        StoreStatus::Unreachable
    }
}

/// What the age of the last event says about a store: healthy below 30 seconds,
/// degraded up to 300, stale beyond that or where there was none.
pub fn derive_status(last_ms: i64, age_secs: i64) -> (s: &'static str)
    ensures
        s@ == if last_ms == 0 || age_secs > 300 {
            "stale"@
        } else if age_secs >= 30 {
            "degraded"@
        } else {
            "healthy"@
        },
{
    if last_ms == 0 || age_secs > 300 {
        "stale"
    } else if age_secs >= 30 {
        "degraded"
    } else {
        "healthy"
    }
}

#[derive(Debug, Clone, Copy)]
pub struct StoreConsistency {
    pub lag_messages: u64,
    pub last_event_at: Option<Timestamp>,
    /// `healthy` (<30 s), `degraded` (30–300 s), `stale` (>300 s or never).
    pub status: &'static str,
}

#[derive(Debug, Clone, Copy)]
pub struct ConsistencyStores {
    pub kafka: StoreConsistency,
}

#[derive(Debug, Clone, Copy)]
pub struct ConsistencyResponse {
    pub checked_at: Moment,
    pub stores: ConsistencyStores,
}

/// The time of the last event, if there was one that can be told.
pub open spec fn event_time(last_ms: i64) -> Option<Timestamp> {
    if 0 < last_ms <= LAST_MILLISECOND {
        Some(Timestamp { micros: (last_ms * 1000) as i64 })
    } else {
        None
    }
}

/// What is answered at `at`.
pub open spec fn consistency_at(r: ConsistencyResponse, at: Moment, last_ms: i64, lag: u64) -> bool {
    let age = age_at(at.milliseconds(), last_ms as int);
    &&& r.checked_at == at
    &&& r.stores.kafka.lag_messages == lag
    &&& r.stores.kafka.last_event_at == event_time(last_ms)
    &&& r.stores.kafka.status@ == if last_ms == 0 || age > 300 {
        "stale"@
    } else if age >= 30 {
        "degraded"@
    } else {
        "healthy"@
    }
}

/// The consistency at `at`.
pub fn consistency(at: Moment, last_ms: i64, lag: u64) -> (r: ConsistencyResponse)
    requires
        at.shown(),
        at.milliseconds() - last_ms <= i64::MAX,
    ensures
        consistency_at(r, at, last_ms, lag),
        r.checked_at == at,
        r.stores.kafka.lag_messages == lag,
        last_ms <= 0 ==> r.stores.kafka.last_event_at is None,
        0 < last_ms <= LAST_MILLISECOND ==> (r.stores.kafka.last_event_at matches Some(t) && t.micros == last_ms * 1000),
        last_ms == 0 ==> r.stores.kafka.status@ == "stale"@,
        last_ms != 0 && at.milliseconds() - last_ms < 30_000 ==> r.stores.kafka.status@ == "healthy"@,
        last_ms != 0 && 30_000 <= at.milliseconds() - last_ms < 301_000 ==> r.stores.kafka.status@ == "degraded"@,
        last_ms != 0 && at.milliseconds() - last_ms >= 301_000 ==> r.stores.kafka.status@ == "stale"@,
{
    let last_event_at = if 0 < last_ms && last_ms <= LAST_MILLISECOND {
        Some(Timestamp { micros: last_ms * 1000 })
    } else {
        None
    };
    ConsistencyResponse {
        checked_at: at,
        stores: ConsistencyStores {
            kafka: StoreConsistency {
                lag_messages: lag,
                last_event_at,
                status: derive_status(last_ms, age_between(at.to_milliseconds(), last_ms)),
            },
        },
    }
}

/// Whether `r` is what is answered at some time the clock can show.
pub open spec fn consistent_sometime(r: ConsistencyResponse, last_ms: i64, lag: u64) -> bool {
    exists|at: Moment| at.shown() && #[trigger] consistency_at(r, at, last_ms, lag)
}

/// What to do next about a caller who asks for operational data.
#[derive(Debug)]
pub enum AdminCheck {
    /// Look the caller's role in the tenant up.
    FindRole { tenant_id: Uuid, user_id: Uuid },
    /// Let the caller in.
    Allow,
    /// Refuse.
    Refuse(AppError),
}

/// What to do next about a caller who asks for operational data, given their role once
/// it was looked for.
pub open spec fn admin_verdict(auth: AuthContext, role: Option<Option<String>>) -> AdminCheck {
    match auth {
        AuthContext::ApiKey(key) => if key.carries(Scope::Admin) {
            AdminCheck::Allow
        } else {
            AdminCheck::Refuse(AppError::InsufficientScope)
        },
        _ => match verified_session(auth) {
            Err(e) => AdminCheck::Refuse(e),
            Ok(session) => match role {
                None => AdminCheck::FindRole { tenant_id: session.tenant_id, user_id: session.user_id },
                Some(None) => AdminCheck::Refuse(AppError::NotAMember),
                Some(Some(name)) => if name@ == "owner"@ || name@ == "admin"@ {
                    AdminCheck::Allow
                } else {
                    AdminCheck::Refuse(AppError::InsufficientRole)
                },
            },
        },
    }
}

/// Whether the caller holds admin rights, given their role once it was looked for:
/// an API key needs the `admin` scope, a user the role `owner` or `admin`.
pub fn check_admin(auth: &AuthContext, role: Option<Option<String>>) -> (r: AdminCheck)
    ensures
        r == admin_verdict(*auth, role),
        match *auth {
            AuthContext::ApiKey(key) => r == if key.scopes@.contains(Scope::Admin) {
                AdminCheck::Allow
            } else {
                AdminCheck::Refuse(AppError::InsufficientScope)
            },
            AuthContext::Session(info) => if !info.email_verified {
                r == AdminCheck::Refuse(AppError::EmailNotVerified)
            } else {
                match role {
                    None => r matches AdminCheck::FindRole { tenant_id, user_id } && tenant_id == info.tenant_id
                        && user_id == info.user_id,
                    Some(None) => r == AdminCheck::Refuse(AppError::NotAMember),
                    Some(Some(name)) => r == if name@ == "owner"@ || name@ == "admin"@ {
                        AdminCheck::Allow
                    } else {
                        AdminCheck::Refuse(AppError::InsufficientRole)
                    },
                }
            },
            AuthContext::ExpiredSession => r == AdminCheck::Refuse(AppError::SessionExpired),
            AuthContext::McpJwt(_) | AuthContext::Anonymous => r == AdminCheck::Refuse(AppError::Unauthorized),
        },
{
    match auth {
        AuthContext::ApiKey(key) => {
            if key.has(Scope::Admin) {
                return AdminCheck::Allow;
            } else {
                return AdminCheck::Refuse(AppError::InsufficientScope);
            }
        },
        _ => {},
    }
    let session = match require_verified_session(auth) {
        Err(e) => return AdminCheck::Refuse(e),
        Ok(s) => s,
    };
    match role {
        None => AdminCheck::FindRole { tenant_id: session.tenant_id, user_id: session.user_id },
        Some(None) => AdminCheck::Refuse(AppError::NotAMember),
        Some(Some(name)) => if same(name.as_str(), "owner") || same(name.as_str(), "admin") {
            AdminCheck::Allow
        } else {
            AdminCheck::Refuse(AppError::InsufficientRole)
        },
    }
}

/// What to do next about a caller who asks for the consistency.
#[derive(Debug)]
pub enum ConsistencyAction {
    /// Look the caller's role in the tenant up.
    FindRole { tenant_id: Uuid, user_id: Uuid },
    /// Answer.
    Answer(ConsistencyResponse),
    /// Refuse.
    Refuse(AppError),
}

/// The consistency now, for a caller with admin rights, given their role once it was
/// looked for.
pub fn consistency_check(auth: &AuthContext, role: Option<Option<String>>, last_ms: i64, lag: u64) -> (action:
    ConsistencyAction)
    requires
        last_ms >= EARLIEST_MILLISECOND,
    ensures
        match admin_verdict(*auth, role) {
            AdminCheck::FindRole { tenant_id, user_id } => action == (ConsistencyAction::FindRole {
                tenant_id,
                user_id,
            }),
            AdminCheck::Refuse(e) => action == ConsistencyAction::Refuse(e),
            AdminCheck::Allow => action matches ConsistencyAction::Answer(r) && consistent_sometime(r, last_ms, lag),
        },
{
    match check_admin(auth, role) {
        AdminCheck::FindRole { tenant_id, user_id } => ConsistencyAction::FindRole { tenant_id, user_id },
        AdminCheck::Refuse(e) => ConsistencyAction::Refuse(e),
        AdminCheck::Allow => {
            let at = now();
            let r = consistency(at, last_ms, lag);
            assert(consistency_at(r, at, last_ms, lag));
            ConsistencyAction::Answer(r)
        },
    }
}

/// Where a Neo4j URI is probed: the scheme and the slashes at the end are dropped, and the
/// usual port is added where none is given.
pub proof fn neo4j_addresses(host: Seq<char>)
    requires
        host.len() > 0,
        host.last() != '/',
    ensures
        host.contains(':') ==> neo4j_address_of("bolt://"@ + host) == host && neo4j_address_of("bolt://"@ + host + "/"@)
            == host,
        !host.contains(':') ==> neo4j_address_of("bolt://"@ + host) == host + ":7687"@ && neo4j_address_of(
            "bolt://"@ + host + "/"@,
        ) == host + ":7687"@,
{
    reveal_strlit("bolt://");
    reveal_strlit("/");
    let uri = "bolt://"@ + host;
    let slashed = uri + "/"@;
    assert(uri.take(7) =~= "bolt://"@);
    assert(uri.skip(7) =~= host);
    assert(slashed.take(7) =~= "bolt://"@);
    assert(slashed.skip(7) =~= host.push('/'));
    assert(host.push('/').drop_last() =~= host);
    assert(without_trailing_slashes(host) == host);
    assert(without_trailing_slashes(host.push('/')) == host);
    if host.contains(':') {
        lemma_has_place(host, ':');
    } else {
        lemma_first_place(host, ':', host.len() as int);
    }
}

proof fn lemma_has_place(s: Seq<char>, c: char)
    requires
        s.contains(c),
    ensures
        first_place(s, c) is Some,
    decreases s.len(),
{
    if s.len() > 0 && s[0] != c {
        let i = choose|i: int| 0 <= i < s.len() && s[i] == c;
        assert(s.drop_first()[i - 1] == c);
        lemma_has_place(s.drop_first(), c);
    }
}

} // verus!
