//! `GET /api/admin/v1/audit-log`: read the admin audit log. Reading it leaves a
//! row in it, too.

use crate::admin::v1::{audit_row, AdminCaller, AuditRow, Ending};
use crate::clock::{instant_json, Timestamp};
use crate::error::AppError;
use crate::ids::Uuid;
use crate::json::{self, json_of, opt_str_json, opt_uuid_json, Json};
use vstd::prelude::*;

verus! {

#[derive(Debug, Clone, Copy)]
pub struct AuditLogQuery {
    /// Only this tenant; every tenant without it.
    pub tenant_id: Option<Uuid>,
    /// Lower bound (inclusive).
    pub from: Option<Timestamp>,
    /// Upper bound (exclusive).
    pub until: Option<Timestamp>,
    /// Maximum rows to return. Defaults to 100; max 500.
    pub limit: Option<i64>,
}

#[derive(Debug)]
pub struct AuditLogRow {
    pub id: i64,
    pub created_at: Timestamp,
    pub actor: String,
    pub action: String,
    pub tenant_id: Option<Uuid>,
    pub target_user_id: Option<Uuid>,
    pub request_id: Uuid,
    /// Client IP address.
    pub ip: Option<String>,
    /// HTTP `User-Agent` header.
    pub user_agent: Option<String>,
    pub outcome: String,
    pub error_class: Option<String>,
    pub payload_summary: serde_json::Value,
}

impl AuditLogRow {
    /// The row in JSON.
    pub fn to_json(self) -> (v: serde_json::Value)
        ensures
            json_of(v) == Json::Object(
                map![
                    "id"@ => Json::Int(self.id as int),
                    "created_at"@ => instant_json(self.created_at.micros),
                    "actor"@ => Json::Str(self.actor@),
                    "action"@ => Json::Str(self.action@),
                    "tenant_id"@ => opt_uuid_json(self.tenant_id),
                    "target_user_id"@ => opt_uuid_json(self.target_user_id),
                    "request_id"@ => Json::Str(self.request_id.text()),
                    "ip"@ => opt_str_json(self.ip),
                    "user_agent"@ => opt_str_json(self.user_agent),
                    "outcome"@ => Json::Str(self.outcome@),
                    "error_class"@ => opt_str_json(self.error_class),
                    "payload_summary"@ => json_of(self.payload_summary),
                ],
            ),
    {
        let v = json::with(json::object(), "id", json::number(self.id));
        let v = json::with(v, "created_at", self.created_at.to_json());
        let v = json::with(v, "actor", json::string(self.actor.as_str()));
        let v = json::with(v, "action", json::string(self.action.as_str()));
        let v = json::with(v, "tenant_id", json::opt_uuid(&self.tenant_id));
        let v = json::with(v, "target_user_id", json::opt_uuid(&self.target_user_id));
        let v = json::with(v, "request_id", json::uuid(&self.request_id));
        let v = json::with(v, "ip", json::opt_string(&self.ip));
        let v = json::with(v, "user_agent", json::opt_string(&self.user_agent));
        let v = json::with(v, "outcome", json::string(self.outcome.as_str()));
        let v = json::with(v, "error_class", json::opt_string(&self.error_class));
        json::with(v, "payload_summary", self.payload_summary)
    }
}

#[derive(Debug)]
pub struct AuditLogResp {
    pub rows: Vec<AuditLogRow>,
    pub total: usize,
}

/// Rows that are returned when the query does not say.
pub const DEFAULT_LIMIT: i64 = 100;

/// The most rows that are returned.
pub const MAX_LIMIT: i64 = 500;

/// The number of rows a query may get.
pub open spec fn row_limit(requested: Option<i64>) -> i64 {
    match requested {
        None => DEFAULT_LIMIT,
        Some(n) => if n < 1 {
            1
        } else if n > MAX_LIMIT {
            MAX_LIMIT
        } else {
            n
        },
    }
}

impl AuditLogQuery {
    /// The number of rows the query may get.
    pub fn effective_limit(&self) -> (n: i64)
        ensures
            n == row_limit(self.limit),
            1 <= n <= MAX_LIMIT,
            self.limit is None ==> n == 100,
            self.limit matches Some(k) ==> (1 <= k <= 500 ==> n == k) && (k < 1 ==> n == 1) && (k > 500 ==> n == 500),
    {
        match self.limit {
            None => DEFAULT_LIMIT,
            Some(n) => if n < 1 {
                1
            } else if n > MAX_LIMIT {
                MAX_LIMIT
            } else {
                n
            },
        }
    }
}

/// What is known so far.
#[derive(Debug)]
pub enum AuditLogFacts {
    /// Nothing.
    Nothing,
    /// The rows that matched, the newest first.
    Rows(Vec<AuditLogRow>),
    /// The query failed.
    Failed,
}

/// What to do next.
pub enum AuditLogAction {
    /// Read the newest rows of a tenant (or of all) within the bounds, at most `limit`.
    Query { tenant_id: Option<Uuid>, from: Option<Timestamp>, until: Option<Timestamp>, limit: i64 },
    /// Write the audit row, then answer.
    Answer { audit: AuditRow, reply: Result<AuditLogResp, AppError> },
}

/// The next step of reading the log.
pub fn list_audit_log(caller: &AdminCaller, params: &AuditLogQuery, facts: AuditLogFacts) -> (action: AuditLogAction)
    ensures
        match facts {
            AuditLogFacts::Nothing => action == (AuditLogAction::Query {
                tenant_id: params.tenant_id,
                from: params.from,
                until: params.until,
                limit: row_limit(params.limit),
            }),
            AuditLogFacts::Rows(rows) => {
                &&& action matches AuditLogAction::Answer { audit, reply: Ok(resp) }
                &&& resp.rows == rows
                &&& resp.total == rows@.len()
                &&& audit.records(
                    *caller,
                    true,
                    "audit_log.query"@,
                    params.tenant_id,
                    None,
                    Json::Object(
                        map![
                            "tenant_id"@ => opt_uuid_json(params.tenant_id),
                            "limit"@ => Json::Int(row_limit(params.limit) as int),
                            "results"@ => Json::Int(rows@.len() as int),
                        ],
                    ),
                )
                &&& audit.ends(Ending::Served)
            },
            AuditLogFacts::Failed => {
                &&& action matches AuditLogAction::Answer { audit, reply }
                &&& reply == Err::<AuditLogResp, AppError>(AppError::Database)
                &&& audit.records(
                    *caller,
                    true,
                    "audit_log.query"@,
                    params.tenant_id,
                    None,
                    Json::Object(
                        map![
                            "tenant_id"@ => opt_uuid_json(params.tenant_id),
                            "limit"@ => Json::Int(row_limit(params.limit) as int),
                        ],
                    ),
                )
                &&& audit.ends(Ending::Failed("database_error"@))
            },
        },
{
    let limit: i64 = params.effective_limit();
    let payload = json::with(json::object(), "tenant_id", json::opt_uuid(&params.tenant_id));
    let payload = json::with(payload, "limit", json::number(limit));
    let what = "audit_log.query";
    match facts {
        AuditLogFacts::Nothing => AuditLogAction::Query {
            tenant_id: params.tenant_id,
            from: params.from,
            until: params.until,
            limit,
        },
        AuditLogFacts::Rows(rows) => {
            let total: usize = rows.len();
            let payload = json::with(payload, "results", json::count(total as u64));
            AuditLogAction::Answer {
                audit: audit_row(caller, true, what, params.tenant_id, None, payload, "ok", None),
                reply: Ok(AuditLogResp { rows, total }),
            }
        },
        AuditLogFacts::Failed => AuditLogAction::Answer {
            audit: audit_row(caller, true, what, params.tenant_id, None, payload, "error", Some("database_error")),
            reply: Err(AppError::Database),
        },
    }
}

} // verus!
