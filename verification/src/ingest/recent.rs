//! `GET /v1/ingestions/recent`: the tenant's latest ingestion runs.

use crate::caller::{reader_tenant, require_read, AuthContext};
use crate::clock::{instant_json, opt_instant, opt_instant_json, Timestamp};
use crate::error::AppError;
use crate::ids::Uuid;
use crate::json::{self, json_of, opt_str_json, Json};
use vstd::prelude::*;

verus! {

/// Runs that are returned when the query does not say.
pub const DEFAULT_RUNS: i64 = 50;

/// The most runs that are returned.
pub const MAX_RUNS: i64 = 100;

#[derive(Debug, Clone, Copy)]
pub struct RecentQuery {
    /// Maximum number of runs to return (1–100; default 50).
    pub limit: Option<i64>,
}

/// An ingestion run.
#[derive(Debug)]
pub struct RecentRunItem {
    pub id: Uuid,
    pub repo_id: Uuid,
    pub status: String,
    pub started_at: Option<Timestamp>,
    pub finished_at: Option<Timestamp>,
    /// Trace ID in 32 hexadecimal digits, once it is known.
    pub trace_id: Option<String>,
    pub created_at: Timestamp,
}

impl RecentRunItem {
    /// The run in JSON.
    pub fn to_json(&self) -> (v: serde_json::Value)
        ensures
            json_of(v) == Json::Object(
                map![
                    "id"@ => Json::Str(self.id.text()),
                    "repo_id"@ => Json::Str(self.repo_id.text()),
                    "status"@ => Json::Str(self.status@),
                    "started_at"@ => opt_instant_json(self.started_at),
                    "finished_at"@ => opt_instant_json(self.finished_at),
                    "trace_id"@ => opt_str_json(self.trace_id),
                    "created_at"@ => instant_json(self.created_at.micros),
                ],
            ),
    {
        let v = json::with(json::object(), "id", json::uuid(&self.id));
        let v = json::with(v, "repo_id", json::uuid(&self.repo_id));
        let v = json::with(v, "status", json::string(self.status.as_str()));
        let v = json::with(v, "started_at", opt_instant(&self.started_at));
        let v = json::with(v, "finished_at", opt_instant(&self.finished_at));
        let v = json::with(v, "trace_id", json::opt_string(&self.trace_id));
        json::with(v, "created_at", self.created_at.to_json())
    }
}

#[derive(Debug)]
pub struct RecentRunsResponse {
    pub runs: Vec<RecentRunItem>,
}

/// The number of runs for a requested one.
pub open spec fn run_limit(requested: Option<i64>) -> i64 {
    match requested {
        None => DEFAULT_RUNS,
        Some(n) => if n < 1 {
            1
        } else if n > MAX_RUNS {
            MAX_RUNS
        } else {
            n
        },
    }
}

impl RecentQuery {
    /// The number of runs to return.
    pub fn effective_limit(&self) -> (n: i64)
        ensures
            n == run_limit(self.limit),
            1 <= n <= MAX_RUNS,
            self.limit is None ==> n == 50,
            self.limit matches Some(k) ==> (1 <= k <= 100 ==> n == k) && (k < 1 ==> n == 1) && (k > 100 ==> n == 100),
    {
        match self.limit {
            None => DEFAULT_RUNS,
            Some(n) => if n < 1 {
                1
            } else if n > MAX_RUNS {
                MAX_RUNS
            } else {
                n
            },
        }
    }
}

/// What to do next.
#[derive(Debug)]
pub enum RecentAction {
    /// Read the tenant's runs, the newest first, at most `limit`.
    Query { tenant_id: Uuid, limit: i64 },
    /// Answer.
    Answer(RecentRunsResponse),
    /// Refuse.
    Refuse(AppError),
}

/// The next step of listing runs, given the rows once they are read.
pub fn list_recent_runs(auth: &AuthContext, query: &RecentQuery, rows: Option<Vec<RecentRunItem>>) -> (action:
    RecentAction)
    ensures
        match (reader_tenant(*auth), rows) {
            (Err(e), _) => action == RecentAction::Refuse(e),
            (Ok(tenant_id), None) => action == (RecentAction::Query { tenant_id, limit: run_limit(query.limit) }),
            (Ok(_), Some(runs)) => action == RecentAction::Answer(RecentRunsResponse { runs }),
        },
{
    match require_read(auth) {
        Err(e) => RecentAction::Refuse(e),
        Ok(tenant_id) => match rows {
            None => RecentAction::Query { tenant_id, limit: query.effective_limit() },
            Some(runs) => RecentAction::Answer(RecentRunsResponse { runs }),
        },
    }
}

} // verus!
