//! `GET /v1/ingestions/{ingestion_run_id}/stages`: how far an ingestion run got.

use crate::caller::{reader_tenant, require_read, AuthContext};
use crate::clock::{opt_instant, opt_instant_json, Timestamp};
use crate::error::AppError;
use crate::ids::Uuid;
use crate::json::{self, json_of, opt_str_json, Json};
use vstd::prelude::*;

verus! {

/// One stage of a run.
#[derive(Debug)]
pub struct StageRunItem {
    pub stage: String,
    pub status: String,
    pub started_at: Option<Timestamp>,
    pub finished_at: Option<Timestamp>,
    pub error_message: Option<String>,
}

impl StageRunItem {
    /// The stage in JSON.
    pub fn to_json(&self) -> (v: serde_json::Value)
        ensures
            json_of(v) == Json::Object(
                map![
                    "stage"@ => Json::Str(self.stage@),
                    "status"@ => Json::Str(self.status@),
                    "started_at"@ => opt_instant_json(self.started_at),
                    "finished_at"@ => opt_instant_json(self.finished_at),
                    "error_message"@ => opt_str_json(self.error_message),
                ],
            ),
    {
        let v = json::with(json::object(), "stage", json::string(self.stage.as_str()));
        let v = json::with(v, "status", json::string(self.status.as_str()));
        let v = json::with(v, "started_at", opt_instant(&self.started_at));
        let v = json::with(v, "finished_at", opt_instant(&self.finished_at));
        json::with(v, "error_message", json::opt_string(&self.error_message))
    }
}

#[derive(Debug)]
pub struct StageTimelineResponse {
    pub ingestion_run_id: Uuid,
    pub trace_id: Option<String>,
    pub stages: Vec<StageRunItem>,
}

/// A run of the tenant.
#[derive(Debug)]
pub struct RunRow {
    pub trace_id: Option<String>,
}

/// What was learnt last.
#[derive(Debug)]
pub enum StagesProgress {
    /// Nothing yet.
    Begin,
    /// The tenant's run with the ID, if there is one.
    Found(Option<RunRow>),
    /// The run's stages, in the order in which they were created.
    Listed(RunRow, Vec<StageRunItem>),
}

/// What to do next.
#[derive(Debug)]
pub enum StagesAction {
    /// Look the run up, among those of the tenant.
    FindRun { id: Uuid, tenant_id: Uuid },
    /// Read the run's stages.
    ListStages { id: Uuid, run: RunRow },
    /// Answer.
    Answer(StageTimelineResponse),
    /// Refuse.
    Refuse(AppError),
}

/// The next step of showing a timeline. A run of another tenant is not found.
pub fn get_stage_timeline(auth: &AuthContext, run_id: Uuid, progress: StagesProgress) -> (action: StagesAction)
    ensures
        match reader_tenant(*auth) {
            Err(e) => action == StagesAction::Refuse(e),
            Ok(tenant_id) => match progress {
                StagesProgress::Begin => action == (StagesAction::FindRun { id: run_id, tenant_id }),
                StagesProgress::Found(None) => action == StagesAction::Refuse(AppError::NotFound),
                StagesProgress::Found(Some(run)) => action == (StagesAction::ListStages { id: run_id, run }),
                StagesProgress::Listed(run, stages) => action == StagesAction::Answer(
                    StageTimelineResponse { ingestion_run_id: run_id, trace_id: run.trace_id, stages },
                ),
            },
        },
{
    let tenant_id = match require_read(auth) {
        Err(e) => return StagesAction::Refuse(e),
        Ok(t) => t,
    };
    match progress {
        StagesProgress::Begin => StagesAction::FindRun { id: run_id, tenant_id },
        StagesProgress::Found(None) => StagesAction::Refuse(AppError::NotFound),
        StagesProgress::Found(Some(run)) => StagesAction::ListStages { id: run_id, run },
        StagesProgress::Listed(run, stages) => StagesAction::Answer(
            StageTimelineResponse { ingestion_run_id: run_id, trace_id: run.trace_id, stages },
        ),
    }
}

} // verus!
