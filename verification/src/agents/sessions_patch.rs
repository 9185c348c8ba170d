//! `PATCH /internal/agent/sessions/{id}/status`: the agent runner reports the
//! status of a session, be it an agent session or a chat session.

use crate::agents::events::{event_data, event_json};
use crate::agents::session_lifecycle::{is_terminal_status, is_valid_status, statuses_by_name, terminal_status, terminal_statuses_are_valid, valid_status};
use crate::clock::Timestamp;
use crate::error::AppError;
use crate::ids::Uuid;
use crate::json::{self, json_of, json_text, opt_int_json, opt_str_json, Json};
use crate::text::same;
use vstd::prelude::*;

verus! {

#[derive(Debug)]
pub struct PatchSessionStatusRequest {
    pub status: String,
    pub pid: Option<i64>,
    pub exit_code: Option<i32>,
    /// Why the session failed; looked at only when `status` is `failed`.
    pub error: Option<String>,
    /// The tenant that the session must belong to.
    pub tenant_id: Uuid,
}

/// The type of the event that a status leaves, if it leaves one.
pub open spec fn event_type_for(status: Seq<char>) -> Option<Seq<char>> {
    if status == "running"@ {
        Some("session.running"@)
    } else if status == "failed"@ {
        Some("session.failed"@)
    } else if status == "terminated"@ {
        Some("session.completed"@)
    } else {
        None
    }
}

/// The type of the event that a status leaves, if it leaves one.
pub fn lifecycle_event_type(status: &str) -> (r: Option<&'static str>)
    ensures
        match r {
            Some(t) => event_type_for(status@) == Some(t@),
            None => event_type_for(status@) is None,
        },
        status@ == "running"@ ==> (r matches Some(t) && t@ == "session.running"@),
        status@ == "failed"@ ==> (r matches Some(t) && t@ == "session.failed"@),
        status@ == "terminated"@ ==> (r matches Some(t) && t@ == "session.completed"@),
        r is Some ==> status@ == "running"@ || status@ == "failed"@ || status@ == "terminated"@,
{
    proof {
        reveal_strlit("running");
        reveal_strlit("failed");
        reveal_strlit("terminated");
        assert("running"@.len() == 7 && "failed"@.len() == 6 && "terminated"@.len() == 10);
    }
    if same(status, "running") {
        Some("session.running")
    } else if same(status, "failed") {
        Some("session.failed")
    } else if same(status, "terminated") {
        Some("session.completed")
    } else {
        None
    }
}

/// The sequence number of the event that a status leaves. Failures and ends have
/// numbers below those of all other events.
pub open spec fn event_seq_for(status: Seq<char>) -> i64 {
    if status == "failed"@ {
        (i64::MIN + 1) as i64
    } else if status == "terminated"@ {
        (i64::MIN + 2) as i64
    } else {
        0
    }
}

/// The sequence number of the event that a status leaves.
pub fn lifecycle_event_seq(status: &str) -> (n: i64)
    ensures
        n == event_seq_for(status@),
        status@ == "failed"@ ==> n == i64::MIN + 1,
        status@ == "terminated"@ ==> n == i64::MIN + 2,
        status@ != "failed"@ && status@ != "terminated"@ ==> n == 0,
{
    proof {
        reveal_strlit("failed");
        reveal_strlit("terminated");
        assert("failed"@.len() == 6 && "terminated"@.len() == 10);
    }
    if same(status, "failed") {
        i64::MIN + 1
    } else if same(status, "terminated") {
        i64::MIN + 2
    } else {
        0
    }
}

/// Events that statuses leave never take each other's number, nor that of an
/// event the runtime reports, which is 1 or more.
pub proof fn lifecycle_sequences_are_their_own(a: Seq<char>, b: Seq<char>)
    requires
        event_type_for(a) is Some,
        event_type_for(b) is Some,
    ensures
        event_seq_for(a) == event_seq_for(b) ==> event_type_for(a) == event_type_for(b),
        event_seq_for(a) < 1,
{
    reveal_strlit("running");
    reveal_strlit("failed");
    reveal_strlit("terminated");
    assert("running"@.len() == 7 && "failed"@.len() == 6 && "terminated"@.len() == 10);
}

/// A number, or null.
pub open spec fn small_json(n: Option<i32>) -> Json {
    opt_int_json(
        match n {
            Some(x) => Some(x as int),
            None => None,
        },
    )
}

/// What the event that a report leaves says.
pub open spec fn event_payload_for(req: PatchSessionStatusRequest) -> Json {
    Json::Object(
        if req.status@ == "running"@ {
            map!["pid"@ => opt_int_json(
                match req.pid {
                    Some(x) => Some(x as int),
                    None => None,
                },
            )]
        } else if req.status@ == "failed"@ {
            map!["failure_reason"@ => opt_str_json(req.error), "exit_code"@ => small_json(req.exit_code)]
        } else if req.status@ == "terminated"@ {
            map!["exit_code"@ => small_json(req.exit_code)]
        } else {
            Map::empty()
        },
    )
}

/// What the event that a report leaves says.
pub fn lifecycle_event_payload(req: &PatchSessionStatusRequest) -> (v: serde_json::Value)
    ensures
        json_of(v) == event_payload_for(*req),
        req.status@ == "running"@ ==> json_of(v) == Json::Object(
            map!["pid"@ => match req.pid {
                Some(n) => Json::Int(n as int),
                None => Json::Null,
            }],
        ),
        req.status@ == "failed"@ ==> json_of(v) == Json::Object(
            map![
                "failure_reason"@ => match req.error {
                    Some(s) => Json::Str(s@),
                    None => Json::Null,
                },
                "exit_code"@ => match req.exit_code {
                    Some(n) => Json::Int(n as int),
                    None => Json::Null,
                },
            ],
        ),
        req.status@ == "terminated"@ ==> json_of(v) == Json::Object(
            map!["exit_code"@ => match req.exit_code {
                Some(n) => Json::Int(n as int),
                None => Json::Null,
            }],
        ),
{
    proof {
        reveal_strlit("running");
        reveal_strlit("failed");
        reveal_strlit("terminated");
        assert("running"@.len() == 7 && "failed"@.len() == 6 && "terminated"@.len() == 10);
    }
    let v = json::object();
    if same(req.status.as_str(), "running") {
        json::with(v, "pid", json::opt_number(&req.pid))
    } else if same(req.status.as_str(), "failed") {
        let v = json::with(v, "failure_reason", json::opt_string(&req.error));
        json::with(v, "exit_code", json::opt_small_number(&req.exit_code))
    } else if same(req.status.as_str(), "terminated") {
        json::with(v, "exit_code", json::opt_small_number(&req.exit_code))
    } else {
        v
    }
}

/// The event that a report leaves: as it is kept, and as it is published.
#[derive(Debug)]
pub struct LifecycleEvent {
    pub event_type: &'static str,
    pub sequence: i64,
    pub payload: String,
    pub data: String,
}

impl LifecycleEvent {
    /// Whether this is the event that `req` leaves for `session`.
    pub open spec fn left_by(&self, session: Uuid, req: PatchSessionStatusRequest) -> bool {
        &&& event_type_for(req.status@) == Some(self.event_type@)
        &&& self.sequence == event_seq_for(req.status@)
        &&& self.payload@ == json_text(event_payload_for(req))
        &&& self.data@ == json_text(event_json(session, self.event_type@, self.sequence, event_payload_for(req)))
    }
}

/// Whether `event` is what `req` leaves for `session`, if it leaves anything.
pub open spec fn leaves(event: Option<LifecycleEvent>, session: Uuid, req: PatchSessionStatusRequest) -> bool {
    match event {
        Some(e) => e.left_by(session, req),
        None => event_type_for(req.status@) is None,
    }
}

/// The event that a report leaves, if it leaves one.
fn lifecycle_event(session_id: Uuid, req: &PatchSessionStatusRequest) -> (event: Option<LifecycleEvent>)
    ensures
        leaves(event, session_id, *req),
        event is Some <==> req.status@ == "running"@ || req.status@ == "failed"@ || req.status@ == "terminated"@,
        event matches Some(e) ==> e.data@ == json_text(
            Json::Object(
                map![
                    "session_id"@ => Json::Str(session_id.text()),
                    "event_type"@ => Json::Str(e.event_type@),
                    "sequence"@ => Json::Int(e.sequence as int),
                    "payload"@ => event_payload_for(*req),
                ],
            ),
        ),
{
    match lifecycle_event_type(req.status.as_str()) {
        None => None,
        Some(event_type) => {
            let sequence: i64 = lifecycle_event_seq(req.status.as_str());
            let v = lifecycle_event_payload(req);
            let payload = json::text(&v);
            Some(
                LifecycleEvent {
                    event_type,
                    sequence,
                    payload,
                    data: event_data(session_id, event_type, sequence, v),
                },
            )
        },
    }
}

/// The status that a chat session takes, if the report ends it.
pub open spec fn chat_status_for(status: Seq<char>) -> Option<Seq<char>> {
    if status == "terminated"@ {
        Some("ended"@)
    } else if status == "failed"@ {
        Some("failed"@)
    } else {
        None
    }
}

/// What was learnt last.
#[derive(Debug, Clone, Copy)]
pub enum PatchProgress {
    /// Nothing yet.
    Begin,
    /// The tenant of the agent session with the ID, if there is one.
    AgentSession(Option<Uuid>),
    /// Whether the agent session was updated; `None` where that failed.
    AgentUpdated(Option<bool>),
    /// The tenant of the chat session with the ID, if there is one.
    ChatSession(Option<Uuid>),
    /// Whether the statement that updates the chat session went through.
    ChatUpdated(bool),
}

/// What to do next.
#[derive(Debug)]
pub enum PatchAction {
    /// Look for an agent session with the ID.
    FindAgentSession { id: Uuid },
    /// Set status, process and exit code of the agent session, unless it has
    /// ended; for a failure also its time and, if given, its reason.
    /// `Fleet::updated` says what is kept then, and `Fleet::changes` whether it is
    /// anything new.
    UpdateAgentSession { id: Uuid, tenant_id: Uuid, failed: bool },
    /// Look for a chat session with the ID.
    FindChatSession { id: Uuid },
    /// End the chat session with this status, if it is active.
    UpdateChatSession { id: Uuid, tenant_id: Uuid, status: &'static str },
    /// Take the session out of the registry, give the tenant's slot back and revoke
    /// the session's key if `retire` says so; keep the event if `keep` says so and
    /// publish it, if there is one; then answer that it is done. `Fleet::finished`
    /// says what is left then.
    Finish { id: Uuid, tenant_id: Uuid, retire: bool, keep: bool, event: Option<LifecycleEvent> },
    /// Refuse.
    Refuse(AppError),
}

/// Whether `action` ends a report on a chat session: its event is published and not
/// kept.
pub open spec fn chat_finished(action: PatchAction, session_id: Uuid, req: PatchSessionStatusRequest) -> bool {
    action matches PatchAction::Finish { id, tenant_id, retire, keep, event } && id == session_id && tenant_id
        == req.tenant_id && !retire && !keep && leaves(event, session_id, req)
}

/// Whether `action` is the next step of taking a status report.
pub open spec fn patch_step(
    session_id: Uuid,
    req: PatchSessionStatusRequest,
    progress: PatchProgress,
    action: PatchAction,
) -> bool {
    if !valid_status(req.status@) {
        action == PatchAction::Refuse(AppError::InvalidInput)
    } else {
        match progress {
            PatchProgress::Begin => action == (PatchAction::FindAgentSession { id: session_id }),
            PatchProgress::AgentSession(None) => action == (PatchAction::FindChatSession { id: session_id }),
            PatchProgress::AgentSession(Some(tenant)) => action == if tenant != req.tenant_id {
                PatchAction::Refuse(AppError::Unauthorized)
            } else {
                PatchAction::UpdateAgentSession {
                    id: session_id,
                    tenant_id: tenant,
                    failed: req.status@ == "failed"@,
                }
            },
            PatchProgress::AgentUpdated(None) => action == PatchAction::Refuse(AppError::Internal),
            PatchProgress::AgentUpdated(Some(false)) => action == (PatchAction::Finish {
                id: session_id,
                tenant_id: req.tenant_id,
                retire: false,
                keep: false,
                event: None,
            }),
            PatchProgress::AgentUpdated(Some(true)) => action matches PatchAction::Finish {
                id,
                tenant_id,
                retire,
                keep,
                event,
            } && id == session_id && tenant_id == req.tenant_id && retire == terminal_status(req.status@) && keep && leaves(event, session_id, req),
            PatchProgress::ChatSession(None) => action == PatchAction::Refuse(AppError::NotFound),
            PatchProgress::ChatSession(Some(tenant)) => if tenant != req.tenant_id {
                action == PatchAction::Refuse(AppError::Unauthorized)
            } else {
                match chat_status_for(req.status@) {
                    Some(s) => action matches PatchAction::UpdateChatSession { id, tenant_id, status } && id
                        == session_id && tenant_id == tenant && status@ == s,
                    None => chat_finished(action, session_id, req),
                }
            },
            PatchProgress::ChatUpdated(false) => action == PatchAction::Refuse(AppError::Internal),
            PatchProgress::ChatUpdated(true) => chat_finished(action, session_id, req),
        }
    }
}

/// The next step of taking a status report. The status must be a known one, and
/// the session must belong to the tenant that the runner names. Only a report
/// that changed an agent session has further effects.
pub fn patch_session_status(session_id: Uuid, req: &PatchSessionStatusRequest, progress: PatchProgress) -> (action:
    PatchAction)
    ensures
        patch_step(session_id, *req, progress, action),
{
    if !is_valid_status(req.status.as_str()) {
        return PatchAction::Refuse(AppError::InvalidInput);
    }
    match progress {
        PatchProgress::Begin => PatchAction::FindAgentSession { id: session_id },
        PatchProgress::AgentSession(None) => PatchAction::FindChatSession { id: session_id },
        PatchProgress::AgentSession(Some(tenant)) => if tenant != req.tenant_id {
            PatchAction::Refuse(AppError::Unauthorized)
        } else {
            PatchAction::UpdateAgentSession {
                id: session_id,
                tenant_id: tenant,
                failed: same(req.status.as_str(), "failed"),
            }
        },
        PatchProgress::AgentUpdated(None) => PatchAction::Refuse(AppError::Internal),
        PatchProgress::AgentUpdated(Some(changed)) => if changed {
            PatchAction::Finish {
                id: session_id,
                tenant_id: req.tenant_id,
                retire: is_terminal_status(req.status.as_str()),
                keep: true,
                event: lifecycle_event(session_id, req),
            }
        } else {
            PatchAction::Finish { id: session_id, tenant_id: req.tenant_id, retire: false, keep: false, event: None }
        },
        PatchProgress::ChatSession(None) => PatchAction::Refuse(AppError::NotFound),
        PatchProgress::ChatSession(Some(tenant)) => if tenant != req.tenant_id {
            PatchAction::Refuse(AppError::Unauthorized)
        } else if same(req.status.as_str(), "terminated") {
            PatchAction::UpdateChatSession { id: session_id, tenant_id: tenant, status: "ended" }
        } else if same(req.status.as_str(), "failed") {
            PatchAction::UpdateChatSession { id: session_id, tenant_id: tenant, status: "failed" }
        } else {
            PatchAction::Finish {
                id: session_id,
                tenant_id: req.tenant_id,
                retire: false,
                keep: false,
                event: lifecycle_event(session_id, req),
            }
        },
        PatchProgress::ChatUpdated(done) => if done {
            PatchAction::Finish {
                id: session_id,
                tenant_id: req.tenant_id,
                retire: false,
                keep: false,
                event: lifecycle_event(session_id, req),
            }
        } else {
            PatchAction::Refuse(AppError::Internal)
        },
    }
}

/// An agent session as it is kept.
pub struct AgentSessionState {
    pub tenant_id: Uuid,
    pub status: Seq<char>,
    pub pid: Option<i64>,
    pub exit_code: Option<i32>,
    pub failed_at: Option<Timestamp>,
    pub failure_reason: Option<Seq<char>>,
}

/// An event of an agent session, as it is kept.
pub struct KeptEvent {
    pub session_id: Uuid,
    pub tenant_id: Uuid,
    pub event_type: Seq<char>,
    pub sequence: i64,
    pub payload: Seq<char>,
}

/// What status reports on agent sessions can change.
pub struct Fleet {
    pub sessions: Map<Uuid, AgentSessionState>,
    /// The sessions in the registry.
    pub registered: Set<Uuid>,
    /// How many slots each tenant was given back.
    pub released: Map<Uuid, nat>,
    /// The sessions whose key is revoked.
    pub revoked: Set<Uuid>,
    pub events: Seq<KeptEvent>,
    /// The data that was published, with the tenant it was published for.
    pub published: Seq<(Uuid, Seq<char>)>,
}

impl Fleet {
    /// Whether `UpdateAgentSession` changes the session: there is one of that tenant,
    /// and it has not ended.
    pub open spec fn changes(self, id: Uuid, tenant_id: Uuid) -> bool {
        self.sessions.contains_key(id) && self.sessions[id].tenant_id == tenant_id && !terminal_status(
            self.sessions[id].status,
        )
    }

    /// What `UpdateAgentSession` leaves at `now`: status, process and exit code of the
    /// report, and for a failure its time and, if given, its reason.
    pub open spec fn updated(
        self,
        id: Uuid,
        tenant_id: Uuid,
        req: PatchSessionStatusRequest,
        failed: bool,
        now: Timestamp,
    ) -> Fleet {
        if self.changes(id, tenant_id) {
            let before = self.sessions[id];
            Fleet {
                sessions: self.sessions.insert(
                    id,
                    AgentSessionState {
                        tenant_id: before.tenant_id,
                        status: req.status@,
                        pid: req.pid,
                        exit_code: req.exit_code,
                        failed_at: if failed {
                            Some(now)
                        } else {
                            before.failed_at
                        },
                        failure_reason: match req.error {
                            Some(reason) if failed => Some(reason@),
                            _ => before.failure_reason,
                        },
                    },
                ),
                ..self
            }
        } else {
            self
        }
    }

    /// What `Finish` leaves.
    pub open spec fn finished(
        self,
        id: Uuid,
        tenant_id: Uuid,
        retire: bool,
        keep: bool,
        event: Option<LifecycleEvent>,
    ) -> Fleet {
        let held = if self.released.contains_key(tenant_id) {
            self.released[tenant_id]
        } else {
            0
        };
        Fleet {
            sessions: self.sessions,
            registered: if retire {
                self.registered.remove(id)
            } else {
                self.registered
            },
            released: if retire {
                self.released.insert(tenant_id, held + 1)
            } else {
                self.released
            },
            revoked: if retire {
                self.revoked.insert(id)
            } else {
                self.revoked
            },
            events: match event {
                Some(e) if keep => self.events.push(
                    KeptEvent {
                        session_id: id,
                        tenant_id,
                        event_type: e.event_type@,
                        sequence: e.sequence,
                        payload: e.payload@,
                    },
                ),
                _ => self.events,
            },
            published: match event {
                Some(e) => self.published.push((tenant_id, e.data@)),
                None => self.published,
            },
        }
    }

    /// What is left once `action` is done.
    pub open spec fn after(self, req: PatchSessionStatusRequest, action: PatchAction, now: Timestamp) -> Fleet {
        match action {
            PatchAction::UpdateAgentSession { id, tenant_id, failed } => self.updated(id, tenant_id, req, failed, now),
            PatchAction::Finish { id, tenant_id, retire, keep, event } => self.finished(
                id,
                tenant_id,
                retire,
                keep,
                event,
            ),
            _ => self,
        }
    }
}

/// A session that has ended stays as it is: a report on it is answered like any
/// other, but it changes nothing, neither the session nor the registry, the tenant's
/// slots, the session's key or the events, and nothing is published.
pub proof fn ended_sessions_stay_ended(
    fleet: Fleet,
    id: Uuid,
    req: PatchSessionStatusRequest,
    update: PatchAction,
    finish: PatchAction,
    now: Timestamp,
)
    requires
        fleet.sessions.contains_key(id),
        terminal_status(fleet.sessions[id].status),
        valid_status(req.status@),
        req.tenant_id == fleet.sessions[id].tenant_id,
        patch_step(id, req, PatchProgress::AgentSession(Some(fleet.sessions[id].tenant_id)), update),
        patch_step(id, req, PatchProgress::AgentUpdated(Some(fleet.changes(id, req.tenant_id))), finish),
    ensures
        update is UpdateAgentSession,
        finish is Finish,
        fleet.after(req, update, now) == fleet,
        fleet.after(req, update, now).after(req, finish, now) == fleet,
{
}

/// A session that has not ended takes the status of a report of its tenant's. If
/// that status is final, the session leaves the registry, the tenant is given one
/// slot back and the session's key is revoked; otherwise none of this happens.
pub proof fn reports_are_taken(
    fleet: Fleet,
    id: Uuid,
    req: PatchSessionStatusRequest,
    update: PatchAction,
    finish: PatchAction,
    now: Timestamp,
)
    requires
        fleet.sessions.contains_key(id),
        !terminal_status(fleet.sessions[id].status),
        valid_status(req.status@),
        req.tenant_id == fleet.sessions[id].tenant_id,
        patch_step(id, req, PatchProgress::AgentSession(Some(fleet.sessions[id].tenant_id)), update),
        patch_step(id, req, PatchProgress::AgentUpdated(Some(fleet.changes(id, req.tenant_id))), finish),
    ensures
        ({
            let after = fleet.after(req, update, now).after(req, finish, now);
            let given = if fleet.released.contains_key(req.tenant_id) {
                fleet.released[req.tenant_id]
            } else {
                0
            };
            &&& after.sessions[id].status == req.status@
            &&& after.sessions[id].tenant_id == req.tenant_id
            &&& terminal_status(req.status@) ==> after.released == fleet.released.insert(req.tenant_id, given + 1)
                && after.registered == fleet.registered.remove(id) && after.revoked == fleet.revoked.insert(id)
            &&& !terminal_status(req.status@) ==> after.released == fleet.released && after.registered
                == fleet.registered && after.revoked == fleet.revoked
        }),
{
}

/// The slot of a session is given back once: after a report that ends the session,
/// every further report leaves all as it is.
pub proof fn a_slot_is_given_back_once(
    fleet: Fleet,
    id: Uuid,
    req: PatchSessionStatusRequest,
    update: PatchAction,
    finish: PatchAction,
    now: Timestamp,
    later: PatchSessionStatusRequest,
    later_update: PatchAction,
    later_finish: PatchAction,
    later_now: Timestamp,
)
    requires
        fleet.changes(id, req.tenant_id),
        terminal_status(req.status@),
        patch_step(id, req, PatchProgress::AgentSession(Some(fleet.sessions[id].tenant_id)), update),
        patch_step(id, req, PatchProgress::AgentUpdated(Some(true)), finish),
        valid_status(later.status@),
        later.tenant_id == req.tenant_id,
        patch_step(id, later, PatchProgress::AgentSession(Some(req.tenant_id)), later_update),
        patch_step(
            id,
            later,
            PatchProgress::AgentUpdated(
                Some(fleet.after(req, update, now).after(req, finish, now).changes(id, later.tenant_id)),
            ),
            later_finish,
        ),
    ensures
        finish matches PatchAction::Finish { retire, .. } && retire,
        later_finish matches PatchAction::Finish { retire, keep, event, .. } && !retire && !keep && event is None,
        ({
            let after = fleet.after(req, update, now).after(req, finish, now);
            after.after(later, later_update, later_now).after(later, later_finish, later_now) == after
        }),
{
    terminal_statuses_are_valid(req.status@);
    let after = fleet.after(req, update, now).after(req, finish, now);
    reports_are_taken(fleet, id, req, update, finish, now);
    ended_sessions_stay_ended(after, id, later, later_update, later_finish, later_now);
}

/// What becomes of a report, step by step. A status that cannot be set is refused; so is
/// a report on a session of another tenant's, or on none. A report on an agent session
/// updates it. If that changed it, a final status retires the session, and the event is
/// kept and published; if not, nothing else happens.
pub proof fn reports_on_agent_sessions(
    session_id: Uuid,
    req: PatchSessionStatusRequest,
    progress: PatchProgress,
    action: PatchAction,
)
    requires
        patch_step(session_id, req, progress, action),
    ensures
        !(req.status@ == "pending"@ || req.status@ == "running"@ || req.status@ == "terminating"@ || req.status@
            == "terminated"@ || req.status@ == "cancelled"@ || req.status@ == "failed"@ || req.status@ == "completed"@)
            ==> action == PatchAction::Refuse(AppError::InvalidInput),
        req.status@ == "pending"@ || req.status@ == "running"@ || req.status@ == "terminating"@ || req.status@
            == "terminated"@ || req.status@ == "cancelled"@ || req.status@ == "failed"@ || req.status@ == "completed"@
            ==> match progress {
            PatchProgress::Begin => action matches PatchAction::FindAgentSession { id } && id == session_id,
            PatchProgress::AgentSession(None) => action matches PatchAction::FindChatSession { id } && id == session_id,
            PatchProgress::AgentSession(Some(tenant)) => if tenant == req.tenant_id {
                action matches PatchAction::UpdateAgentSession { id, tenant_id, failed } && id == session_id && tenant_id
                    == tenant && failed == (req.status@ == "failed"@)
            } else {
                action == PatchAction::Refuse(AppError::Unauthorized)
            },
            PatchProgress::AgentUpdated(None) => action == PatchAction::Refuse(AppError::Internal),
            PatchProgress::AgentUpdated(Some(changed)) => {
                &&& action matches PatchAction::Finish { id, tenant_id, retire, keep, event }
                &&& id == session_id
                &&& tenant_id == req.tenant_id
                &&& retire == (changed && (req.status@ == "terminated"@ || req.status@ == "cancelled"@ || req.status@
                    == "failed"@ || req.status@ == "completed"@))
                &&& keep == changed
                &&& event is Some == (changed && (req.status@ == "running"@ || req.status@ == "failed"@ || req.status@
                    == "terminated"@))
                &&& event matches Some(e) ==> e.payload@ == json_text(event_payload_for(req))
            },
            _ => true,
        },
{
    statuses_by_name(req.status@);
}

/// A report on a chat session ends it where it says that the runner ended or failed, and
/// its event, if there is one, is published and not kept. Nothing is retired: chat
/// sessions take no slot.
pub proof fn reports_on_chat_sessions(
    session_id: Uuid,
    req: PatchSessionStatusRequest,
    progress: PatchProgress,
    action: PatchAction,
)
    requires
        patch_step(session_id, req, progress, action),
        valid_status(req.status@),
    ensures
        match progress {
            PatchProgress::ChatSession(None) => action == PatchAction::Refuse(AppError::NotFound),
            PatchProgress::ChatSession(Some(tenant)) => if tenant != req.tenant_id {
                action == PatchAction::Refuse(AppError::Unauthorized)
            } else if req.status@ == "terminated"@ || req.status@ == "failed"@ {
                &&& action matches PatchAction::UpdateChatSession { id, tenant_id, status }
                &&& id == session_id
                &&& tenant_id == tenant
                &&& req.status@ == "terminated"@ ==> status@ == "ended"@
                &&& req.status@ == "failed"@ ==> status@ == "failed"@
            } else {
                action matches PatchAction::Finish { id, tenant_id, retire, keep, event } && id == session_id && tenant_id
                    == tenant && !retire && !keep && event is Some == (req.status@ == "running"@)
            },
            PatchProgress::ChatUpdated(false) => action == PatchAction::Refuse(AppError::Internal),
            PatchProgress::ChatUpdated(true) => action matches PatchAction::Finish {
                id,
                tenant_id,
                retire,
                keep,
                event,
            } && id == session_id && tenant_id == req.tenant_id && !retire && !keep && event is Some == (req.status@
                == "running"@ || req.status@ == "failed"@ || req.status@ == "terminated"@),
            _ => true,
        },
{
    reveal_strlit("running");
    reveal_strlit("failed");
    reveal_strlit("terminated");
    assert("running"@.len() == 7 && "failed"@.len() == 6 && "terminated"@.len() == 10);
}

} // verus!
