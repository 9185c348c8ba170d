//! `POST /api/admin/v1/tenants/{id}/rebind-gh-install`: point a GitHub App
//! installation at another tenant.

use crate::admin::v1::{audit_row, AdminCaller, AuditRow, Ending};
use crate::error::AppError;
use crate::ids::Uuid;
use crate::json::{self, json_of, opt_str_json, Json};
use crate::text::{is_blank, trimmed};
use vstd::prelude::*;

verus! {

#[derive(Debug)]
pub struct RebindGhInstallReq {
    /// Numeric GitHub App installation ID to rebind.
    pub github_installation_id: i64,
    /// Rebind even if the installation points at another tenant; needs a `reason`.
    pub force: bool,
    /// Human-readable reason for the rebind (required with `force`).
    pub reason: Option<String>,
}

#[derive(Debug, Clone, Copy, PartialEq, Eq)]
pub struct RebindGhInstallResp {
    pub installation_id: Uuid,
    pub tenant_id: Uuid,
    pub previous_tenant_id: Option<Uuid>,
}

/// An installation row: its ID and the tenant it belongs to.
#[derive(Debug, Clone, Copy, PartialEq, Eq)]
pub struct Installation {
    pub id: Uuid,
    pub tenant_id: Uuid,
}

/// What is known so far while a rebind is carried out.
#[derive(Debug, Clone, Copy)]
pub struct RebindFacts {
    /// Whether the target tenant exists and is not deleted.
    pub tenant_exists: Option<bool>,
    /// The installation row, if there is one that is not deleted.
    pub installation: Option<Option<Installation>>,
    /// Whether the installation was moved.
    pub moved: bool,
    /// Whether a database statement failed.
    pub failed: bool,
}

/// What to do next.
pub enum RebindAction {
    /// Look whether the target tenant exists.
    FindTenant { id: Uuid },
    /// Look the installation up.
    FindInstallation { github_installation_id: i64 },
    /// Set the tenant of the installation row.
    Move { installation: Uuid, tenant: Uuid },
    /// Write the audit row, then answer.
    Answer { audit: AuditRow, reply: Result<RebindGhInstallResp, AppError> },
}

impl RebindGhInstallReq {
    /// Whether the request forces the rebind without saying why.
    pub open spec fn lacks_reason(&self) -> bool {
        self.force && match self.reason {
            Some(r) => trimmed(r@).len() == 0,
            None => true,
        }
    }

    /// The payload that names the installation alone.
    pub open spec fn brief(&self) -> Map<Seq<char>, Json> {
        map!["github_installation_id"@ => Json::Int(self.github_installation_id as int)]
    }
}

impl RebindAction {
    /// Whether this is the answer `reply`, with an audit row for `caller` and `tenant`
    /// that carries `payload` and says `ending`.
    pub open spec fn answers(
        &self,
        caller: AdminCaller,
        tenant: Uuid,
        payload: Map<Seq<char>, Json>,
        ending: Ending,
        reply: Result<RebindGhInstallResp, AppError>,
    ) -> bool {
        &&& self matches RebindAction::Answer { audit, reply: r }
        &&& audit.records(caller, true, "tenant.rebind_gh"@, Some(tenant), None, Json::Object(payload))
        &&& audit.ends(ending)
        &&& r == reply
    }
}

/// An answer and its audit row.
fn answer(
    caller: &AdminCaller,
    tenant_id: Uuid,
    payload: serde_json::Value,
    outcome: &'static str,
    error_class: Option<&'static str>,
    reply: Result<RebindGhInstallResp, AppError>,
) -> (action: RebindAction)
    ensures
        action matches RebindAction::Answer { audit, reply: r } && r == reply && audit.outcome == outcome
            && audit.error_class == error_class && audit.records(
            *caller,
            true,
            "tenant.rebind_gh"@,
            Some(tenant_id),
            None,
            json_of(payload),
        ),
{
    RebindAction::Answer {
        audit: audit_row(caller, true, "tenant.rebind_gh", Some(tenant_id), None, payload, outcome, error_class),
        reply,
    }
}

/// The next step of a rebind.
///
/// A forced rebind without a reason is refused before anything is looked up. A
/// missing tenant and a missing installation are not found, in that order. An
/// installation that already belongs to the tenant is left as it is; one of
/// another tenant moves only when forced.
pub fn rebind_gh_install(
    caller: &AdminCaller,
    tenant_id: Uuid,
    body: &RebindGhInstallReq,
    facts: &RebindFacts,
) -> (action: RebindAction)
    ensures
        action matches RebindAction::Move { tenant, .. } ==> tenant == tenant_id && body.force && !body.lacks_reason(),
        body.lacks_reason() ==> action.answers(
            *caller,
            tenant_id,
            body.brief().insert("force"@, Json::Bool(body.force)).insert("reason"@, opt_str_json(body.reason)),
            Ending::Denied("force_requires_reason"@),
            Err(AppError::InvalidInput),
        ),
        !body.lacks_reason() && facts.failed ==> action.answers(
            *caller,
            tenant_id,
            body.brief(),
            Ending::Failed("database_error"@),
            Err(AppError::Database),
        ),
        !body.lacks_reason() && !facts.failed ==> match (facts.tenant_exists, facts.installation) {
            (None, _) => action == (RebindAction::FindTenant { id: tenant_id }),
            (Some(false), _) => action.answers(
                *caller,
                tenant_id,
                body.brief(),
                Ending::Denied("tenant_not_found"@),
                Err(AppError::NotFound),
            ),
            (Some(true), None) => action == (RebindAction::FindInstallation {
                github_installation_id: body.github_installation_id,
            }),
            (Some(true), Some(None)) => action.answers(
                *caller,
                tenant_id,
                body.brief(),
                Ending::Denied("installation_not_found"@),
                Err(AppError::NotFound),
            ),
            (Some(true), Some(Some(row))) => if row.tenant_id == tenant_id {
                action.answers(
                    *caller,
                    tenant_id,
                    body.brief().insert("note"@, Json::Str("already_bound_to_tenant"@)),
                    Ending::Served,
                    Ok(RebindGhInstallResp { installation_id: row.id, tenant_id, previous_tenant_id: None }),
                )
            } else if !body.force {
                action.answers(
                    *caller,
                    tenant_id,
                    body.brief().insert("current_tenant_id"@, Json::Str(row.tenant_id.text())),
                    Ending::Denied("cross_tenant_conflict"@),
                    Err(AppError::GithubInstallationConflict),
                )
            } else if !facts.moved {
                action == (RebindAction::Move { installation: row.id, tenant: tenant_id })
            } else {
                action.answers(
                    *caller,
                    tenant_id,
                    body.brief().insert("previous_tenant_id"@, Json::Str(row.tenant_id.text())).insert(
                        "reason"@,
                        opt_str_json(body.reason),
                    ),
                    Ending::Served,
                    Ok(
                        RebindGhInstallResp {
                            installation_id: row.id,
                            tenant_id,
                            previous_tenant_id: Some(row.tenant_id),
                        },
                    ),
                )
            },
        },
        action matches RebindAction::Move { installation, tenant } ==> tenant == tenant_id && (facts.installation
            matches Some(Some(row)) && row.id == installation && row.tenant_id != tenant_id) && body.force && (body.reason
            matches Some(r) && trimmed(r@).len() > 0),
        action matches RebindAction::Answer { audit, reply } ==> {
            &&& audit.actor@ == caller.actor@
            &&& audit.action@ == "tenant.rebind_gh"@
            &&& audit.tenant_id == Some(tenant_id)
            &&& json_of(audit.payload_summary) matches Json::Object(m) && m.contains_key("github_installation_id"@)
                && m["github_installation_id"@] == Json::Int(body.github_installation_id as int)
            &&& reply is Ok <==> audit.outcome@ == "ok"@
            &&& reply matches Ok(resp) ==> (facts.installation matches Some(Some(row)) && resp.installation_id == row.id
                && resp.tenant_id == tenant_id && resp.previous_tenant_id == if row.tenant_id == tenant_id {
                None::<Uuid>
            } else {
                Some(row.tenant_id)
            })
        },
        body.force && !(body.reason matches Some(r) && trimmed(r@).len() > 0) ==> (action matches RebindAction::Answer {
            reply,
            ..
        } && reply == Err::<RebindGhInstallResp, AppError>(AppError::InvalidInput)),
{
    proof {
        reveal_strlit("github_installation_id");
        reveal_strlit("force");
        reveal_strlit("reason");
        reveal_strlit("note");
        reveal_strlit("current_tenant_id");
        reveal_strlit("previous_tenant_id");
        reveal_strlit("ok");
        reveal_strlit("denied");
        reveal_strlit("error");
        assert("github_installation_id"@.len() == 22 && "force"@.len() == 5 && "reason"@.len() == 6 && "note"@.len() == 4);
        assert("current_tenant_id"@.len() == 17 && "previous_tenant_id"@.len() == 18);
        assert("ok"@.len() == 2 && "denied"@.len() == 6 && "error"@.len() == 5);
    }
    let brief = json::with(json::object(), "github_installation_id", json::number(body.github_installation_id));
    let blank = match &body.reason {
        Some(r) => is_blank(r.as_str()),
        None => true,
    };
    if body.force && blank {
        let payload = json::with(
            json::with(brief, "force", json::boolean(body.force)),
            "reason",
            json::opt_string(&body.reason),
        );
        return answer(
            caller,
            tenant_id,
            payload,
            "denied",
            Some("force_requires_reason"),
            Err(AppError::InvalidInput),
        );
    }
    if facts.failed {
        return answer(caller, tenant_id, brief, "error", Some("database_error"), Err(AppError::Database));
    }
    match facts.tenant_exists {
        None => return RebindAction::FindTenant { id: tenant_id },
        Some(false) => return answer(
            caller,
            tenant_id,
            brief,
            "denied",
            Some("tenant_not_found"),
            Err(AppError::NotFound),
        ),
        Some(true) => {},
    }
    match facts.installation {
        None => RebindAction::FindInstallation { github_installation_id: body.github_installation_id },
        Some(None) => answer(
            caller,
            tenant_id,
            brief,
            "denied",
            Some("installation_not_found"),
            Err(AppError::NotFound),
        ),
        Some(Some(row)) => if row.tenant_id == tenant_id {
            let payload = json::with(brief, "note", json::string("already_bound_to_tenant"));
            let reply = RebindGhInstallResp { installation_id: row.id, tenant_id, previous_tenant_id: None };
            answer(caller, tenant_id, payload, "ok", None, Ok(reply))
        } else if !body.force {
            let payload = json::with(brief, "current_tenant_id", json::uuid(&row.tenant_id));
            answer(
                caller,
                tenant_id,
                payload,
                "denied",
                Some("cross_tenant_conflict"),
                Err(AppError::GithubInstallationConflict),
            )
        } else if !facts.moved {
            RebindAction::Move { installation: row.id, tenant: tenant_id }
        } else {
            let payload = json::with(
                json::with(brief, "previous_tenant_id", json::uuid(&row.tenant_id)),
                "reason",
                json::opt_string(&body.reason),
            );
            let reply = RebindGhInstallResp {
                installation_id: row.id,
                tenant_id,
                previous_tenant_id: Some(row.tenant_id),
            };
            answer(caller, tenant_id, payload, "ok", None, Ok(reply))
        },
    }
}

} // verus!
