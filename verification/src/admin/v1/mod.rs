//! Operator-only endpoints behind the admin bearer token. Every request that is
//! answered here leaves one row in the admin audit log.

pub mod audit_log;
pub mod bootstrap;
pub mod tenants;

use crate::ids::Uuid;
use crate::json::{json_of, Json};
use crate::text::copy_opt;
use vstd::prelude::*;

verus! {

/// The operator behind a request, as the admin token check found them.
#[derive(Debug)]
pub struct AdminCaller {
    pub actor: String,
    pub request_id: Uuid,
    pub ip: Option<String>,
    pub user_agent: Option<String>,
}

/// One row of `auth.admin_audit_log`.
#[derive(Debug)]
pub struct AuditRow {
    pub actor: String,
    pub action: &'static str,
    pub tenant_id: Option<Uuid>,
    pub target_user_id: Option<Uuid>,
    pub request_id: Uuid,
    pub ip: Option<String>,
    pub user_agent: Option<String>,
    pub payload_summary: serde_json::Value,
    pub outcome: &'static str,
    pub error_class: Option<&'static str>,
}

/// How a request ended, as the audit log has it.
pub enum Ending {
    /// As asked.
    Served,
    /// Refused, for the reason named.
    Denied(Seq<char>),
    /// Failed, for the reason named.
    Failed(Seq<char>),
}

impl AuditRow {
    /// Whether the row says how a request ended.
    pub open spec fn ends(&self, ending: Ending) -> bool {
        match ending {
            Ending::Served => self.outcome@ == "ok"@ && self.error_class is None,
            Ending::Denied(class) => self.outcome@ == "denied"@ && (self.error_class matches Some(c) && c@ == class),
            Ending::Failed(class) => self.outcome@ == "error"@ && (self.error_class matches Some(c) && c@ == class),
        }
    }

    /// Whether the row is about `action` by `caller` on `tenant` and `user`, and
    /// carries `payload`. `traced` says whether it names the caller's address and agent.
    pub open spec fn records(
        &self,
        caller: AdminCaller,
        traced: bool,
        action: Seq<char>,
        tenant: Option<Uuid>,
        user: Option<Uuid>,
        payload: Json,
    ) -> bool {
        &&& self.actor@ == caller.actor@
        &&& self.action@ == action
        &&& self.tenant_id == tenant
        &&& self.target_user_id == user
        &&& self.request_id == caller.request_id
        &&& self.ip == if traced { caller.ip } else { None }
        &&& self.user_agent == if traced { caller.user_agent } else { None }
        &&& json_of(self.payload_summary) == payload
    }
}

/// The row for `action` by `caller`; `class` names what went wrong, if anything did.
pub(crate) fn audit_row(
    caller: &AdminCaller,
    traced: bool,
    action: &'static str,
    tenant_id: Option<Uuid>,
    target_user_id: Option<Uuid>,
    payload_summary: serde_json::Value,
    outcome: &'static str,
    error_class: Option<&'static str>,
) -> (row: AuditRow)
    ensures
        row.records(*caller, traced, action@, tenant_id, target_user_id, json_of(payload_summary)),
        row.outcome == outcome,
        row.error_class == error_class,
        row.actor@ == caller.actor@,
        row.action@ == action@,
        row.tenant_id == tenant_id,
        row.target_user_id == target_user_id,
        row.request_id == caller.request_id,
        traced ==> row.ip == caller.ip && row.user_agent == caller.user_agent,
        !traced ==> row.ip is None && row.user_agent is None,
        json_of(row.payload_summary) == json_of(payload_summary),
{
    AuditRow {
        actor: caller.actor.clone(),
        action,
        tenant_id,
        target_user_id,
        request_id: caller.request_id,
        ip: if traced { copy_opt(&caller.ip) } else { None },
        user_agent: if traced { copy_opt(&caller.user_agent) } else { None },
        payload_summary,
        outcome,
        error_class,
    }
}

/// What a row says of how a request ended: `ok` without a reason, or `denied` or `error`
/// with the one there was. So a row never tells two different endings.
pub proof fn rows_tell_how_it_ended(row: AuditRow, class: Seq<char>, other: Seq<char>)
    ensures
        row.ends(Ending::Served) ==> row.outcome@ == "ok"@ && row.error_class is None,
        row.ends(Ending::Denied(class)) ==> row.outcome@ == "denied"@ && (row.error_class matches Some(c) && c@ == class),
        row.ends(Ending::Failed(class)) ==> row.outcome@ == "error"@ && (row.error_class matches Some(c) && c@ == class),
        !(row.ends(Ending::Served) && row.ends(Ending::Denied(class))),
        !(row.ends(Ending::Served) && row.ends(Ending::Failed(class))),
        !(row.ends(Ending::Denied(class)) && row.ends(Ending::Failed(other))),
        row.ends(Ending::Denied(class)) && row.ends(Ending::Denied(other)) ==> class == other,
{
    reveal_strlit("denied");
    reveal_strlit("error");
    assert("denied"@.len() == 6 && "error"@.len() == 5);
}

/// What a row records: the operator, the request, the action, the tenant and the user it
/// was about, and the payload; and the address and agent only where it is to name them.
pub proof fn rows_record_the_request(
    row: AuditRow,
    caller: AdminCaller,
    traced: bool,
    action: Seq<char>,
    tenant: Option<Uuid>,
    user: Option<Uuid>,
    payload: Json,
)
    requires
        row.records(caller, traced, action, tenant, user, payload),
    ensures
        row.actor@ == caller.actor@,
        row.request_id == caller.request_id,
        row.action@ == action,
        row.tenant_id == tenant,
        row.target_user_id == user,
        json_of(row.payload_summary) == payload,
        traced ==> row.ip == caller.ip && row.user_agent == caller.user_agent,
        !traced ==> row.ip is None && row.user_agent is None,
{
}

} // verus!
