//! `POST /api/admin/v1/bootstrap/admin`: create the first platform admin. It is
//! refused as soon as any user exists.

use crate::admin::v1::{audit_row, AdminCaller, AuditRow, Ending};
use crate::error::AppError;
use crate::ids::Uuid;
use crate::json::{self, json_of, Json};
use crate::text::trimmed;
use vstd::prelude::*;
use vstd::string::*;
use vstd::utf8::*;

verus! {

/// The shortest password that is accepted, in bytes.
pub const MIN_PASSWORD_LEN: usize = 12;

#[derive(Debug)]
pub struct BootstrapAdminReq {
    pub email: String,
    pub password: String,
}

#[derive(Debug)]
pub struct BootstrapAdminResp {
    pub user_id: Uuid,
    pub email: String,
}

impl BootstrapAdminResp {
    /// The response in JSON.
    pub fn to_json(&self) -> (v: serde_json::Value)
        ensures
            json_of(v) == Json::Object(
                map!["user_id"@ => Json::Str(self.user_id.text()), "email"@ => Json::Str(self.email@)],
            ),
    {
        let v = json::with(json::object(), "user_id", json::uuid(&self.user_id));
        json::with(v, "email", json::string(self.email.as_str()))
    }
}

/// What went wrong outside.
#[derive(Debug, Clone, Copy, PartialEq, Eq)]
pub enum BootstrapFailure {
    /// A database statement failed.
    Database,
    /// The password could not be hashed.
    Hash,
}

/// What is known so far.
#[derive(Debug, Clone, Copy)]
pub struct BootstrapFacts {
    /// The number of users.
    pub user_count: Option<i64>,
    /// The user that was created.
    pub created: Option<Uuid>,
    pub failed: Option<BootstrapFailure>,
}

/// What to do next.
pub enum BootstrapAction {
    /// Count the users.
    CountUsers,
    /// Hash the password and create a verified, active platform admin.
    CreateAdmin { user_id: Uuid, email: String, password: String },
    /// Write the audit row, then answer.
    Answer { audit: AuditRow, reply: Result<BootstrapAdminResp, AppError> },
}

impl BootstrapAction {
    /// Whether this answers with an audit row on `user` that carries `payload` and says `ending`.
    pub open spec fn audited(
        &self,
        caller: AdminCaller,
        user: Option<Uuid>,
        payload: Map<Seq<char>, Json>,
        ending: Ending,
    ) -> bool {
        &&& self matches BootstrapAction::Answer { audit, .. }
        &&& audit.records(caller, false, "bootstrap.admin"@, None, user, Json::Object(payload))
        &&& audit.ends(ending)
    }

    /// Whether this answers with `error`.
    pub open spec fn errs(&self, error: AppError) -> bool {
        self matches BootstrapAction::Answer { reply, .. } && reply == Err::<BootstrapAdminResp, AppError>(error)
    }
}

/// The payload that names the e-mail address alone.
pub open spec fn brief(email: Seq<char>) -> Map<Seq<char>, Json> {
    map!["email"@ => Json::Str(email)]
}

/// The next step of creating the first admin.
///
/// The e-mail address must not be blank and the password must have 12 bytes or
/// more; nothing is looked up before that. One user is enough for a refusal.
pub fn bootstrap_admin(caller: &AdminCaller, body: &BootstrapAdminReq, facts: &BootstrapFacts) -> (action:
    BootstrapAction)
    ensures
        ({
            let email = trimmed(body.email@);
            if email.len() == 0 {
                action.audited(*caller, None, brief(email), Ending::Denied("invalid_email"@)) && action.errs(
                    AppError::InvalidEmail,
                )
            } else if encode_utf8(body.password@).len() < MIN_PASSWORD_LEN {
                action.audited(*caller, None, brief(email), Ending::Denied("weak_password"@)) && action.errs(
                    AppError::WeakPassword,
                )
            } else {
                match (facts.failed, facts.user_count) {
                    (Some(BootstrapFailure::Database), _) => action.audited(
                        *caller,
                        None,
                        brief(email),
                        Ending::Failed("database_error"@),
                    ) && action.errs(AppError::Database),
                    (Some(BootstrapFailure::Hash), _) => action.audited(
                        *caller,
                        None,
                        brief(email),
                        Ending::Failed("password_hash_failed"@),
                    ) && action.errs(AppError::Internal),
                    (None, None) => action is CountUsers,
                    (None, Some(n)) => if n > 0 {
                        action.audited(
                            *caller,
                            None,
                            brief(email).insert("existing_users"@, Json::Int(n as int)),
                            Ending::Denied("users_already_exist"@),
                        ) && action.errs(AppError::AdminBootstrapConflict)
                    } else {
                        match facts.created {
                            None => action matches BootstrapAction::CreateAdmin { user_id, email: e, password }
                                && password@ == body.password@
                                && user_id.is_v4() && e@ == email,
                            Some(id) => {
                                &&& action.audited(*caller, Some(id), brief(email), Ending::Served)
                                &&& action matches BootstrapAction::Answer { reply: Ok(resp), .. }
                                &&& resp.user_id == id
                                &&& resp.email@ == email
                            },
                        }
                    },
                }
            }
        }),
        action matches BootstrapAction::Answer { audit, reply } ==> {
            &&& audit.actor@ == caller.actor@
            &&& audit.action@ == "bootstrap.admin"@
            &&& audit.tenant_id is None
            &&& json_of(audit.payload_summary) matches Json::Object(m) && m.contains_key("email"@) && m["email"@]
                == Json::Str(trimmed(body.email@))
            &&& reply is Ok ==> audit.outcome@ == "ok"@ && (reply matches Ok(resp) && audit.target_user_id == Some(
                resp.user_id,
            ) && facts.created == Some(resp.user_id) && resp.email@ == trimmed(body.email@))
            &&& reply is Err ==> audit.outcome@ != "ok"@ && audit.target_user_id is None
        },
        trimmed(body.email@).len() == 0 ==> (action matches BootstrapAction::Answer { reply, .. } && reply == Err::<
            BootstrapAdminResp,
            AppError,
        >(AppError::InvalidEmail)),
        encode_utf8(body.password@).len() < 12 ==> (action matches BootstrapAction::Answer { reply, .. } && reply is Err),
        action is CreateAdmin || action is CountUsers ==> trimmed(body.email@).len() > 0 && encode_utf8(
            body.password@,
        ).len() >= 12,
        action is CreateAdmin ==> (facts.user_count matches Some(n) && n <= 0),
{
    proof {
        reveal_strlit("email");
        reveal_strlit("existing_users");
        reveal_strlit("ok");
        reveal_strlit("denied");
        reveal_strlit("error");
        assert("email"@.len() == 5 && "existing_users"@.len() == 14);
        assert("ok"@.len() == 2 && "denied"@.len() == 6 && "error"@.len() == 5);
    }
    let email = body.email.as_str().trim();
    let payload = json::with(json::object(), "email", json::string(email));
    let what = "bootstrap.admin";
    if email.is_empty() {
        return BootstrapAction::Answer {
            audit: audit_row(caller, false, what, None, None, payload, "denied", Some("invalid_email")),
            reply: Err(AppError::InvalidEmail),
        };
    }
    if body.password.as_str().as_bytes().len() < MIN_PASSWORD_LEN {
        return BootstrapAction::Answer {
            audit: audit_row(caller, false, what, None, None, payload, "denied", Some("weak_password")),
            reply: Err(AppError::WeakPassword),
        };
    }
    match facts.failed {
        Some(BootstrapFailure::Database) => return BootstrapAction::Answer {
            audit: audit_row(caller, false, what, None, None, payload, "error", Some("database_error")),
            reply: Err(AppError::Database),
        },
        Some(BootstrapFailure::Hash) => return BootstrapAction::Answer {
            audit: audit_row(caller, false, what, None, None, payload, "error", Some("password_hash_failed")),
            reply: Err(AppError::Internal),
        },
        None => {},
    }
    match facts.user_count {
        None => return BootstrapAction::CountUsers,
        Some(n) => {
            if n > 0 {
                let payload = json::with(payload, "existing_users", json::number(n));
                return BootstrapAction::Answer {
                    audit: audit_row(caller, false, what, None, None, payload, "denied", Some("users_already_exist")),
                    reply: Err(AppError::AdminBootstrapConflict),
                };
            }
        },
    }
    match facts.created {
        None => BootstrapAction::CreateAdmin {
            user_id: Uuid::new_v4(),
            email: email.to_owned(),
            password: body.password.clone(),
        },
        Some(id) => BootstrapAction::Answer {
            audit: audit_row(caller, false, what, None, Some(id), payload, "ok", None),
            reply: Ok(BootstrapAdminResp { user_id: id, email: email.to_owned() }),
        },
    }
}

} // verus!
