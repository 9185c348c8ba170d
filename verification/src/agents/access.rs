//! Who may look at the events of a session.

use crate::caller::{require_verified_session, verified_session, AuthContext, Scope};
use crate::error::AppError;
use crate::ids::Uuid;
use crate::text::same;
use vstd::prelude::*;

verus! {

/// Whose a session is.
#[derive(Debug, Clone, Copy, PartialEq, Eq)]
pub struct Ownership {
    pub tenant_id: Uuid,
    pub user_id: Uuid,
}

/// The tenant that a verified session or an API key acts for.
pub open spec fn tenant_of(auth: AuthContext) -> Result<Uuid, AppError> {
    match auth {
        AuthContext::ApiKey(key) => Ok(key.tenant_id),
        _ => match verified_session(auth) {
            Ok(info) => Ok(info.tenant_id),
            Err(e) => Err(e),
        },
    }
}

/// The tenant that a verified session or an API key acts for.
pub fn caller_tenant(auth: &AuthContext) -> (r: Result<Uuid, AppError>)
    ensures
        r == tenant_of(*auth),
        match *auth {
            AuthContext::Session(info) => r == if info.email_verified {
                Ok::<Uuid, AppError>(info.tenant_id)
            } else {
                Err(AppError::EmailNotVerified)
            },
            AuthContext::ApiKey(key) => r == Ok::<Uuid, AppError>(key.tenant_id),
            AuthContext::ExpiredSession => r == Err::<Uuid, AppError>(AppError::SessionExpired),
            AuthContext::McpJwt(_) | AuthContext::Anonymous => r == Err::<Uuid, AppError>(AppError::Unauthorized),
        },
{
    match auth {
        AuthContext::ApiKey(key) => Ok(key.tenant_id),
        _ => match require_verified_session(auth) {
            Ok(info) => Ok(info.tenant_id),
            Err(e) => Err(e),
        },
    }
}

/// Whether the caller holds an API key with the `admin` scope.
pub open spec fn admin_key(auth: AuthContext) -> bool {
    auth matches AuthContext::ApiKey(key) && key.carries(Scope::Admin)
}

/// Whether the caller holds an API key with the `admin` scope.
pub fn is_admin(auth: &AuthContext) -> (r: bool)
    ensures
        r == admin_key(*auth),
        match *auth {
            AuthContext::ApiKey(key) => r == key.scopes@.contains(Scope::Admin),
            _ => !r,
        },
{
    match auth {
        AuthContext::ApiKey(key) => key.has(Scope::Admin),
        _ => false,
    }
}

/// Whether the caller is `user`.
pub open spec fn acts_as(auth: AuthContext, user: Uuid) -> bool {
    match auth {
        AuthContext::Session(info) => info.user_id == user,
        AuthContext::ApiKey(key) => key.user_id == user,
        _ => false,
    }
}

/// Whether the caller is `user`.
pub fn is_owner(auth: &AuthContext, user: Uuid) -> (r: bool)
    ensures
        r == acts_as(*auth, user),
        match *auth {
            AuthContext::Session(info) => r == (info.user_id == user),
            AuthContext::ApiKey(key) => r == (key.user_id == user),
            _ => !r,
        },
{
    match auth {
        AuthContext::Session(info) => info.user_id == user,
        AuthContext::ApiKey(key) => key.user_id == user,
        _ => false,
    }
}

/// Why the caller may not see the session, if they may not: it must be there, be
/// one of their tenant, and be their own unless they hold an admin key.
pub open spec fn barred(auth: AuthContext, tenant: Uuid, row: Option<Ownership>) -> Option<AppError> {
    match row {
        None => Some(AppError::NotFound),
        Some(r) => if r.tenant_id != tenant {
            Some(AppError::InsufficientRole)
        } else if !acts_as(auth, r.user_id) && !admin_key(auth) {
            Some(AppError::InsufficientRole)
        } else {
            None
        },
    }
}

/// Why the caller may not see the session, if they may not.
pub fn refusal(auth: &AuthContext, tenant: Uuid, row: Option<Ownership>) -> (r: Option<AppError>)
    ensures
        r == barred(*auth, tenant, row),
{
    match row {
        None => Some(AppError::NotFound),
        Some(r) => if r.tenant_id != tenant {
            Some(AppError::InsufficientRole)
        } else if !is_owner(auth, r.user_id) && !is_admin(auth) {
            Some(AppError::InsufficientRole)
        } else {
            None
        },
    }
}

/// Whether the query parameter `raw` asks for payloads as they are.
pub open spec fn raw_flag(raw: Option<String>) -> bool {
    raw matches Some(s) && s@ == "1"@
}

/// Whether the query parameter `raw` asks for payloads as they are.
pub fn is_raw_flag(raw: &Option<String>) -> (r: bool)
    ensures
        r == raw_flag(*raw),
        r <==> (raw matches Some(s) && s@ == "1"@),
{
    match raw {
        Some(s) => same(s.as_str(), "1"),
        None => false,
    }
}

/// Nobody outside a session's tenant sees it, and inside it only its owner and
/// holders of an admin key do.
pub proof fn sessions_are_isolated(auth: AuthContext, row: Ownership)
    requires
        tenant_of(auth) is Ok,
        barred(auth, tenant_of(auth)->Ok_0, Some(row)) is None,
    ensures
        match auth {
            AuthContext::Session(info) => info.email_verified && info.tenant_id == row.tenant_id && info.user_id
                == row.user_id,
            AuthContext::ApiKey(key) => key.tenant_id == row.tenant_id && (key.user_id == row.user_id || key.carries(
                Scope::Admin,
            )),
            _ => false,
        },
{
}

/// Who sees a session: its owner and the holders of an admin key, as long as they are
/// of its tenant. Everybody else in the tenant, and everybody outside it, is refused
/// for their role; a session that is not there is not found.
pub proof fn owners_and_admins_see_sessions(auth: AuthContext, tenant: Uuid, row: Ownership)
    ensures
        barred(auth, tenant, None) == Some(AppError::NotFound),
        row.tenant_id != tenant ==> barred(auth, tenant, Some(row)) == Some(AppError::InsufficientRole),
        row.tenant_id == tenant ==> match auth {
            AuthContext::Session(info) => barred(auth, tenant, Some(row)) == if info.user_id == row.user_id {
                None::<AppError>
            } else {
                Some(AppError::InsufficientRole)
            },
            AuthContext::ApiKey(key) => barred(auth, tenant, Some(row)) == if key.user_id == row.user_id
                || key.scopes@.contains(Scope::Admin) {
                None::<AppError>
            } else {
                Some(AppError::InsufficientRole)
            },
            _ => barred(auth, tenant, Some(row)) == Some(AppError::InsufficientRole),
        },
{
}

} // verus!
