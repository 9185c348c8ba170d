//! Who makes a request, and the checks that several endpoints share.

use crate::error::AppError;
use crate::ids::Uuid;
use vstd::prelude::*;

verus! {

/// What an API key may be used for.
#[derive(Debug, Clone, Copy, PartialEq, Eq, Structural)]
pub enum Scope {
    Read,
    Write,
    Agent,
    Admin,
}

/// A browser session.
#[derive(Debug, Clone, Copy, PartialEq, Eq)]
pub struct SessionInfo {
    pub session_id: Uuid,
    pub user_id: Uuid,
    pub tenant_id: Uuid,
    pub email_verified: bool,
}

/// An API key.
#[derive(Debug)]
pub struct ApiKeyInfo {
    pub key_id: Uuid,
    pub tenant_id: Uuid,
    pub user_id: Uuid,
    pub scopes: Vec<Scope>,
}

/// A short-lived token that a runtime adapter calls the tool server with.
#[derive(Debug)]
pub struct McpJwtInfo {
    pub tenant_id: Uuid,
    pub user_id: Uuid,
    pub chat_session_id: Uuid,
    pub scope: Vec<String>,
    pub jti: String,
}

/// Who makes the request.
#[derive(Debug)]
pub enum AuthContext {
    Session(SessionInfo),
    ApiKey(ApiKeyInfo),
    McpJwt(McpJwtInfo),
    ExpiredSession,
    Anonymous,
}

/// A caller that was let in: the tenant and the user the request is made for.
#[derive(Debug, Clone, Copy, PartialEq, Eq)]
pub struct Caller {
    pub tenant_id: Uuid,
    pub user_id: Uuid,
}

impl ApiKeyInfo {
    /// Whether the key carries `scope`.
    pub open spec fn carries(&self, scope: Scope) -> bool {
        self.scopes@.contains(scope)
    }

    /// Whether the key carries `scope`.
    pub fn has(&self, scope: Scope) -> (r: bool)
        ensures
            r == self.carries(scope),
            r == exists|i: int| 0 <= i < self.scopes@.len() && #[trigger] self.scopes@[i] == scope,
    {
        let mut i: usize = 0;
        while i < self.scopes.len()
            invariant
                i <= self.scopes.len(),
                forall|j: int| 0 <= j < i ==> self.scopes@[j] != scope,
            decreases self.scopes.len() - i,
        {
            if self.scopes[i] == scope {
                return true;
            }
            i += 1;
        }
        false
    }
}

/// What a session that must be verified comes to.
pub open spec fn verified_session(auth: AuthContext) -> Result<SessionInfo, AppError> {
    match auth {
        AuthContext::Session(info) if info.email_verified => Ok(info),
        AuthContext::Session(_) => Err(AppError::EmailNotVerified),
        AuthContext::ExpiredSession => Err(AppError::SessionExpired),
        _ => Err(AppError::Unauthorized),
    }
}

/// Lets in a session whose e-mail address is verified.
pub fn require_verified_session(auth: &AuthContext) -> (r: Result<SessionInfo, AppError>)
    ensures
        r == verified_session(*auth),
        match *auth {
            AuthContext::Session(info) => r == if info.email_verified {
                Ok::<SessionInfo, AppError>(info)
            } else {
                Err(AppError::EmailNotVerified)
            },
            AuthContext::ExpiredSession => r == Err::<SessionInfo, AppError>(AppError::SessionExpired),
            AuthContext::ApiKey(_) | AuthContext::McpJwt(_) | AuthContext::Anonymous => r == Err::<
                SessionInfo,
                AppError,
            >(AppError::Unauthorized),
        },
{
    match auth {
        AuthContext::Session(info) => if info.email_verified {
            Ok(*info)
        } else {
            Err(AppError::EmailNotVerified)
        },
        AuthContext::ExpiredSession => Err(AppError::SessionExpired),
        _ => Err(AppError::Unauthorized),
    }
}

/// What any session comes to, verified or not.
pub open spec fn any_session(auth: AuthContext) -> Result<SessionInfo, AppError> {
    match auth {
        AuthContext::Session(info) => Ok(info),
        AuthContext::ExpiredSession => Err(AppError::SessionExpired),
        _ => Err(AppError::Unauthorized),
    }
}

/// Lets in a session, whether its e-mail address is verified or not.
pub fn require_session(auth: &AuthContext) -> (r: Result<SessionInfo, AppError>)
    ensures
        r == any_session(*auth),
        match *auth {
            AuthContext::Session(info) => r == Ok::<SessionInfo, AppError>(info),
            AuthContext::ExpiredSession => r == Err::<SessionInfo, AppError>(AppError::SessionExpired),
            AuthContext::ApiKey(_) | AuthContext::McpJwt(_) | AuthContext::Anonymous => r == Err::<
                SessionInfo,
                AppError,
            >(AppError::Unauthorized),
        },
{
    match auth {
        AuthContext::Session(info) => Ok(*info),
        AuthContext::ExpiredSession => Err(AppError::SessionExpired),
        _ => Err(AppError::Unauthorized),
    }
}

/// The tenant that a verified session or an API key with the `read` scope may read.
pub open spec fn reader_tenant(auth: AuthContext) -> Result<Uuid, AppError> {
    match auth {
        AuthContext::ApiKey(key) => if key.carries(Scope::Read) {
            Ok(key.tenant_id)
        } else {
            Err(AppError::InsufficientScope)
        },
        _ => match verified_session(auth) {
            Ok(info) => Ok(info.tenant_id),
            Err(e) => Err(e),
        },
    }
}

/// Lets in a verified session or an API key with the `read` scope.
pub fn require_read(auth: &AuthContext) -> (r: Result<Uuid, AppError>)
    ensures
        r == reader_tenant(*auth),
        match *auth {
            AuthContext::Session(info) => r == if info.email_verified {
                Ok::<Uuid, AppError>(info.tenant_id)
            } else {
                Err(AppError::EmailNotVerified)
            },
            AuthContext::ApiKey(key) => r == if key.scopes@.contains(Scope::Read) {
                Ok::<Uuid, AppError>(key.tenant_id)
            } else {
                Err(AppError::InsufficientScope)
            },
            AuthContext::ExpiredSession => r == Err::<Uuid, AppError>(AppError::SessionExpired),
            AuthContext::McpJwt(_) | AuthContext::Anonymous => r == Err::<Uuid, AppError>(AppError::Unauthorized),
        },
{
    match auth {
        AuthContext::ApiKey(key) => if key.has(Scope::Read) {
            Ok(key.tenant_id)
        } else {
            Err(AppError::InsufficientScope)
        },
        _ => match require_verified_session(auth) {
            Ok(info) => Ok(info.tenant_id),
            Err(e) => Err(e),
        },
    }
}

/// What a session or an API key with one of the scopes `any` comes to.
pub open spec fn session_or_key(auth: AuthContext, any: Set<Scope>) -> Result<Caller, AppError> {
    match auth {
        AuthContext::ApiKey(key) => if exists|s: Scope| any.contains(s) && #[trigger] key.carries(s) {
            Ok(Caller { tenant_id: key.tenant_id, user_id: key.user_id })
        } else {
            Err(AppError::InsufficientScope)
        },
        _ => match verified_session(auth) {
            Ok(info) => Ok(Caller { tenant_id: info.tenant_id, user_id: info.user_id }),
            Err(e) => Err(e),
        },
    }
}

/// Lets in a verified session or an API key with the `agent` scope.
pub fn require_session_or_agent_key(auth: &AuthContext) -> (r: Result<Caller, AppError>)
    ensures
        r == session_or_key(*auth, set![Scope::Agent]),
        match *auth {
            AuthContext::Session(info) => r == if info.email_verified {
                Ok::<Caller, AppError>(Caller { tenant_id: info.tenant_id, user_id: info.user_id })
            } else {
                Err(AppError::EmailNotVerified)
            },
            AuthContext::ApiKey(key) => r == if key.scopes@.contains(Scope::Agent) {
                Ok::<Caller, AppError>(Caller { tenant_id: key.tenant_id, user_id: key.user_id })
            } else {
                Err(AppError::InsufficientScope)
            },
            AuthContext::ExpiredSession => r == Err::<Caller, AppError>(AppError::SessionExpired),
            AuthContext::McpJwt(_) | AuthContext::Anonymous => r == Err::<Caller, AppError>(AppError::Unauthorized),
        },
{
    match auth {
        AuthContext::ApiKey(key) => {
            if key.has(Scope::Agent) {
                assert(set![Scope::Agent].contains(Scope::Agent) && key.carries(Scope::Agent));
                Ok(Caller { tenant_id: key.tenant_id, user_id: key.user_id })
            } else {
                Err(AppError::InsufficientScope)
            }
        },
        _ => match require_verified_session(auth) {
            Ok(info) => Ok(Caller { tenant_id: info.tenant_id, user_id: info.user_id }),
            Err(e) => Err(e),
        },
    }
}

} // verus!
