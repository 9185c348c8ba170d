//! `DELETE /v1/auth/oauth/{provider}`: remove the stored tokens.

use crate::caller::{require_verified_session, verified_session, AuthContext};
use crate::error::AppError;
use crate::ids::Uuid;
use vstd::prelude::*;

verus! {

/// What to do next.
#[derive(Debug)]
pub enum OauthDeleteAction {
    /// Delete the user's tokens.
    Delete { tenant_id: Uuid, user_id: Uuid },
    /// Answer that they are gone.
    Gone,
    /// Refuse.
    Refuse(AppError),
}

/// The next step of a removal, given how many rows were deleted once that was done;
/// `Some(None)` where it failed.
pub fn claude_oauth_delete(auth: &AuthContext, deleted: Option<Option<u64>>) -> (action: OauthDeleteAction)
    ensures
        match (verified_session(*auth), deleted) {
            (Err(e), _) => action == OauthDeleteAction::Refuse(e),
            (Ok(session), None) => action == (OauthDeleteAction::Delete {
                tenant_id: session.tenant_id,
                user_id: session.user_id,
            }),
            (Ok(_), Some(None)) => action == OauthDeleteAction::Refuse(AppError::Internal),
            (Ok(_), Some(Some(rows))) => action == if rows == 0 {
                OauthDeleteAction::Refuse(AppError::NotFound)
            } else {
                OauthDeleteAction::Gone
            },
        },
{
    let session = match require_verified_session(auth) {
        Err(e) => return OauthDeleteAction::Refuse(e),
        Ok(s) => s,
    };
    match deleted {
        None => OauthDeleteAction::Delete { tenant_id: session.tenant_id, user_id: session.user_id },
        Some(None) => OauthDeleteAction::Refuse(AppError::Internal),
        Some(Some(rows)) => if rows == 0 {
            OauthDeleteAction::Refuse(AppError::NotFound)
        } else {
            OauthDeleteAction::Gone
        },
    }
}

} // verus!
