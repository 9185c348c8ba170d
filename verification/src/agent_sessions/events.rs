//! Streams the tenant's events to someone who may see the session.

use crate::caller::{any_session, require_session, AuthContext};
use crate::error::AppError;
use crate::ids::Uuid;
use vstd::prelude::*;

verus! {

/// What to do next.
#[derive(Debug)]
pub enum EventsAction {
    /// Look the session up, among those of the tenant.
    Find { id: Uuid, tenant_id: Uuid },
    /// Subscribe to the tenant's events, after the given one if there is one.
    Subscribe { tenant_id: Uuid, last_event_id: Option<String> },
    /// Refuse.
    Refuse(AppError),
}

/// The next step of streaming, given whether the tenant has such a session once
/// that is known. An empty `Last-Event-ID` counts as none.
pub fn session_events(auth: &AuthContext, session_id: Uuid, last_event_id: Option<String>, found: Option<bool>) -> (action:
    EventsAction)
    ensures
        match any_session(*auth) {
            Err(e) => action == EventsAction::Refuse(e),
            Ok(session) => match found {
                None => action == (EventsAction::Find { id: session_id, tenant_id: session.tenant_id }),
                Some(false) => action == EventsAction::Refuse(AppError::NotFound),
                Some(true) => action == (EventsAction::Subscribe {
                    tenant_id: session.tenant_id,
                    last_event_id: match last_event_id {
                        Some(id) => if id@.len() == 0 { None } else { Some(id) },
                        None => None,
                    },
                }),
            },
        },
{
    let session = match require_session(auth) {
        Err(e) => return EventsAction::Refuse(e),
        Ok(s) => s,
    };
    match found {
        None => EventsAction::Find { id: session_id, tenant_id: session.tenant_id },
        Some(false) => EventsAction::Refuse(AppError::NotFound),
        Some(true) => {
            let resume = match last_event_id {
                Some(id) => if id.as_str().unicode_len() == 0 { None } else { Some(id) },
                None => None,
            };
            EventsAction::Subscribe { tenant_id: session.tenant_id, last_event_id: resume }
        },
    }
}

} // verus!
