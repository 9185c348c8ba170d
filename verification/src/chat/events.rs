//! `GET /v1/chat/sessions/{id}/events`: the live stream of a chat session.

use crate::caller::AuthContext;
use crate::chat::sessions::{chat_entry, enter_chat};
use crate::error::AppError;
use crate::ids::Uuid;
use vstd::prelude::*;

verus! {

/// What to do next.
#[derive(Debug)]
pub enum ChatEventsAction {
    /// Look the session up, among those of the tenant.
    FindSession { id: Uuid, tenant_id: Uuid },
    /// Follow the session's live feed, from after this event if one is named.
    Follow { session_id: Uuid, tenant_id: Uuid, last_event_id: Option<String> },
    /// Refuse.
    Refuse(AppError),
}

/// The next step of opening a stream, given whether the tenant has such a session
/// once it was looked for.
pub fn chat_session_events(
    enabled: bool,
    auth: &AuthContext,
    session_id: Uuid,
    last_event_id: Option<String>,
    found: Option<bool>,
) -> (action: ChatEventsAction)
    ensures
        match chat_entry(enabled, *auth) {
            Err(e) => action == ChatEventsAction::Refuse(e),
            Ok(caller) => match found {
                None => action == (ChatEventsAction::FindSession { id: session_id, tenant_id: caller.tenant_id }),
                Some(false) => action == ChatEventsAction::Refuse(AppError::ChatSessionNotFound),
                Some(true) => action == (ChatEventsAction::Follow {
                    session_id,
                    tenant_id: caller.tenant_id,
                    last_event_id,
                }),
            },
        },
{
    let caller = match enter_chat(enabled, auth) {
        Err(e) => return ChatEventsAction::Refuse(e),
        Ok(c) => c,
    };
    match found {
        None => ChatEventsAction::FindSession { id: session_id, tenant_id: caller.tenant_id },
        Some(false) => ChatEventsAction::Refuse(AppError::ChatSessionNotFound),
        Some(true) => ChatEventsAction::Follow { session_id, tenant_id: caller.tenant_id, last_event_id },
    }
}

} // verus!
