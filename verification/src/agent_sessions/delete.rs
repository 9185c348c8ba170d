//! Asks the runner to end a session.

use crate::agents::sessions::Published;
use crate::caller::{any_session, require_session, AuthContext};
use crate::clock::{now_milliseconds, LAST_MILLISECOND};
use crate::error::AppError;
use crate::ids::Uuid;
use vstd::prelude::*;

verus! {

/// The command that ends a session, and how it is published.
#[derive(Debug)]
pub struct TerminateCommand {
    pub topic: &'static str,
    pub key: String,
    pub tenant_id: Uuid,
    pub event_id: Uuid,
    pub session_id: Uuid,
    pub created_at_ms: i64,
    pub force: bool,
}

impl TerminateCommand {
    /// Whether this command asks for the end of the session, made at `now_ms` with
    /// this ID for the event.
    pub open spec fn ends_at(&self, tenant_id: Uuid, session_id: Uuid, event_id: Uuid, now_ms: i64) -> bool {
        &&& self.topic@ == "rb.agent.commands"@
        &&& self.key@ == session_id.text()
        &&& self.tenant_id == tenant_id
        &&& self.event_id == event_id
        &&& self.session_id == session_id
        &&& self.created_at_ms == now_ms
        &&& !self.force
    }

    /// Whether this command asks for the end of the session, made with a random ID at
    /// some time the clock can show.
    pub open spec fn ends(&self, tenant_id: Uuid, session_id: Uuid) -> bool {
        exists|event_id: Uuid, now_ms: i64|
            event_id.is_v4() && 0 <= now_ms && now_ms <= LAST_MILLISECOND && #[trigger] self.ends_at(
                tenant_id,
                session_id,
                event_id,
                now_ms,
            )
    }
}

/// The command that ends a session, made at `now_ms` with this ID for the event.
pub fn terminate_command(tenant_id: Uuid, session_id: Uuid, event_id: Uuid, now_ms: i64) -> (c: TerminateCommand)
    ensures
        c.ends_at(tenant_id, session_id, event_id, now_ms),
        c.topic@ == "rb.agent.commands"@,
        c.key@ == session_id.text(),
        c.tenant_id == tenant_id,
        c.event_id == event_id,
        c.session_id == session_id,
        c.created_at_ms == now_ms,
        !c.force,
{
    TerminateCommand {
        topic: "rb.agent.commands",
        key: session_id.to_text(),
        tenant_id,
        event_id,
        session_id,
        created_at_ms: now_ms,
        force: false,
    }
}

/// What was learnt last.
#[derive(Debug)]
pub enum DeleteProgress {
    /// Nothing yet.
    Begin,
    /// Whether the tenant has such a session.
    Found(bool),
    /// How publishing went.
    Published(Published),
}

/// What to do next.
#[derive(Debug)]
pub enum DeleteAction {
    /// Look the session up, among those of the tenant.
    Find { id: Uuid, tenant_id: Uuid },
    /// Publish the command.
    Publish(TerminateCommand),
    /// Answer 202.
    Accept,
    /// Refuse.
    Refuse(AppError),
}

/// The next step of ending a session.
pub fn delete_session(auth: &AuthContext, session_id: Uuid, progress: DeleteProgress) -> (action: DeleteAction)
    ensures
        match any_session(*auth) {
            Err(e) => action == DeleteAction::Refuse(e),
            Ok(session) => match progress {
                DeleteProgress::Begin => action == (DeleteAction::Find { id: session_id, tenant_id: session.tenant_id }),
                DeleteProgress::Found(false) => action == DeleteAction::Refuse(AppError::NotFound),
                DeleteProgress::Found(true) => action matches DeleteAction::Publish(command) && command.ends(
                    session.tenant_id,
                    session_id,
                ),
                DeleteProgress::Published(Published::NoProducer) => action == DeleteAction::Refuse(
                    AppError::KafkaNotConfigured,
                ),
                DeleteProgress::Published(Published::Failed) => action == DeleteAction::Refuse(AppError::KafkaPublish),
                DeleteProgress::Published(Published::Done) => action is Accept,
            },
        },
        action matches DeleteAction::Publish(command) ==> command.topic@ == "rb.agent.commands"@ && command.key@
            == session_id.text() && command.session_id == session_id && !command.force,
{
    let session = match require_session(auth) {
        Err(e) => return DeleteAction::Refuse(e),
        Ok(s) => s,
    };
    match progress {
        DeleteProgress::Begin => DeleteAction::Find { id: session_id, tenant_id: session.tenant_id },
        DeleteProgress::Found(false) => DeleteAction::Refuse(AppError::NotFound),
        DeleteProgress::Found(true) => {
            let event_id = Uuid::new_v4();
            let now_ms: i64 = now_milliseconds();
            let command = terminate_command(session.tenant_id, session_id, event_id, now_ms);
            assert(command.ends_at(session.tenant_id, session_id, event_id, now_ms));
            DeleteAction::Publish(command)
        },
        DeleteProgress::Published(Published::NoProducer) => DeleteAction::Refuse(AppError::KafkaNotConfigured),
        DeleteProgress::Published(Published::Failed) => DeleteAction::Refuse(AppError::KafkaPublish),
        DeleteProgress::Published(Published::Done) => DeleteAction::Accept,
    }
}

} // verus!
