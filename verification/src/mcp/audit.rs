//! The audit row of a tool call: the tool's name and a SHA-256 hash of the
//! arguments, never the arguments themselves.

use crate::digest::{hex_encode, hex_of, sha256, sha256_of};
use crate::ids::Uuid;
use crate::json::{self, json_of, json_text, Json};
use vstd::prelude::*;
use vstd::string::*;
use vstd::utf8::*;

verus! {

/// The chat that a runtime adapter calls for.
#[derive(Debug, Clone, Copy)]
pub struct ChatAuditCtx<'a> {
    /// The chat session.
    pub chat_session_id: Uuid,
    /// ID of the token that was presented.
    pub jti: &'a str,
}

/// A row of `audit.audit_events`.
#[derive(Debug)]
pub struct ToolAudit {
    pub event_id: Uuid,
    pub tenant_id: Uuid,
    pub actor_kind: &'static str,
    pub actor_user_id: Option<Uuid>,
    pub action: String,
    pub outcome: &'static str,
    pub payload: serde_json::Value,
}

/// The hash of the arguments that is recorded.
pub open spec fn args_hash(args: Json) -> Seq<char> {
    hex_of(sha256_of(encode_utf8(json_text(args))))
}

/// The hash of the arguments that is recorded.
pub fn args_sha256(args: &serde_json::Value) -> (s: String)
    ensures
        s@ == args_hash(json_of(*args)),
        s@ == hex_of(sha256_of(encode_utf8(json_text(json_of(*args))))),
{
    let text = json::text(args);
    hex_encode(sha256(text.as_str().as_bytes()).as_slice())
}

/// Who is recorded as the actor.
pub open spec fn actor_kind_of(chat: bool) -> Seq<char> {
    if chat {
        "chat"@
    } else {
        "agent"@
    }
}

/// Who is recorded as the actor: a chat, or an agent or user.
pub fn actor_kind(chat_ctx: &Option<ChatAuditCtx<'_>>) -> (s: &'static str)
    ensures
        s@ == actor_kind_of(*chat_ctx is Some),
        chat_ctx is Some ==> s@ == "chat"@,
        chat_ctx is None ==> s@ == "agent"@,
{
    match chat_ctx {
        Some(_) => "chat",
        None => "agent",
    }
}

/// The chat session and the token's ID in `chat_ctx`.
pub open spec fn chat_in(chat_ctx: Option<ChatAuditCtx<'_>>) -> Option<(Uuid, Seq<char>)> {
    match chat_ctx {
        Some(ctx) => Some((ctx.chat_session_id, ctx.jti@)),
        None => None,
    }
}

/// What is recorded of a call, for a chat with the session and the token's ID, or for none.
pub open spec fn audit_payload(tool: Seq<char>, args: Json, chat: Option<(Uuid, Seq<char>)>) -> Map<Seq<char>, Json> {
    let call = map!["tool"@ => Json::Str(tool), "args_sha256"@ => Json::Str(args_hash(args))];
    match chat {
        None => call,
        Some((session, jti)) => call.insert("chat_session_id"@, Json::Str(session.text())).insert("jti"@, Json::Str(jti)),
    }
}

impl ToolAudit {
    /// Whether this row records the call.
    pub open spec fn records(
        &self,
        tenant_id: Uuid,
        actor_user_id: Option<Uuid>,
        tool: Seq<char>,
        args: Json,
        outcome: Seq<char>,
        chat: Option<(Uuid, Seq<char>)>,
    ) -> bool {
        &&& self.event_id.is_v4()
        &&& self.tenant_id == tenant_id
        &&& self.actor_kind@ == actor_kind_of(chat is Some)
        &&& self.actor_user_id == actor_user_id
        &&& self.action@ == "mcp.tools.call."@ + tool
        &&& self.outcome@ == outcome
        &&& json_of(self.payload) == Json::Object(audit_payload(tool, args, chat))
    }
}

/// The row that records a call.
pub fn tool_call_audit(
    tenant_id: Uuid,
    actor_user_id: Option<Uuid>,
    tool_name: &str,
    args: &serde_json::Value,
    outcome: &'static str,
    chat_ctx: Option<ChatAuditCtx<'_>>,
) -> (row: ToolAudit)
    ensures
        row.records(tenant_id, actor_user_id, tool_name@, json_of(*args), outcome@, chat_in(chat_ctx)),
        row.tenant_id == tenant_id,
        row.actor_user_id == actor_user_id,
        row.action@ == "mcp.tools.call."@ + tool_name@,
        row.outcome@ == outcome@,
        chat_ctx matches Some(ctx) ==> row.actor_kind@ == "chat"@ && json_of(row.payload) == Json::Object(
            map![
                "tool"@ => Json::Str(tool_name@),
                "args_sha256"@ => Json::Str(hex_of(sha256_of(encode_utf8(json_text(json_of(*args)))))),
                "chat_session_id"@ => Json::Str(ctx.chat_session_id.text()),
                "jti"@ => Json::Str(ctx.jti@),
            ],
        ),
        chat_ctx is None ==> row.actor_kind@ == "agent"@ && json_of(row.payload) == Json::Object(
            map![
                "tool"@ => Json::Str(tool_name@),
                "args_sha256"@ => Json::Str(hex_of(sha256_of(encode_utf8(json_text(json_of(*args)))))),
            ],
        ),
{
    let hash = args_sha256(args);
    let mut payload = json::with(json::object(), "tool", json::string(tool_name));
    payload = json::with(payload, "args_sha256", json::string(hash.as_str()));
    match &chat_ctx {
        Some(ctx) => {
            payload = json::with(payload, "chat_session_id", json::uuid(&ctx.chat_session_id));
            payload = json::with(payload, "jti", json::string(ctx.jti));
        },
        None => {},
    }
    let mut action = "mcp.tools.call.".to_owned();
    action.append(tool_name);
    ToolAudit {
        event_id: Uuid::new_v4(),
        tenant_id,
        actor_kind: actor_kind(&chat_ctx),
        actor_user_id,
        action,
        outcome,
        payload,
    }
}

} // verus!
