//! `POST /internal/agent/sessions/{id}/events`: the agent runner delivers events.
//!
//! Events of an agent session are kept and published. Events of a chat session are
//! published, and what the assistant said in one turn is kept as one message: a
//! JSON array of content blocks.

use crate::agents::events::{event_data, event_json};
use crate::error::AppError;
use crate::ids::Uuid;
use crate::json::{self, json_of, json_read, json_text, Json};
use vstd::prelude::*;
use vstd::string::*;

verus! {

/// What a runtime reports.
#[derive(Debug)]
pub enum RuntimeEvent {
    Text { text: String },
    Thinking { thinking: String },
    ToolUse { id: String, name: String, input: serde_json::Value },
    ToolResult { tool_use_id: String, content: serde_json::Value, is_error: bool },
    Error { message: String, code: Option<String> },
    UserInput { text: String },
    TurnComplete { stop_reason: String },
}

/// An event, and its payload as JSON text if it could be written.
#[derive(Debug)]
pub struct IngestItem {
    pub event: RuntimeEvent,
    pub payload: Option<String>,
}

#[derive(Debug)]
pub struct IngestEventsRequest {
    /// The tenant that the session must belong to.
    pub tenant_id: Uuid,
    /// The events, in order.
    pub events: Vec<IngestItem>,
    /// The turn of each event; shorter than `events` where turns are not known.
    pub turn_ids: Vec<Option<Uuid>>,
}

impl IngestEventsRequest {
    /// The turn of the event at `i`, if it is known.
    pub fn turn_id(&self, i: usize) -> (r: Option<Uuid>)
        ensures
            r == if i < self.turn_ids@.len() {
                self.turn_ids@[i as int]
            } else {
                None
            },
    {
        if i < self.turn_ids.len() {
            self.turn_ids[i]
        } else {
            None
        }
    }
}

#[derive(Debug, Clone, Copy, PartialEq, Eq)]
pub struct IngestEventsResponse {
    pub inserted: usize,
}

impl IngestEventsResponse {
    /// The response in JSON.
    pub fn to_json(&self) -> (v: serde_json::Value)
        ensures
            json_of(v) == Json::Object(map!["inserted"@ => Json::Int(self.inserted as int)]),
    {
        json::with(json::object(), "inserted", json::count(self.inserted as u64))
    }
}

/// The type that an event is kept under.
pub open spec fn type_of(ev: RuntimeEvent) -> Seq<char> {
    match ev {
        RuntimeEvent::Text { .. } => "session.message"@,
        RuntimeEvent::Thinking { .. } => "session.thinking"@,
        RuntimeEvent::ToolUse { .. } => "session.tool_call"@,
        RuntimeEvent::ToolResult { .. } => "session.tool_result"@,
        RuntimeEvent::Error { .. } => "session.error"@,
        RuntimeEvent::UserInput { .. } => "session.user_input"@,
        RuntimeEvent::TurnComplete { .. } => "session.turn_complete"@,
    }
}

/// The type that an event is kept under.
pub fn event_type(ev: &RuntimeEvent) -> (s: &'static str)
    ensures
        s@ == type_of(*ev),
        ev is Text ==> s@ == "session.message"@,
        ev is Thinking ==> s@ == "session.thinking"@,
        ev is ToolUse ==> s@ == "session.tool_call"@,
        ev is ToolResult ==> s@ == "session.tool_result"@,
        ev is Error ==> s@ == "session.error"@,
        ev is UserInput ==> s@ == "session.user_input"@,
        ev is TurnComplete ==> s@ == "session.turn_complete"@,
{
    match ev {
        RuntimeEvent::Text { .. } => "session.message",
        RuntimeEvent::Thinking { .. } => "session.thinking",
        RuntimeEvent::ToolUse { .. } => "session.tool_call",
        RuntimeEvent::ToolResult { .. } => "session.tool_result",
        RuntimeEvent::Error { .. } => "session.error",
        RuntimeEvent::UserInput { .. } => "session.user_input",
        RuntimeEvent::TurnComplete { .. } => "session.turn_complete",
    }
}

/// What an event's payload says; null where that is not known.
pub open spec fn payload_json(item: IngestItem) -> Json {
    match item.payload {
        Some(s) => match json_read(s@) {
            Some(j) => j,
            None => Json::Null,
        },
        None => Json::Null,
    }
}

/// An event's payload as a value.
fn payload_value(item: &IngestItem) -> (v: serde_json::Value)
    ensures
        json_of(v) == payload_json(*item),
{
    match &item.payload {
        Some(s) => match json::read(s.as_str()) {
            Ok(v) => v,
            Err(_) => json::null(),
        },
        None => json::null(),
    }
}

/// What the assistant has said so far in a turn: finished blocks, and text that
/// may still grow.
#[verifier::ext_equal]
pub struct PendingTurn {
    pub blocks: Seq<Json>,
    pub text: Seq<char>,
}

/// A block of text.
pub open spec fn text_block(text: Seq<char>) -> Json {
    Json::Object(map!["type"@ => Json::Str("text"@), "text"@ => Json::Str(text)])
}

/// The block for an event that is not text.
pub open spec fn other_block(ev: RuntimeEvent) -> Json {
    match ev {
        RuntimeEvent::Thinking { thinking } => Json::Object(
            map!["type"@ => Json::Str("thinking"@), "thinking"@ => Json::Str(thinking@)],
        ),
        RuntimeEvent::ToolUse { id, name, input } => Json::Object(
            map![
                "type"@ => Json::Str("tool_use"@),
                "id"@ => Json::Str(id@),
                "name"@ => Json::Str(name@),
                "input"@ => json_of(input),
            ],
        ),
        RuntimeEvent::ToolResult { tool_use_id, content, is_error } => Json::Object(
            map![
                "type"@ => Json::Str("tool_result"@),
                "tool_use_id"@ => Json::Str(tool_use_id@),
                "content"@ => json_of(content),
                "is_error"@ => Json::Bool(is_error),
            ],
        ),
        _ => Json::Null,
    }
}

impl PendingTurn {
    /// The blocks, with the text as the last one if there is any.
    pub open spec fn committed(self) -> Seq<Json> {
        if self.text.len() == 0 {
            self.blocks
        } else {
            self.blocks.push(text_block(self.text))
        }
    }
}

/// Whether an event ends the assistant's turn.
pub open spec fn ends_turn(ev: RuntimeEvent) -> bool {
    ev is UserInput || ev is TurnComplete
}

/// The turn that is under way after the first `n` events. Text that follows text
/// is joined to it; errors leave no block.
pub open spec fn pending_after(items: Seq<IngestItem>, n: int) -> PendingTurn
    decreases n,
{
    if n <= 0 {
        PendingTurn { blocks: Seq::empty(), text: Seq::empty() }
    } else {
        let before = pending_after(items, n - 1);
        match items[n - 1].event {
            RuntimeEvent::UserInput { .. } | RuntimeEvent::TurnComplete { .. } => PendingTurn {
                blocks: Seq::empty(),
                text: Seq::empty(),
            },
            RuntimeEvent::Text { text } => PendingTurn { blocks: before.blocks, text: before.text + text@ },
            RuntimeEvent::Error { .. } => before,
            ev => PendingTurn { blocks: before.committed().push(other_block(ev)), text: Seq::empty() },
        }
    }
}

/// The turns that are over after the first `n` events.
pub open spec fn turns_after(items: Seq<IngestItem>, n: int) -> Seq<Seq<Json>>
    decreases n,
{
    if n <= 0 {
        Seq::empty()
    } else {
        turns_after(items, n - 1) + if ends_turn(items[n - 1].event) {
            closed(pending_after(items, n - 1))
        } else {
            Seq::empty()
        }
    }
}

/// The turn that closing `p` makes: none where nothing was said.
pub open spec fn closed(p: PendingTurn) -> Seq<Seq<Json>> {
    if p.committed().len() == 0 {
        Seq::empty()
    } else {
        seq![p.committed()]
    }
}

/// The turns that events make up; the last one is closed at the end.
pub open spec fn turns(items: Seq<IngestItem>) -> Seq<Seq<Json>> {
    turns_after(items, items.len() as int) + closed(pending_after(items, items.len() as int))
}

/// What happens for a chat session's event.
#[derive(Debug)]
pub enum ChatEffect {
    /// Publish the event.
    Publish { data: String },
    /// Keep a message of this role as the next one of the session.
    Persist { message_id: Uuid, role: &'static str, body: String },
}

/// What an effect does.
pub enum Effect {
    Publish(Seq<char>),
    Persist { role: Seq<char>, body: Seq<char> },
}

impl View for ChatEffect {
    type V = Effect;

    open spec fn view(&self) -> Effect {
        match self {
            ChatEffect::Publish { data } => Effect::Publish(data@),
            ChatEffect::Persist { role, body, .. } => Effect::Persist { role: role@, body: body@ },
        }
    }
}

/// The effects of closing a turn: each is kept as a message of the assistant.
pub open spec fn persisted(closed_turns: Seq<Seq<Json>>) -> Seq<Effect> {
    closed_turns.map_values(
        |blocks: Seq<Json>| Effect::Persist { role: "assistant"@, body: json_text(Json::Array(blocks)) },
    )
}

/// The number of the event at `i`: its place in the batch, from 1 on.
pub open spec fn chat_sequence(i: int) -> i64 {
    if i < i64::MAX {
        (i + 1) as i64
    } else {
        i64::MAX
    }
}

/// The data that the event at `i` of a chat session is published with.
pub open spec fn chat_data(session: Uuid, items: Seq<IngestItem>, i: int) -> Seq<char> {
    json_text(event_json(session, type_of(items[i].event), chat_sequence(i), payload_json(items[i])))
}

/// The effects of the first `n` events: each is published, and one that ends a
/// turn closes it.
pub open spec fn effects_after(session: Uuid, items: Seq<IngestItem>, n: int) -> Seq<Effect>
    decreases n,
{
    if n <= 0 {
        Seq::empty()
    } else {
        effects_after(session, items, n - 1).push(Effect::Publish(chat_data(session, items, n - 1))) + if ends_turn(
            items[n - 1].event,
        ) {
            persisted(closed(pending_after(items, n - 1)))
        } else {
            Seq::empty()
        }
    }
}

/// The effects of all events, the last turn closed at the end.
pub open spec fn chat_effects_of(session: Uuid, items: Seq<IngestItem>) -> Seq<Effect> {
    effects_after(session, items, items.len() as int) + persisted(closed(pending_after(items, items.len() as int)))
}

/// What the values in `blocks` hold.
pub open spec fn held(blocks: Seq<serde_json::Value>) -> Seq<Json> {
    blocks.map_values(|x: serde_json::Value| json_of(x))
}

/// What the effects in `list` do.
pub open spec fn done(list: Seq<ChatEffect>) -> Seq<Effect> {
    list.map_values(|e: ChatEffect| e@)
}

/// Whether every message that is kept has an ID of its own making.
pub open spec fn fresh_ids(list: Seq<ChatEffect>) -> bool {
    forall|i: int|
        0 <= i < list.len() ==> (#[trigger] list[i] matches ChatEffect::Persist { message_id, .. }
            ==> message_id.is_v4())
}

/// Turns text that is waiting into a block.
pub fn commit_text_block(pending_text: &mut String, pending_blocks: &mut Vec<serde_json::Value>)
    ensures
        final(pending_text)@.len() == 0,
        held(final(pending_blocks)@) == (PendingTurn {
            blocks: held(old(pending_blocks)@),
            text: old(pending_text)@,
        }).committed(),
{
    if !pending_text.as_str().is_empty() {
        let v = json::with(json::object(), "type", json::string("text"));
        let v = json::with(v, "text", json::string(pending_text.as_str()));
        pending_blocks.push(v);
        *pending_text = String::new();
        assert(held(pending_blocks@) =~= held(old(pending_blocks)@).push(text_block(old(pending_text)@)));
    }
}

/// Closes the turn: its blocks become one message, if there are any.
fn flush_pending_turn(
    pending_text: &mut String,
    pending_blocks: &mut Vec<serde_json::Value>,
    effects: &mut Vec<ChatEffect>,
)
    requires
        fresh_ids(old(effects)@),
    ensures
        fresh_ids(final(effects)@),
        final(pending_text)@.len() == 0,
        final(pending_blocks)@.len() == 0,
        done(final(effects)@) == done(old(effects)@) + persisted(
            closed(PendingTurn { blocks: held(old(pending_blocks)@), text: old(pending_text)@ }),
        ),
{
    let ghost p = PendingTurn { blocks: held(pending_blocks@), text: pending_text@ };
    commit_text_block(pending_text, pending_blocks);
    assert(held(pending_blocks@).len() == pending_blocks@.len());
    if pending_blocks.len() == 0 {
        assert(persisted(closed(p)) =~= Seq::empty());
        assert(done(effects@) =~= done(old(effects)@) + persisted(closed(p)));
        return ;
    }
    let mut blocks: Vec<serde_json::Value> = Vec::new();
    std::mem::swap(&mut blocks, pending_blocks);
    let body = json::text(&json::array(blocks));
    let effect = ChatEffect::Persist { message_id: Uuid::new_v4(), role: "assistant", body };
    assert(persisted(closed(p)) =~= seq![effect@]);
    effects.push(effect);
    assert(done(effects@) =~= done(old(effects)@) + persisted(closed(p)));
}

/// The block for an event that is not text.
fn block_of(ev: &RuntimeEvent) -> (v: serde_json::Value)
    ensures
        json_of(v) == other_block(*ev),
{
    match ev {
        RuntimeEvent::Thinking { thinking } => {
            let v = json::with(json::object(), "type", json::string("thinking"));
            json::with(v, "thinking", json::string(thinking.as_str()))
        },
        RuntimeEvent::ToolUse { id, name, input } => {
            let v = json::with(json::object(), "type", json::string("tool_use"));
            let v = json::with(v, "id", json::string(id.as_str()));
            let v = json::with(v, "name", json::string(name.as_str()));
            json::with(v, "input", input.clone())
        },
        RuntimeEvent::ToolResult { tool_use_id, content, is_error } => {
            let v = json::with(json::object(), "type", json::string("tool_result"));
            let v = json::with(v, "tool_use_id", json::string(tool_use_id.as_str()));
            let v = json::with(v, "content", content.clone());
            json::with(v, "is_error", json::boolean(*is_error))
        },
        _ => json::null(),
    }
}

/// What happens for the events of a chat session, in order.
pub fn ingest_chat_session_events(session_id: Uuid, events: &Vec<IngestItem>) -> (effects: Vec<ChatEffect>)
    ensures
        done(effects@) == chat_effects_of(session_id, events@),
        fresh_ids(effects@),
        forall|i: int|
            0 <= i < effects@.len() ==> (#[trigger] effects@[i] matches ChatEffect::Persist { message_id, role, .. }
                ==> message_id.is_v4() && role@ == "assistant"@),
{
    let mut effects: Vec<ChatEffect> = Vec::new();
    let mut pending_blocks: Vec<serde_json::Value> = Vec::new();
    let mut pending_text = String::new();
    let mut i: usize = 0;
    assert(done(effects@) =~= effects_after(session_id, events@, 0));
    assert(held(pending_blocks@) =~= Seq::empty());
    while i < events.len()
        invariant
            i <= events@.len(),
            fresh_ids(effects@),
            done(effects@) == effects_after(session_id, events@, i as int),
            pending_after(events@, i as int) == (PendingTurn { blocks: held(pending_blocks@), text: pending_text@ }),
        decreases events@.len() - i,
    {
        let ghost before = pending_after(events@, i as int);
        let ghost effects_before = effects@;
        let item = &events[i];
        let sequence: i64 = if (i as u64) < i64::MAX as u64 {
            i as i64 + 1
        } else {
            i64::MAX
        };
        let data = event_data(session_id, event_type(&item.event), sequence, payload_value(item));
        effects.push(ChatEffect::Publish { data });
        assert(done(effects@) =~= done(effects_before).push(Effect::Publish(chat_data(session_id, events@, i as int))));
        match &item.event {
            RuntimeEvent::UserInput { .. } | RuntimeEvent::TurnComplete { .. } => {
                flush_pending_turn(&mut pending_text, &mut pending_blocks, &mut effects);
                assert(held(pending_blocks@) =~= Seq::empty());
                assert(pending_text@ =~= Seq::empty());
            },
            RuntimeEvent::Text { text } => {
                pending_text.append(text.as_str());
            },
            RuntimeEvent::Error { .. } => {},
            ev => {
                commit_text_block(&mut pending_text, &mut pending_blocks);
                let ghost committed = held(pending_blocks@);
                let block = block_of(ev);
                pending_blocks.push(block);
                assert(held(pending_blocks@) =~= committed.push(other_block(item.event)));
                assert(pending_text@ =~= Seq::empty());
            },
        }
        assert(!ends_turn(item.event) ==> done(effects@) =~= effects_after(session_id, events@, i + 1));
        i += 1;
    }
    flush_pending_turn(&mut pending_text, &mut pending_blocks, &mut effects);
    proof {
        lemma_assistants(session_id, events@, events@.len() as int);
        assert forall|i: int| 0 <= i < effects@.len() implies (#[trigger] effects@[i] matches ChatEffect::Persist {
            message_id,
            role,
            ..
        } ==> message_id.is_v4() && role@ == "assistant"@) by {
            assert(done(effects@)[i] == effects@[i]@);
            let before = effects_after(session_id, events@, events@.len() as int);
            let last = persisted(closed(pending_after(events@, events@.len() as int)));
            assert(done(effects@) == before + last);
            if i < before.len() {
                assert((before + last)[i] == before[i]);
            } else {
                assert((before + last)[i] == last[i - before.len()]);
            }
        }
    }
    effects
}

proof fn lemma_assistants(session: Uuid, items: Seq<IngestItem>, n: int)
    ensures
        forall|i: int|
            0 <= i < effects_after(session, items, n).len() ==> (#[trigger] effects_after(session, items, n)[i]
                matches Effect::Persist { role, .. } ==> role == "assistant"@),
    decreases n,
{
    if n > 0 {
        lemma_assistants(session, items, n - 1);
    }
}

/// The text in a block of text; nothing in any other block.
pub open spec fn text_in(block: Json) -> Seq<char> {
    match block {
        Json::Object(m) => if m.contains_key("type"@) && m["type"@] == Json::Str("text"@) && m.contains_key("text"@) {
            match m["text"@] {
                Json::Str(t) => t,
                _ => Seq::empty(),
            }
        } else {
            Seq::empty()
        },
        _ => Seq::empty(),
    }
}

/// The text in blocks, one after the other.
pub open spec fn text_of_blocks(blocks: Seq<Json>) -> Seq<char>
    decreases blocks.len(),
{
    if blocks.len() == 0 {
        Seq::empty()
    } else {
        text_of_blocks(blocks.drop_last()) + text_in(blocks.last())
    }
}

/// The text in turns, one after the other.
pub open spec fn text_of_turns(list: Seq<Seq<Json>>) -> Seq<char>
    decreases list.len(),
{
    if list.len() == 0 {
        Seq::empty()
    } else {
        text_of_turns(list.drop_last()) + text_of_blocks(list.last())
    }
}

/// The text of the first `n` events, one after the other.
pub open spec fn text_of_events(items: Seq<IngestItem>, n: int) -> Seq<char>
    decreases n,
{
    if n <= 0 {
        Seq::empty()
    } else {
        text_of_events(items, n - 1) + match items[n - 1].event {
            RuntimeEvent::Text { text } => text@,
            _ => Seq::empty(),
        }
    }
}

proof fn lemma_block_texts(ev: RuntimeEvent, text: Seq<char>)
    ensures
        text_in(text_block(text)) == text,
        text_in(other_block(ev)) == Seq::<char>::empty(),
{
    reveal_strlit("type");
    reveal_strlit("text");
    reveal_strlit("thinking");
    reveal_strlit("tool_use");
    reveal_strlit("tool_result");
    reveal_strlit("id");
    reveal_strlit("name");
    reveal_strlit("input");
    reveal_strlit("tool_use_id");
    reveal_strlit("content");
    reveal_strlit("is_error");
    assert("type"@.len() == 4 && "text"@.len() == 4 && "type"@[1] == 'y' && "text"@[1] == 'e');
    assert("thinking"@.len() == 8 && "tool_use"@.len() == 8 && "tool_result"@.len() == 11);
    assert("id"@.len() == 2 && "name"@.len() == 4 && "name"@[0] == 'n' && "input"@.len() == 5);
    assert("tool_use_id"@.len() == 11 && "content"@.len() == 7 && "is_error"@.len() == 8);
}

proof fn lemma_committed_text(p: PendingTurn)
    ensures
        text_of_blocks(p.committed()) == text_of_blocks(p.blocks) + p.text,
{
    lemma_block_texts(RuntimeEvent::Error { message: arbitrary(), code: None }, p.text);
    if p.text.len() > 0 {
        assert(p.committed().drop_last() =~= p.blocks);
    } else {
        assert(text_of_blocks(p.blocks) + p.text =~= text_of_blocks(p.blocks));
    }
}

proof fn lemma_closed_text(list: Seq<Seq<Json>>, p: PendingTurn)
    ensures
        text_of_turns(list + closed(p)) == text_of_turns(list) + text_of_blocks(p.committed()),
{
    if p.committed().len() == 0 {
        assert(list + closed(p) =~= list);
        assert(text_of_turns(list) + text_of_blocks(p.committed()) =~= text_of_turns(list));
    } else {
        assert((list + closed(p)).drop_last() =~= list);
        assert((list + closed(p)).last() == p.committed());
    }
}

proof fn lemma_text_kept(items: Seq<IngestItem>, n: int)
    requires
        0 <= n <= items.len(),
    ensures
        text_of_turns(turns_after(items, n)) + text_of_blocks(pending_after(items, n).blocks) + pending_after(
            items,
            n,
        ).text == text_of_events(items, n),
    decreases n,
{
    if n == 0 {
        assert(text_of_turns(turns_after(items, n)) + text_of_blocks(pending_after(items, n).blocks) + pending_after(
            items,
            n,
        ).text =~= Seq::<char>::empty());
    } else {
        lemma_text_kept(items, n - 1);
        let before = pending_after(items, n - 1);
        let ended = turns_after(items, n - 1);
        let ev = items[n - 1].event;
        let after = pending_after(items, n);
        lemma_committed_text(before);
        lemma_closed_text(ended, before);
        lemma_block_texts(ev, before.text);
        if ends_turn(ev) {
            assert(text_of_turns(turns_after(items, n)) + text_of_blocks(after.blocks) + after.text
                =~= text_of_turns(ended) + text_of_blocks(before.blocks) + before.text);
            assert(text_of_events(items, n) =~= text_of_events(items, n - 1));
        } else {
            assert(turns_after(items, n) =~= ended);
            match ev {
                RuntimeEvent::Text { text } => {
                    assert(text_of_turns(ended) + text_of_blocks(before.blocks) + (before.text + text@)
                        =~= text_of_turns(ended) + text_of_blocks(before.blocks) + before.text + text@);
                },
                RuntimeEvent::Error { .. } => {
                    assert(text_of_events(items, n) =~= text_of_events(items, n - 1));
                },
                _ => {
                    assert(after.blocks.drop_last() =~= before.committed());
                    assert(text_of_blocks(after.blocks) =~= text_of_blocks(before.committed()));
                    assert(text_of_turns(ended) + text_of_blocks(after.blocks) + after.text =~= text_of_turns(ended)
                        + text_of_blocks(before.blocks) + before.text);
                    assert(text_of_events(items, n) =~= text_of_events(items, n - 1));
                },
            }
        }
    }
}

/// Nothing the assistant says is lost or reordered: the text in the messages that
/// are kept is the text of the events.
pub proof fn turns_keep_the_text(items: Seq<IngestItem>)
    ensures
        text_of_turns(turns(items)) == text_of_events(items, items.len() as int),
{
    let n = items.len() as int;
    lemma_text_kept(items, n);
    lemma_committed_text(pending_after(items, n));
    lemma_closed_text(turns_after(items, n), pending_after(items, n));
    assert(text_of_turns(turns(items)) =~= text_of_turns(turns_after(items, n)) + text_of_blocks(
        pending_after(items, n).blocks,
    ) + pending_after(items, n).text);
}

/// The effects that keep messages, in order.
pub open spec fn kept_in(list: Seq<Effect>) -> Seq<Effect> {
    list.filter(|e: Effect| e is Persist)
}

proof fn lemma_kept_step(list: Seq<Effect>, data: Seq<char>, more: Seq<Seq<Json>>)
    requires
        more.len() <= 1,
    ensures
        kept_in(list.push(Effect::Publish(data)) + persisted(more)) == kept_in(list) + persisted(more),
        kept_in(list + persisted(more)) == kept_in(list) + persisted(more),
{
    reveal(Seq::filter);
    let l = list.push(Effect::Publish(data));
    assert(l.drop_last() =~= list);
    if more.len() == 0 {
        assert(l + persisted(more) =~= l);
        assert(list + persisted(more) =~= list);
        assert(kept_in(list) + persisted(more) =~= kept_in(list));
    } else {
        assert((l + persisted(more)).drop_last() =~= l);
        assert((list + persisted(more)).drop_last() =~= list);
        assert(kept_in(list) + persisted(more) =~= kept_in(list).push(persisted(more)[0]));
    }
}

proof fn lemma_kept_are_turns(session: Uuid, items: Seq<IngestItem>, n: int)
    requires
        0 <= n <= items.len(),
    ensures
        kept_in(effects_after(session, items, n)) == persisted(turns_after(items, n)),
    decreases n,
{
    reveal(Seq::filter);
    if n == 0 {
        assert(persisted(turns_after(items, 0)) =~= Seq::empty());
    } else {
        lemma_kept_are_turns(session, items, n - 1);
        let before = effects_after(session, items, n - 1);
        let more = if ends_turn(items[n - 1].event) {
            closed(pending_after(items, n - 1))
        } else {
            Seq::empty()
        };
        lemma_kept_step(before, chat_data(session, items, n - 1), more);
        assert(persisted(Seq::<Seq<Json>>::empty()) =~= Seq::empty());
        assert(persisted(turns_after(items, n - 1) + more) =~= persisted(turns_after(items, n - 1)) + persisted(more));
    }
}

/// The messages that are kept are exactly the assistant's turns, one message for
/// each, in order.
pub proof fn one_message_per_turn(session: Uuid, items: Seq<IngestItem>)
    ensures
        kept_in(chat_effects_of(session, items)) == persisted(turns(items)),
{
    let n = items.len() as int;
    lemma_kept_are_turns(session, items, n);
    let last = closed(pending_after(items, n));
    lemma_kept_step(effects_after(session, items, n), Seq::empty(), last);
    assert(persisted(turns_after(items, n) + last) =~= persisted(turns_after(items, n)) + persisted(last));
}

/// What was learnt last.
#[derive(Debug)]
pub enum IngestProgress {
    /// Nothing yet.
    Begin,
    /// The tenant of the agent session with the ID, if there is one.
    AgentSession(Option<Uuid>),
    /// The tenant of the chat session with the ID, if there is one.
    ChatSession(Option<Uuid>),
    /// The sequence numbers under which the events were kept, in order.
    Inserted(Vec<i64>),
}

/// What to do next.
#[derive(Debug)]
pub enum IngestAction {
    /// Look for an agent session with the ID.
    FindAgentSession { id: Uuid },
    /// Look for a chat session with the ID.
    FindChatSession { id: Uuid },
    /// Keep the events of the session, numbered on from the largest number that is not
    /// negative.
    BulkInsert { session_id: Uuid, tenant_id: Uuid, event_types: Vec<&'static str>, payloads: Vec<String> },
    /// Publish the data of each event for the tenant, then answer.
    Publish { tenant_id: Uuid, frames: Vec<String>, response: IngestEventsResponse },
    /// Do what a chat session's events call for, then answer.
    Chat { session_id: Uuid, tenant_id: Uuid, effects: Vec<ChatEffect>, response: IngestEventsResponse },
    /// Answer.
    Answer(IngestEventsResponse),
    /// Refuse.
    Refuse(AppError),
}

/// Whether every payload could be written.
pub open spec fn all_written(items: Seq<IngestItem>) -> bool {
    forall|i: int| 0 <= i < items.len() ==> (#[trigger] items[i]).payload is Some
}

/// How the events of an agent session are kept.
fn ingest_agent_session_events(session_id: Uuid, tenant_id: Uuid, events: &Vec<IngestItem>) -> (action:
    IngestAction)
    ensures
        !all_written(events@) ==> action == IngestAction::Refuse(AppError::Internal),
        all_written(events@) ==> {
            &&& action matches IngestAction::BulkInsert { session_id: s, tenant_id: t, event_types, payloads }
            &&& s == session_id && t == tenant_id
            &&& event_types@.len() == events@.len()
            &&& payloads@.len() == events@.len()
            &&& forall|i: int|
                0 <= i < events@.len() ==> #[trigger] event_types@[i]@ == type_of(events@[i].event) && payloads@[i]@
                    == events@[i].payload->0@
        },
{
    let mut event_types: Vec<&'static str> = Vec::new();
    let mut payloads: Vec<String> = Vec::new();
    let mut i: usize = 0;
    while i < events.len()
        invariant
            i <= events@.len(),
            event_types@.len() == i,
            payloads@.len() == i,
            forall|j: int| 0 <= j < i ==> (#[trigger] events@[j]).payload is Some,
            forall|j: int|
                0 <= j < i ==> #[trigger] event_types@[j]@ == type_of(events@[j].event) && payloads@[j]@
                    == events@[j].payload->0@,
        decreases events@.len() - i,
    {
        event_types.push(event_type(&events[i].event));
        match &events[i].payload {
            Some(s) => payloads.push(s.clone()),
            None => {
                assert(events@[i as int].payload is None);
                return IngestAction::Refuse(AppError::Internal);
            },
        }
        i += 1;
    }
    IngestAction::BulkInsert { session_id, tenant_id, event_types, payloads }
}

/// The next step of taking events in. An empty batch is done at once. The session,
/// agent or chat, must belong to the tenant that the runner names.
pub fn ingest_session_events(session_id: Uuid, req: &IngestEventsRequest, progress: IngestProgress) -> (action:
    IngestAction)
    ensures
        req.events@.len() == 0 ==> action == IngestAction::Answer(IngestEventsResponse { inserted: 0 }),
        req.events@.len() > 0 ==> match progress {
            IngestProgress::Begin => action == (IngestAction::FindAgentSession { id: session_id }),
            IngestProgress::AgentSession(None) => action == (IngestAction::FindChatSession { id: session_id }),
            IngestProgress::AgentSession(Some(tenant)) => if tenant != req.tenant_id {
                action == IngestAction::Refuse(AppError::Unauthorized)
            } else if !all_written(req.events@) {
                action == IngestAction::Refuse(AppError::Internal)
            } else {
                &&& action matches IngestAction::BulkInsert { session_id: s, tenant_id: t, event_types, payloads }
                &&& s == session_id && t == tenant
                &&& event_types@.len() == req.events@.len()
                &&& payloads@.len() == req.events@.len()
                &&& forall|i: int|
                    0 <= i < req.events@.len() ==> #[trigger] event_types@[i]@ == type_of(req.events@[i].event)
                        && payloads@[i]@ == req.events@[i].payload->0@
            },
            IngestProgress::Inserted(sequences) => {
                &&& action matches IngestAction::Publish { tenant_id, frames, response }
                &&& tenant_id == req.tenant_id
                &&& response.inserted == sequences@.len()
                &&& frames@.len() == if sequences@.len() < req.events@.len() {
                    sequences@.len()
                } else {
                    req.events@.len()
                }
                &&& forall|i: int|
                    0 <= i < frames@.len() ==> #[trigger] frames@[i]@ == json_text(
                        event_json(
                            session_id,
                            type_of(req.events@[i].event),
                            sequences@[i],
                            payload_json(req.events@[i]),
                        ),
                    )
            },
            IngestProgress::ChatSession(None) => action == IngestAction::Refuse(AppError::NotFound),
            IngestProgress::ChatSession(Some(tenant)) => if tenant != req.tenant_id {
                action == IngestAction::Refuse(AppError::Unauthorized)
            } else {
                &&& action matches IngestAction::Chat { session_id: s, tenant_id: t, effects, response }
                &&& s == session_id && t == tenant
                &&& done(effects@) == chat_effects_of(session_id, req.events@)
                &&& fresh_ids(effects@)
                &&& response.inserted == req.events@.len()
            },
        },
{
    if req.events.len() == 0 {
        return IngestAction::Answer(IngestEventsResponse { inserted: 0 });
    }
    match progress {
        IngestProgress::Begin => IngestAction::FindAgentSession { id: session_id },
        IngestProgress::AgentSession(None) => IngestAction::FindChatSession { id: session_id },
        IngestProgress::AgentSession(Some(tenant)) => {
            if tenant != req.tenant_id {
                return IngestAction::Refuse(AppError::Unauthorized);
            }
            ingest_agent_session_events(session_id, tenant, &req.events)
        },
        IngestProgress::Inserted(sequences) => {
            let mut frames: Vec<String> = Vec::new();
            let mut i: usize = 0;
            while i < req.events.len() && i < sequences.len()
                invariant
                    i <= req.events@.len(),
                    i <= sequences@.len(),
                    frames@.len() == i,
                    forall|j: int|
                        0 <= j < i ==> #[trigger] frames@[j]@ == json_text(
                            event_json(
                                session_id,
                                type_of(req.events@[j].event),
                                sequences@[j],
                                payload_json(req.events@[j]),
                            ),
                        ),
                decreases req.events@.len() - i,
            {
                let item = &req.events[i];
                frames.push(event_data(session_id, event_type(&item.event), sequences[i], payload_value(item)));
                i += 1;
            }
            IngestAction::Publish {
                tenant_id: req.tenant_id,
                frames,
                response: IngestEventsResponse { inserted: sequences.len() },
            }
        },
        IngestProgress::ChatSession(None) => IngestAction::Refuse(AppError::NotFound),
        IngestProgress::ChatSession(Some(tenant)) => {
            if tenant != req.tenant_id {
                return IngestAction::Refuse(AppError::Unauthorized);
            }
            IngestAction::Chat {
                session_id,
                tenant_id: tenant,
                effects: ingest_chat_session_events(session_id, &req.events),
                response: IngestEventsResponse { inserted: req.events.len() },
            }
        },
    }
}

/// Whether a block is one of text.
pub open spec fn is_text(block: Json) -> bool {
    block matches Json::Object(m) && m.contains_key("type"@) && m["type"@] == Json::Str("text"@)
}

/// Whether `block` says what `ev` does, which is a thought, the use of a tool or the
/// result of one.
pub open spec fn says(block: Json, ev: RuntimeEvent) -> bool {
    &&& block matches Json::Object(m)
    &&& match ev {
        RuntimeEvent::Thinking { thinking } => {
            &&& m.dom() == set!["type"@, "thinking"@]
            &&& m["type"@] == Json::Str("thinking"@)
            &&& m["thinking"@] == Json::Str(thinking@)
        },
        RuntimeEvent::ToolUse { id, name, input } => {
            &&& m.dom() == set!["type"@, "id"@, "name"@, "input"@]
            &&& m["type"@] == Json::Str("tool_use"@)
            &&& m["id"@] == Json::Str(id@)
            &&& m["name"@] == Json::Str(name@)
            &&& m["input"@] == json_of(input)
        },
        RuntimeEvent::ToolResult { tool_use_id, content, is_error } => {
            &&& m.dom() == set!["type"@, "tool_use_id"@, "content"@, "is_error"@]
            &&& m["type"@] == Json::Str("tool_result"@)
            &&& m["tool_use_id"@] == Json::Str(tool_use_id@)
            &&& m["content"@] == json_of(content)
            &&& m["is_error"@] == Json::Bool(is_error)
        },
        _ => false,
    }
}

/// The blocks in turns, one after the other.
pub open spec fn blocks_of_turns(list: Seq<Seq<Json>>) -> Seq<Json>
    decreases list.len(),
{
    if list.len() == 0 {
        Seq::empty()
    } else {
        blocks_of_turns(list.drop_last()) + list.last()
    }
}

/// The blocks that are not text.
pub open spec fn not_text(blocks: Seq<Json>) -> Seq<Json> {
    blocks.filter(|b: Json| !is_text(b))
}

/// The thoughts, uses of tools and results of tools among the first `n` events.
pub open spec fn block_events(items: Seq<IngestItem>, n: int) -> Seq<RuntimeEvent>
    decreases n,
{
    if n <= 0 {
        Seq::empty()
    } else {
        let ev = items[n - 1].event;
        if ev is Thinking || ev is ToolUse || ev is ToolResult {
            block_events(items, n - 1).push(ev)
        } else {
            block_events(items, n - 1)
        }
    }
}

/// Whether `blocks` say what `events` do, one for one and in order.
pub open spec fn all_said(blocks: Seq<Json>, events: Seq<RuntimeEvent>) -> bool {
    &&& blocks.len() == events.len()
    &&& forall|i: int| 0 <= i < events.len() ==> says(#[trigger] blocks[i], events[i])
}

proof fn lemma_blocks(ev: RuntimeEvent, text: Seq<char>)
    ensures
        is_text(text_block(text)),
        ev is Thinking || ev is ToolUse || ev is ToolResult ==> says(other_block(ev), ev) && !is_text(other_block(ev)),
{
    reveal_strlit("type");
    reveal_strlit("text");
    reveal_strlit("thinking");
    reveal_strlit("tool_use");
    reveal_strlit("tool_result");
    reveal_strlit("id");
    reveal_strlit("name");
    reveal_strlit("input");
    reveal_strlit("tool_use_id");
    reveal_strlit("content");
    reveal_strlit("is_error");
    assert("type"@.len() == 4 && "text"@.len() == 4 && "type"@[1] == 'y' && "text"@[1] == 'e');
    assert("thinking"@.len() == 8 && "tool_use"@.len() == 8 && "tool_result"@.len() == 11);
    assert("id"@.len() == 2 && "name"@.len() == 4 && "name"@[0] == 'n' && "type"@[0] == 't' && "input"@.len() == 5);
    assert("tool_use_id"@.len() == 11 && "content"@.len() == 7 && "is_error"@.len() == 8);
    match ev {
        RuntimeEvent::Thinking { .. } => {
            assert(other_block(ev)->Object_0.dom() =~= set!["type"@, "thinking"@]);
        },
        RuntimeEvent::ToolUse { .. } => {
            assert(other_block(ev)->Object_0.dom() =~= set!["type"@, "id"@, "name"@, "input"@]);
        },
        RuntimeEvent::ToolResult { .. } => {
            assert(other_block(ev)->Object_0.dom() =~= set!["type"@, "tool_use_id"@, "content"@, "is_error"@]);
        },
        _ => {},
    }
}

proof fn lemma_not_text_adds(a: Seq<Json>, b: Seq<Json>)
    ensures
        not_text(a + b) == not_text(a) + not_text(b),
{
    Seq::filter_distributes_over_add(a, b, |b: Json| !is_text(b));
}

proof fn lemma_not_text_committed(p: PendingTurn)
    ensures
        not_text(p.committed()) == not_text(p.blocks),
{
    reveal(Seq::filter);
    lemma_blocks(RuntimeEvent::Error { message: arbitrary(), code: None }, p.text);
    if p.text.len() > 0 {
        assert(p.committed().drop_last() =~= p.blocks);
    }
}

proof fn lemma_closed_blocks(list: Seq<Seq<Json>>, p: PendingTurn)
    ensures
        blocks_of_turns(list + closed(p)) == blocks_of_turns(list) + p.committed(),
{
    if p.committed().len() == 0 {
        assert(list + closed(p) =~= list);
        assert(blocks_of_turns(list) + p.committed() =~= blocks_of_turns(list));
    } else {
        assert((list + closed(p)).drop_last() =~= list);
        assert((list + closed(p)).last() == p.committed());
    }
}

proof fn lemma_blocks_kept(items: Seq<IngestItem>, n: int)
    requires
        0 <= n <= items.len(),
    ensures
        all_said(
            not_text(blocks_of_turns(turns_after(items, n))) + not_text(pending_after(items, n).blocks),
            block_events(items, n),
        ),
    decreases n,
{
    reveal(Seq::filter);
    if n > 0 {
        lemma_blocks_kept(items, n - 1);
        let before = pending_after(items, n - 1);
        let ended = turns_after(items, n - 1);
        let ev = items[n - 1].event;
        let after = pending_after(items, n);
        let kept = not_text(blocks_of_turns(ended)) + not_text(before.blocks);
        lemma_blocks(ev, before.text);
        lemma_not_text_committed(before);
        if ends_turn(ev) {
            lemma_closed_blocks(ended, before);
            lemma_not_text_adds(blocks_of_turns(ended), before.committed());
            assert(not_text(blocks_of_turns(turns_after(items, n))) + not_text(after.blocks) =~= kept);
        } else {
            assert(turns_after(items, n) =~= ended);
            match ev {
                RuntimeEvent::Text { .. } => {},
                RuntimeEvent::Error { .. } => {},
                _ => {
                    assert(after.blocks.drop_last() =~= before.committed());
                    assert(not_text(after.blocks) =~= not_text(before.blocks).push(other_block(ev)));
                    assert(not_text(blocks_of_turns(ended)) + not_text(after.blocks) =~= kept.push(other_block(ev)));
                },
            }
        }
    }
}

/// Nothing the assistant thinks or does is lost, repeated or reordered: the blocks
/// that are not text, of all messages that are kept, are one for each thought, use of a
/// tool and result of a tool, in the order of the events and with their fields.
pub proof fn turns_keep_the_blocks(items: Seq<IngestItem>)
    ensures
        all_said(not_text(blocks_of_turns(turns(items))), block_events(items, items.len() as int)),
{
    let n = items.len() as int;
    let p = pending_after(items, n);
    lemma_blocks_kept(items, n);
    lemma_closed_blocks(turns_after(items, n), p);
    lemma_not_text_adds(blocks_of_turns(turns_after(items, n)), p.committed());
    lemma_not_text_committed(p);
}

proof fn lemma_same_start(a: Seq<IngestItem>, b: Seq<IngestItem>, n: int)
    requires
        0 <= n <= a.len(),
        n <= b.len(),
        forall|i: int| 0 <= i < n ==> a[i] == b[i],
    ensures
        pending_after(a, n) == pending_after(b, n),
        turns_after(a, n) == turns_after(b, n),
    decreases n,
{
    if n > 0 {
        lemma_same_start(a, b, n - 1);
    }
}

proof fn lemma_after_end(a: Seq<IngestItem>, end: IngestItem, b: Seq<IngestItem>, n: int)
    requires
        ends_turn(end.event),
        0 <= n <= b.len(),
    ensures
        pending_after(a.push(end) + b, a.len() + 1 + n) == pending_after(b, n),
        turns_after(a.push(end) + b, a.len() + 1 + n) == turns(a) + turns_after(b, n),
    decreases n,
{
    let all = a.push(end) + b;
    if n == 0 {
        lemma_same_start(a, all, a.len() as int);
        assert(all[a.len() as int] == end);
        assert(turns(a) + turns_after(b, 0) =~= turns(a));
    } else {
        lemma_after_end(a, end, b, n - 1);
        assert(all[a.len() + n] == b[n - 1]);
        assert(turns_after(all, a.len() + 1 + n) =~= turns(a) + turns_after(b, n));
    }
}

/// A turn is over with the user's input or the report that it is complete: what comes
/// before makes up its own turns, and what comes after makes up others.
pub proof fn turns_are_parted(a: Seq<IngestItem>, end: IngestItem, b: Seq<IngestItem>)
    requires
        end.event is UserInput || end.event is TurnComplete,
    ensures
        turns(a.push(end) + b) == turns(a) + turns(b),
{
    let all = a.push(end) + b;
    lemma_after_end(a, end, b, b.len() as int);
    assert(all.len() == a.len() + 1 + b.len());
    assert(turns(all) =~= turns(a) + turns(b));
}

proof fn lemma_one_turn(items: Seq<IngestItem>, n: int)
    requires
        0 <= n <= items.len(),
        forall|i: int| 0 <= i < n ==> !((#[trigger] items[i]).event is UserInput || items[i].event is TurnComplete),
    ensures
        turns_after(items, n).len() == 0,
        pending_after(items, n).blocks.len() > 0 ==> !is_text(pending_after(items, n).blocks.last()),
    decreases n,
{
    if n > 0 {
        lemma_one_turn(items, n - 1);
        assert(!(items[n - 1].event is UserInput || items[n - 1].event is TurnComplete));
        lemma_blocks(items[n - 1].event, Seq::empty());
    }
}

/// Within a turn, each event adds to what was said before. A thought, the use of a tool
/// or its result adds a block of its own; text goes on with the text just before it, or
/// starts a block; empty text and errors add nothing.
pub proof fn turns_grow_by_events(items: Seq<IngestItem>, item: IngestItem)
    requires
        forall|i: int|
            0 <= i < items.len() ==> !((#[trigger] items[i]).event is UserInput || items[i].event is TurnComplete),
    ensures
        turns(items).len() <= 1,
        ({
            let said = if turns(items).len() == 0 {
                Seq::empty()
            } else {
                turns(items)[0]
            };
            let now = turns(items.push(item));
            match item.event {
                RuntimeEvent::Text { text } => if text@.len() == 0 {
                    now == turns(items)
                } else if said.len() > 0 && is_text(said.last()) {
                    &&& now.len() == 1
                    &&& now[0].drop_last() == said.drop_last()
                    &&& now[0].last() == Json::Object(
                        map![
                            "type"@ => Json::Str("text"@),
                            "text"@ => Json::Str(said.last()->Object_0["text"@]->Str_0 + text@),
                        ],
                    )
                } else {
                    &&& now.len() == 1
                    &&& now[0].drop_last() == said
                    &&& now[0].last() == Json::Object(map!["type"@ => Json::Str("text"@), "text"@ => Json::Str(text@)])
                },
                RuntimeEvent::Thinking { .. } | RuntimeEvent::ToolUse { .. } | RuntimeEvent::ToolResult { .. } => {
                    &&& now.len() == 1
                    &&& now[0].drop_last() == said
                    &&& says(now[0].last(), item.event)
                },
                _ => now == turns(items),
            }
        }),
{
    let n = items.len() as int;
    let all = items.push(item);
    let p = pending_after(items, n);
    lemma_one_turn(items, n);
    lemma_same_start(items, all, n);
    lemma_blocks(item.event, p.text);
    assert(all[n] == item);
    assert(turns(items) =~= closed(p));
    let q = pending_after(all, n + 1);
    if item.event is UserInput || item.event is TurnComplete {
        assert(turns_after(all, n + 1) =~= closed(p));
        assert(turns(all) =~= turns(items));
    } else {
        assert(turns_after(all, n + 1) =~= Seq::empty());
        assert(turns(all) =~= closed(q));
        reveal_strlit("type");
        reveal_strlit("text");
        assert("type"@[1] == 'y' && "text"@[1] == 'e');
        match item.event {
            RuntimeEvent::Text { text } => {
                if text@.len() == 0 {
                    assert(p.text + text@ =~= p.text);
                } else {
                    assert(closed(q)[0] == q.committed());
                    assert(q.committed().drop_last() =~= p.blocks);
                    if p.text.len() > 0 {
                        assert(p.committed().drop_last() =~= p.blocks);
                    } else {
                        assert(p.text + text@ =~= text@);
                    }
                }
            },
            RuntimeEvent::Error { .. } => {},
            _ => {
                assert(closed(q)[0] == q.committed());
                assert(q.committed().drop_last() =~= p.committed());
            },
        }
    }
}

/// Every turn is kept as one message of the assistant, whose body is the text of the
/// JSON array of its blocks.
pub proof fn messages_hold_their_turns(session: Uuid, items: Seq<IngestItem>)
    ensures
        kept_in(chat_effects_of(session, items)).len() == turns(items).len(),
        forall|i: int|
            0 <= i < turns(items).len() ==> #[trigger] kept_in(chat_effects_of(session, items))[i] == (Effect::Persist {
                role: "assistant"@,
                body: json_text(Json::Array(turns(items)[i])),
            }),
        forall|i: int| 0 <= i < turns(items).len() ==> (#[trigger] turns(items)[i]).len() > 0,
{
    one_message_per_turn(session, items);
    lemma_no_empty_turn(items, items.len() as int);
}

proof fn lemma_no_empty_turn(items: Seq<IngestItem>, n: int)
    ensures
        forall|i: int| 0 <= i < turns_after(items, n).len() ==> (#[trigger] turns_after(items, n)[i]).len() > 0,
    decreases n,
{
    if n > 0 {
        lemma_no_empty_turn(items, n - 1);
        let before = turns_after(items, n - 1);
        assert forall|i: int| 0 <= i < turns_after(items, n).len() implies (#[trigger] turns_after(items, n)[i]).len()
            > 0 by {
            if i < before.len() {
                assert(turns_after(items, n)[i] == before[i]);
            }
        }
    }
}

/// The effects that publish events, in order.
pub open spec fn published_in(list: Seq<Effect>) -> Seq<Effect> {
    list.filter(|e: Effect| e is Publish)
}

proof fn lemma_published_step(list: Seq<Effect>, more: Seq<Seq<Json>>)
    requires
        more.len() <= 1,
    ensures
        published_in(list + persisted(more)) == published_in(list),
{
    reveal(Seq::filter);
    if more.len() == 0 {
        assert(list + persisted(more) =~= list);
    } else {
        assert((list + persisted(more)).drop_last() =~= list);
    }
}

proof fn lemma_published(session: Uuid, items: Seq<IngestItem>, n: int)
    requires
        0 <= n <= items.len(),
    ensures
        published_in(effects_after(session, items, n)).len() == n,
        forall|i: int|
            0 <= i < n ==> #[trigger] published_in(effects_after(session, items, n))[i] == Effect::Publish(
                chat_data(session, items, i),
            ),
    decreases n,
{
    reveal(Seq::filter);
    if n > 0 {
        lemma_published(session, items, n - 1);
        let before = effects_after(session, items, n - 1);
        let pushed = before.push(Effect::Publish(chat_data(session, items, n - 1)));
        assert(pushed.drop_last() =~= before);
        let more = if ends_turn(items[n - 1].event) {
            closed(pending_after(items, n - 1))
        } else {
            Seq::empty()
        };
        assert(persisted(Seq::<Seq<Json>>::empty()) =~= Seq::empty());
        lemma_published_step(pushed, more);
        assert(published_in(pushed) =~= published_in(before).push(Effect::Publish(chat_data(session, items, n - 1))));
    }
}

/// Every event is published, in order: as an event of the session, numbered from 1 on,
/// with its type and what its payload says.
pub proof fn every_event_is_published(session: Uuid, items: Seq<IngestItem>, i: int)
    requires
        0 <= i < items.len() < i64::MAX,
    ensures
        published_in(chat_effects_of(session, items)).len() == items.len(),
        published_in(chat_effects_of(session, items))[i] == Effect::Publish(
            json_text(
                Json::Object(
                    map![
                        "session_id"@ => Json::Str(session.text()),
                        "event_type"@ => Json::Str(type_of(items[i].event)),
                        "sequence"@ => Json::Int(i + 1),
                        "payload"@ => payload_json(items[i]),
                    ],
                ),
            ),
        ),
        items[i].payload matches Some(s) ==> (json_read(s@) matches Some(j) ==> payload_json(items[i]) == j),
        items[i].payload is None ==> payload_json(items[i]) is Null,
{
    let n = items.len() as int;
    lemma_published(session, items, n);
    lemma_published_step(effects_after(session, items, n), closed(pending_after(items, n)));
}

proof fn lemma_effects_prefix(session: Uuid, a: Seq<IngestItem>, b: Seq<IngestItem>, n: int)
    requires
        0 <= n <= a.len(),
        n <= b.len(),
        forall|i: int| 0 <= i < n ==> a[i] == b[i],
    ensures
        effects_after(session, a, n) == effects_after(session, b, n),
    decreases n,
{
    if n > 0 {
        lemma_effects_prefix(session, a, b, n - 1);
        lemma_same_start(a, b, n - 1);
    }
}

proof fn lemma_effects_grow(session: Uuid, items: Seq<IngestItem>, n: int, m: int)
    requires
        0 <= n <= m <= items.len(),
    ensures
        effects_after(session, items, n).len() <= effects_after(session, items, m).len(),
        effects_after(session, items, m).take(effects_after(session, items, n).len() as int) == effects_after(
            session,
            items,
            n,
        ),
    decreases m,
{
    let short = effects_after(session, items, n);
    if n == m {
        assert(short.take(short.len() as int) =~= short);
    } else {
        lemma_effects_grow(session, items, n, m - 1);
        let mid = effects_after(session, items, m - 1);
        let long = effects_after(session, items, m);
        assert(long.take(short.len() as int) =~= mid.take(short.len() as int));
    }
}

/// A message is kept as soon as its turn is over: what happens for events that end with
/// the end of a turn happens first, whatever events follow.
pub proof fn messages_are_kept_as_turns_end(
    session: Uuid,
    a: Seq<IngestItem>,
    end: IngestItem,
    b: Seq<IngestItem>,
)
    requires
        end.event is UserInput || end.event is TurnComplete,
    ensures
        chat_effects_of(session, a.push(end)).len() <= chat_effects_of(session, a.push(end) + b).len(),
        chat_effects_of(session, a.push(end) + b).take(chat_effects_of(session, a.push(end)).len() as int)
            == chat_effects_of(session, a.push(end)),
{
    let first = a.push(end);
    let all = first + b;
    let n = first.len() as int;
    lemma_effects_prefix(session, first, all, n);
    lemma_effects_grow(session, all, n, all.len() as int);
    assert(first[n - 1] == end);
    assert(pending_after(first, n).committed().len() == 0);
    assert(persisted(closed(pending_after(first, n))) =~= Seq::empty());
    assert(chat_effects_of(session, first) =~= effects_after(session, first, n));
    assert(chat_effects_of(session, all).take(effects_after(session, first, n).len() as int) =~= effects_after(
        session,
        all,
        all.len() as int,
    ).take(effects_after(session, first, n).len() as int));
}

} // verus!
