//! The index-addressed block protocol.
//!
//! A turn arrives as blocks. Each block is announced with an index, filled
//! by deltas that name the index, and closed by a stop that names it. The
//! decoder keeps a table from index to the position of the unit that the
//! block became, and for every unit the raw JSON text received for it so
//! far: the arguments of a call are parsed only when the call is closed.

pub mod request;

use crate::client::{ClientError, ClientErrorView};
use crate::json::{json_null, null_value, parse_json, parsed_json};
use crate::model::{
    all_finished, close_changes_the_flag_only, keeps_finished, keeps_finished_chains, FinishReason, MessageView, Part, PartView, Response, ResponseView, Role,
};
use crate::stream::{Turn, TurnView};
use crate::text::{concat, same_text};
use crate::usage::{Usage, UsageView};
use serde_json::Value;
use std::collections::HashMap;
use vstd::prelude::*;
use vstd::string::StringExecFns;

verus! {

broadcast use vstd::std_specs::hash::group_hash_axioms;

/// Provider options of a model.
#[derive(Debug, PartialEq)]
pub struct AnthropicModel {
    pub top_k: Option<u32>,
    pub metadata: Option<AnthropicMetadata>,
    pub stop_sequences: Option<Vec<String>>,
    pub service_tier: Option<ServiceTier>,
    pub thinking_budget: Option<u32>,
    pub tool_choice: Option<AnthropicToolChoice>,
}

impl Default for AnthropicModel {
    fn default() -> (r: Self)
        ensures
            r.top_k is None,
            r.metadata is None,
            r.stop_sequences is None,
            r.service_tier is None,
            r.thinking_budget is None,
            r.tool_choice is None,
    {
        AnthropicModel {
            top_k: None,
            metadata: None,
            stop_sequences: None,
            service_tier: None,
            thinking_budget: None,
            tool_choice: None,
        }
    }
}

#[derive(Debug, PartialEq)]
pub struct AnthropicMetadata {
    pub user_id: Option<String>,
}

#[derive(Debug, Clone, Copy, PartialEq, Eq, Structural)]
pub enum ServiceTier {
    Auto,
    StandardOnly,
}

#[derive(Debug, PartialEq)]
pub enum AnthropicToolChoice {
    Auto { disable_parallel_tool_use: Option<bool> },
    Any { disable_parallel_tool_use: Option<bool> },
    Tool { name: String, disable_parallel_tool_use: Option<bool> },
    /// The model must not use a tool.
    NoTool,
}

/// The version of the protocol that requests name.
pub const ANTHROPIC_VERSION: &'static str = "2023-06-01";

/// The address of the endpoint for messages.
pub fn messages_url(base_url: &str) -> (r: String)
    ensures
        r@ == base_url@ + "/messages"@,
{
    concat(base_url, "/messages")
}

/// The limit on output tokens of a request that names none.
pub const DEFAULT_MAX_TOKENS: u32 = 1024;

/// The limit on output tokens of a request.
pub fn max_tokens_or_default(max_tokens: Option<u32>) -> (r: u32)
    ensures
        r == match max_tokens {
            Some(n) => n,
            None => DEFAULT_MAX_TOKENS,
        },
{
    match max_tokens {
        Some(n) => n,
        None => DEFAULT_MAX_TOKENS,
    }
}

/// The budget of thinking tokens that is asked for where thinking is on
/// and the options name none.
pub const DEFAULT_THINKING_BUDGET: u32 = 1024;

/// The budget of thinking tokens to ask for: none where reasoning is off,
/// else the one of the options, or the default.
pub fn thinking_budget(reasoning: Option<bool>, options: &AnthropicModel) -> (r: Option<u32>)
    ensures
        r == if reasoning == Some(true) {
            Some(
                match options.thinking_budget {
                    Some(b) => b,
                    None => DEFAULT_THINKING_BUDGET,
                },
            )
        } else {
            None
        },
{
    let on = match reasoning {
        Some(b) => b,
        None => false,
    };
    if on {
        match options.thinking_budget {
            Some(b) => Some(b),
            None => Some(DEFAULT_THINKING_BUDGET),
        }
    } else {
        None
    }
}

#[derive(Debug, PartialEq)]
pub struct AnthropicUsage {
    pub input_tokens: u32,
    pub output_tokens: u32,
    pub cache_creation_input_tokens: Option<u32>,
    pub cache_read_input_tokens: Option<u32>,
}

#[derive(Debug, PartialEq)]
pub enum AnthropicCacheControl {
    Ephemeral,
}

#[derive(Debug, PartialEq)]
pub struct AnthropicImageSource {
    pub source_type: String,
    pub media_type: String,
    pub data: String,
}

#[derive(Debug, PartialEq)]
pub struct AnthropicDocumentSource {
    pub source_type: String,
    pub media_type: String,
    pub data: String,
}

#[derive(Debug, PartialEq)]
pub enum AnthropicToolResultBlock {
    Text { text: String },
    Image { source: AnthropicImageSource },
}

#[derive(Debug, PartialEq)]
pub enum AnthropicToolResultContent {
    Text(String),
    Blocks(Vec<AnthropicToolResultBlock>),
}

#[allow(inconsistent_fields)]
#[derive(Debug, PartialEq)]
pub enum AnthropicContentBlock {
    Text { text: String, cache_control: Option<AnthropicCacheControl> },
    Image { source: AnthropicImageSource, cache_control: Option<AnthropicCacheControl> },
    Document { source: AnthropicDocumentSource, cache_control: Option<AnthropicCacheControl> },
    ToolUse { id: String, name: String, input: Value, cache_control: Option<AnthropicCacheControl> },
    ToolResult {
        tool_use_id: String,
        content: AnthropicToolResultContent,
        is_error: Option<bool>,
        cache_control: Option<AnthropicCacheControl>,
    },
    Thinking { thinking: String, signature: String },
    RedactedThinking { data: String },
}

/// A whole response, or the message that opens a stream.
#[derive(Debug, PartialEq)]
pub struct AnthropicResponse {
    pub id: String,
    pub msg_type: String,
    pub role: String,
    pub content: Vec<AnthropicContentBlock>,
    pub model: String,
    pub stop_reason: Option<String>,
    pub stop_sequence: Option<String>,
    pub usage: AnthropicUsage,
}

#[derive(Debug, PartialEq)]
pub struct AnthropicError {
    pub error_type: String,
    pub message: String,
}

#[derive(Debug, PartialEq)]
pub enum AnthropicDelta {
    TextDelta { text: String },
    InputJsonDelta { partial_json: String },
    ThinkingDelta { thinking: String },
    SignatureDelta { signature: String },
}

#[derive(Debug, PartialEq)]
pub struct AnthropicMessageDelta {
    pub stop_reason: Option<String>,
    pub stop_sequence: Option<String>,
}

/// One event of a stream.
#[allow(inconsistent_fields)]
#[derive(Debug, PartialEq)]
pub enum AnthropicStreamEvent {
    MessageStart { message: AnthropicResponse },
    ContentBlockStart { index: u32, content_block: AnthropicContentBlock },
    ContentBlockDelta { index: u32, delta: AnthropicDelta },
    ContentBlockStop { index: u32 },
    MessageDelta { delta: AnthropicMessageDelta, usage: Option<AnthropicUsage> },
    MessageStop,
    Ping,
    Error { error: AnthropicError },
}

/// The finish reason that a provider's word stands for.
pub open spec fn anthropic_finish(reason: Seq<char>) -> FinishReason {
    if reason == "end_turn"@ {
        FinishReason::Stop
    } else if reason == "max_tokens"@ {
        FinishReason::OutputTokens
    } else if reason == "stop_sequence"@ {
        FinishReason::Stop
    } else if reason == "tool_use"@ {
        FinishReason::ToolCalls
    } else {
        FinishReason::Stop
    }
}

/// The usage that the opening message reports.
pub open spec fn start_usage(usage: AnthropicUsage) -> UsageView {
    UsageView {
        prompt_tokens: Some(usage.input_tokens as nat),
        completion_tokens: Some(usage.output_tokens as nat),
    }
}

/// The usage that a message delta reports: output tokens only.
pub open spec fn delta_usage(usage: Option<AnthropicUsage>) -> UsageView {
    match usage {
        Some(u) => UsageView { prompt_tokens: None, completion_tokens: Some(u.output_tokens as nat) },
        None => UsageView::empty(),
    }
}

/// The open unit that an announced block becomes. Blocks that are neither
/// text, a tool use nor thinking become none.
pub open spec fn block_unit(block: AnthropicContentBlock) -> Option<PartView> {
    match block {
        AnthropicContentBlock::Text { text, .. } => Some(
            PartView::Text { content: text@, finished: false },
        ),
        AnthropicContentBlock::ToolUse { id, name, .. } => Some(
            PartView::FunctionCall {
                id: Some(id@),
                name: name@,
                arguments: json_null(),
                signature: None,
                finished: false,
            },
        ),
        AnthropicContentBlock::Thinking { thinking, signature } => Some(
            PartView::Reasoning {
                content: thinking@,
                summary: None,
                signature: Some(signature@),
                finished: false,
            },
        ),
        _ => None,
    }
}

/// The unit after a delta. Only an open unit of the kind that the delta is
/// for changes; JSON fragments change no unit.
pub open spec fn unit_after_delta(unit: PartView, delta: AnthropicDelta) -> PartView {
    match (unit, delta) {
        (PartView::Text { content, finished: false }, AnthropicDelta::TextDelta { text }) => {
            PartView::Text { content: content + text@, finished: false }
        },
        (
            PartView::Reasoning { content, summary, signature, finished: false },
            AnthropicDelta::ThinkingDelta { thinking },
        ) => PartView::Reasoning {
            content: content + thinking@,
            summary,
            signature,
            finished: false,
        },
        (
            PartView::Reasoning { content, summary, signature: _, finished: false },
            AnthropicDelta::SignatureDelta { signature },
        ) => PartView::Reasoning { content, summary, signature: Some(signature@), finished: false },
        _ => unit,
    }
}

/// The raw JSON text of a unit after a delta: a JSON fragment for an open
/// call is added at its end.
pub open spec fn buffer_after_delta(unit: PartView, buffer: Seq<char>, delta: AnthropicDelta) -> Seq<
    char,
> {
    match (unit, delta) {
        (
            PartView::FunctionCall { finished: false, .. },
            AnthropicDelta::InputJsonDelta { partial_json },
        ) => buffer + partial_json@,
        _ => buffer,
    }
}

/// The unit once it is closed. An open call gets the arguments that its raw
/// JSON text parses to, and keeps the ones it has where the text does not
/// parse. A unit that is closed already does not change.
pub open spec fn unit_stopped(unit: PartView, buffer: Seq<char>) -> PartView {
    match unit {
        PartView::FunctionCall { id, name, arguments, signature, finished: false } => {
            PartView::FunctionCall {
                id,
                name,
                arguments: match parsed_json(buffer) {
                    Some(v) => v,
                    None => arguments,
                },
                signature,
                finished: true,
            }
        },
        _ => unit.close(),
    }
}

/// The state of the decoder.
pub struct AnthropicView {
    pub turn: TurnView,
    /// For each index that was announced, the position of its unit.
    pub positions: Map<u32, usize>,
    /// For each unit, the raw JSON text received for it.
    pub buffers: Seq<Seq<char>>,
}

impl AnthropicView {
    pub open spec fn initial() -> AnthropicView {
        AnthropicView { turn: TurnView::initial(), positions: Map::empty(), buffers: Seq::empty() }
    }

    /// Every unit has its raw text, and the table points at units.
    pub open spec fn wf(self) -> bool {
        &&& self.buffers.len() == self.turn.parts.len()
        &&& forall|index: u32| #[trigger]
            self.positions.contains_key(index) ==> self.positions[index] < self.turn.parts.len()
    }

    /// The position of the unit of a block, if the block was announced.
    pub open spec fn located(self, index: u32) -> Option<int> {
        if self.positions.contains_key(index) {
            Some(self.positions[index] as int)
        } else {
            None
        }
    }

    /// The state after a block is announced.
    pub open spec fn started(self, index: u32, block: AnthropicContentBlock) -> AnthropicView {
        match block_unit(block) {
            Some(unit) => AnthropicView {
                turn: self.turn.pushed(unit),
                positions: self.positions.insert(index, self.turn.parts.len() as usize),
                buffers: self.buffers.push(Seq::empty()),
            },
            None => self,
        }
    }

    /// The state after a delta for a block.
    pub open spec fn changed(self, index: u32, delta: AnthropicDelta) -> AnthropicView {
        match self.located(index) {
            Some(p) => AnthropicView {
                turn: TurnView {
                    parts: self.turn.parts.update(p, unit_after_delta(self.turn.parts[p], delta)),
                    ..self.turn
                },
                positions: self.positions,
                buffers: self.buffers.update(
                    p,
                    buffer_after_delta(self.turn.parts[p], self.buffers[p], delta),
                ),
            },
            None => self,
        }
    }

    /// The state after the stop of a block.
    pub open spec fn stopped(self, index: u32) -> AnthropicView {
        match self.located(index) {
            Some(p) => AnthropicView {
                turn: TurnView {
                    parts: self.turn.parts.update(
                        p,
                        unit_stopped(self.turn.parts[p], self.buffers[p]),
                    ),
                    ..self.turn
                },
                ..self
            },
            None => self,
        }
    }

    /// The state with every unit closed as a stop would close it.
    pub open spec fn all_stopped(self) -> AnthropicView {
        AnthropicView {
            turn: TurnView {
                parts: Seq::new(
                    self.turn.parts.len(),
                    |p: int| unit_stopped(self.turn.parts[p], self.buffers[p]),
                ),
                ..self.turn
            },
            ..self
        }
    }

    /// The state after the message stop: every unit is closed, and a turn
    /// that was not given a stop reason counts as stopped.
    pub open spec fn message_stopped(self) -> AnthropicView {
        let t = self.all_stopped();
        AnthropicView {
            turn: TurnView {
                finish: if t.turn.finish == FinishReason::Unfinished {
                    FinishReason::Stop
                } else {
                    t.turn.finish
                },
                ..t.turn
            },
            ..t
        }
    }

    /// The state after a message delta: its usage is merged in, and a stop
    /// reason ends the turn and closes every unit.
    pub open spec fn ended(self, delta: AnthropicMessageDelta, usage: Option<AnthropicUsage>) -> AnthropicView {
        let s = AnthropicView { turn: self.turn.counted(delta_usage(usage)), ..self };
        match delta.stop_reason {
            Some(reason) => {
                let t = s.all_stopped();
                AnthropicView { turn: TurnView { finish: anthropic_finish(reason@), ..t.turn }, ..t }
            },
            None => s,
        }
    }

    /// The state after an event that is not an error.
    pub open spec fn after(self, event: AnthropicStreamEvent) -> AnthropicView {
        match event {
            AnthropicStreamEvent::MessageStart { message } => AnthropicView {
                turn: self.turn.counted(start_usage(message.usage)),
                ..self
            },
            AnthropicStreamEvent::ContentBlockStart { index, content_block } => self.started(
                index,
                content_block,
            ),
            AnthropicStreamEvent::ContentBlockDelta { index, delta } => self.changed(index, delta),
            AnthropicStreamEvent::ContentBlockStop { index } => self.stopped(index),
            AnthropicStreamEvent::MessageDelta { delta, usage } => self.ended(delta, usage),
            AnthropicStreamEvent::MessageStop => self.message_stopped(),
            AnthropicStreamEvent::Ping => self,
            AnthropicStreamEvent::Error { .. } => self,
        }
    }

    /// Whether the totals stay within 32 bits when the event is counted.
    pub open spec fn accepts(self, event: AnthropicStreamEvent) -> bool {
        match event {
            AnthropicStreamEvent::MessageStart { message } => self.turn.usage.merge(
                start_usage(message.usage),
            ).fits(),
            AnthropicStreamEvent::MessageDelta { usage, .. } => self.turn.usage.merge(
                delta_usage(usage),
            ).fits(),
            _ => true,
        }
    }
}

/// Whether an event ends the turn: a message stop, or a message delta with
/// a stop reason.
pub open spec fn is_stop_signal(event: AnthropicStreamEvent) -> bool {
    match event {
        AnthropicStreamEvent::MessageStop => true,
        AnthropicStreamEvent::MessageDelta { delta, .. } => delta.stop_reason is Some,
        _ => false,
    }
}

/// The message of the error that an error event aborts the stream with.
pub open spec fn stream_error(error: AnthropicError) -> Seq<char> {
    "Stream error ("@ + error.error_type@ + "): "@ + error.message@
}

/// What applying an event returns: an error event aborts the stream, a
/// ping shows nothing new, and every other event yields a snapshot.
pub open spec fn outcome(event: AnthropicStreamEvent) -> Result<bool, ClientErrorView> {
    match event {
        AnthropicStreamEvent::Error { error } => Err(
            ClientErrorView::ProviderError(stream_error(error)),
        ),
        AnthropicStreamEvent::Ping => Ok(false),
        _ => Ok(true),
    }
}

/// The view of what applying an event returned.
pub open spec fn outcome_view(r: Result<bool, ClientError>) -> Result<bool, ClientErrorView> {
    match r {
        Ok(b) => Ok(b),
        Err(e) => Err(e@),
    }
}

/// The views of the raw texts.
pub open spec fn buffer_views(v: Seq<String>) -> Seq<Seq<char>> {
    v.map_values(|s: String| s@)
}

/// A stop closes every unit it is applied to.
pub proof fn stop_closes(unit: PartView, buffer: Seq<char>)
    ensures
        unit_stopped(unit, buffer).finished(),
{
}

/// The state after a sequence of events, taken in order.
pub open spec fn after_events(s: AnthropicView, events: Seq<AnthropicStreamEvent>) -> AnthropicView
    decreases events.len(),
{
    if events.len() == 0 {
        s
    } else {
        after_events(s, events.drop_last()).after(events.last())
    }
}

/// A stream that ends in a stop signal leaves no unit open, whatever came
/// before.
pub proof fn stop_signal_closes_every_unit(s: AnthropicView, events: Seq<AnthropicStreamEvent>)
    requires
        events.len() > 0,
        is_stop_signal(events.last()),
    ensures
        all_finished(after_events(s, events).turn.parts),
        after_events(s, events).turn.finish.is_terminal(),
{
    let before = after_events(s, events.drop_last());
    match events.last() {
        AnthropicStreamEvent::MessageDelta { delta, usage } => {
            let c = AnthropicView { turn: before.turn.counted(delta_usage(usage)), ..before };
            assert forall|i: int| 0 <= i < c.all_stopped().turn.parts.len() implies (
            #[trigger] c.all_stopped().turn.parts[i]).finished() by {
                stop_closes(c.turn.parts[i], c.buffers[i]);
            }
        },
        _ => {
            assert forall|i: int| 0 <= i < before.message_stopped().turn.parts.len() implies (
            #[trigger] before.message_stopped().turn.parts[i]).finished() by {
                stop_closes(before.turn.parts[i], before.buffers[i]);
            }
        },
    }
}

/// An event never changes a unit that is closed, and never removes a unit.
pub proof fn event_respects_finished(s: AnthropicView, event: AnthropicStreamEvent)
    requires
        s.wf(),
    ensures
        keeps_finished(s.turn.parts, s.after(event).turn.parts),
{
    match event {
        AnthropicStreamEvent::MessageDelta { delta, usage } => {
            let c = AnthropicView { turn: s.turn.counted(delta_usage(usage)), ..s };
            assert forall|i: int|
                0 <= i < s.turn.parts.len() && (#[trigger] s.turn.parts[i]).finished() implies s.after(
                event,
            ).turn.parts[i] == s.turn.parts[i] by {
                close_changes_the_flag_only(s.turn.parts[i]);
            }
        },
        AnthropicStreamEvent::MessageStop => {
            assert forall|i: int|
                0 <= i < s.turn.parts.len() && (#[trigger] s.turn.parts[i]).finished() implies s.after(
                event,
            ).turn.parts[i] == s.turn.parts[i] by {
                close_changes_the_flag_only(s.turn.parts[i]);
            }
        },
        _ => {},
    }
}

/// A stream never changes a unit once it is closed, whatever arrives.
pub proof fn stream_respects_finished(s: AnthropicView, events: Seq<AnthropicStreamEvent>)
    requires
        s.wf(),
        s.turn.parts.len() + events.len() < usize::MAX,
    ensures
        after_events(s, events).wf(),
        after_events(s, events).turn.parts.len() <= s.turn.parts.len() + events.len(),
        keeps_finished(s.turn.parts, after_events(s, events).turn.parts),
    decreases events.len(),
{
    if events.len() > 0 {
        let before = after_events(s, events.drop_last());
        stream_respects_finished(s, events.drop_last());
        events_preserve_wf(before, events.last());
        event_respects_finished(before, events.last());
        keeps_finished_chains(s.turn.parts, before.turn.parts, before.after(events.last()).turn.parts);
    }
}

/// A ping leaves the decoder as it was, so showing the turn again after
/// it is safe.
pub proof fn ping_changes_nothing(s: AnthropicView)
    ensures
        s.after(AnthropicStreamEvent::Ping) == s,
        outcome(AnthropicStreamEvent::Ping) == Ok::<bool, ClientErrorView>(false),
{
}

/// Every event keeps the table and the raw texts in step with the units.
pub proof fn events_preserve_wf(s: AnthropicView, event: AnthropicStreamEvent)
    requires
        s.wf(),
        s.turn.parts.len() < usize::MAX,
    ensures
        s.after(event).wf(),
        s.after(event).turn.parts.len() <= s.turn.parts.len() + 1,
{
}

/// A delta for one block leaves the unit and the raw text of every other
/// block as they were.
pub proof fn delta_touches_one_block(s: AnthropicView, index: u32, delta: AnthropicDelta, other: u32)
    requires
        s.wf(),
        s.located(other) is Some,
        s.located(other) != s.located(index),
    ensures
        s.changed(index, delta).located(other) == s.located(other),
        s.changed(index, delta).turn.parts[s.located(other)->0] == s.turn.parts[s.located(
            other,
        )->0],
        s.changed(index, delta).buffers[s.located(other)->0] == s.buffers[s.located(other)->0],
{
}

/// Deltas for two different blocks can arrive in either order: the state
/// after both is the same.
pub proof fn deltas_of_two_blocks_commute(
    s: AnthropicView,
    i: u32,
    a: AnthropicDelta,
    j: u32,
    b: AnthropicDelta,
)
    requires
        s.wf(),
        s.located(i) != s.located(j) || s.located(i) is None,
    ensures
        s.changed(i, a).changed(j, b) == s.changed(j, b).changed(i, a),
{
    let x = s.changed(i, a).changed(j, b);
    let y = s.changed(j, b).changed(i, a);
    assert(x.turn.parts =~= y.turn.parts);
    assert(x.buffers =~= y.buffers);
}

/// JSON fragments for one call accumulate in arrival order: after two
/// fragments the raw text ends with the first, then the second.
pub proof fn fragments_accumulate_in_order(
    s: AnthropicView,
    index: u32,
    first: String,
    second: String,
)
    requires
        s.wf(),
        s.located(index) matches Some(p) && s.turn.parts[p] matches PartView::FunctionCall {
            finished: false,
            ..
        },
    ensures
        ({
            let p = s.located(index)->0;
            let t = s.changed(index, AnthropicDelta::InputJsonDelta { partial_json: first }).changed(
                index,
                AnthropicDelta::InputJsonDelta { partial_json: second },
            );
            t.buffers[p] == s.buffers[p] + first@ + second@ && t.turn.parts == s.turn.parts
        }),
{
    let p = s.located(index)->0;
    let m = s.changed(index, AnthropicDelta::InputJsonDelta { partial_json: first });
    let t = m.changed(index, AnthropicDelta::InputJsonDelta { partial_json: second });
    assert(m.turn.parts =~= s.turn.parts);
    assert(t.turn.parts =~= s.turn.parts);
}

/// The unit that a block of a whole response becomes, closed from the
/// start. Only text, tool use and thinking have one.
pub open spec fn whole_unit(block: AnthropicContentBlock) -> Option<PartView> {
    match block {
        AnthropicContentBlock::Text { text, .. } => Some(
            PartView::Text { content: text@, finished: true },
        ),
        AnthropicContentBlock::ToolUse { id, name, input, .. } => Some(
            PartView::FunctionCall {
                id: Some(id@),
                name: name@,
                arguments: input,
                signature: None,
                finished: true,
            },
        ),
        AnthropicContentBlock::Thinking { thinking, signature } => Some(
            PartView::Reasoning {
                content: thinking@,
                summary: None,
                signature: Some(signature@),
                finished: true,
            },
        ),
        _ => None,
    }
}

/// The units of a whole response: one for each block that has one, in
/// order.
pub open spec fn whole_units(blocks: Seq<AnthropicContentBlock>) -> Seq<PartView>
    decreases blocks.len(),
{
    if blocks.len() == 0 {
        Seq::empty()
    } else {
        match whole_unit(blocks.last()) {
            Some(unit) => whole_units(blocks.drop_last()).push(unit),
            None => whole_units(blocks.drop_last()),
        }
    }
}

/// The response that a whole provider response stands for.
pub open spec fn whole_response(resp: AnthropicResponse) -> ResponseView {
    ResponseView {
        data: seq![MessageView { role: Role::Assistant, parts: whole_units(resp.content@) }],
        usage: start_usage(resp.usage),
        finish: match resp.stop_reason {
            Some(reason) => anthropic_finish(reason@),
            None => FinishReason::Stop,
        },
    }
}

/// Every unit of a whole response is closed.
pub proof fn whole_units_are_finished(blocks: Seq<AnthropicContentBlock>)
    ensures
        all_finished(whole_units(blocks)),
    decreases blocks.len(),
{
    if blocks.len() > 0 {
        whole_units_are_finished(blocks.drop_last());
    }
}

fn whole_unit_of(block: &AnthropicContentBlock) -> (r: Option<Part>)
    ensures
        r is Some <==> whole_unit(*block) is Some,
        r matches Some(unit) ==> Some(unit@) == whole_unit(*block),
{
    match block {
        AnthropicContentBlock::Text { text, .. } => Some(
            Part::Text { content: text.clone(), finished: true },
        ),
        AnthropicContentBlock::ToolUse { id, name, input, .. } => Some(
            Part::FunctionCall {
                id: Some(id.clone()),
                name: name.clone(),
                arguments: input.clone(),
                signature: None,
                finished: true,
            },
        ),
        AnthropicContentBlock::Thinking { thinking, signature } => Some(
            Part::Reasoning {
                content: thinking.clone(),
                summary: None,
                signature: Some(signature.clone()),
                finished: true,
            },
        ),
        _ => None,
    }
}

impl AnthropicResponse {
    /// Decodes a whole response: one closed unit for each text, tool use
    /// and thinking block, with the usage it reports and the reason it
    /// ended.
    pub fn to_response(&self) -> (r: Response)
        ensures
            r@ == whole_response(*self),
            r@.finish.is_terminal(),
            all_finished(r@.data[0].parts),
    {
        let mut turn = Turn::new();
        let blocks = &self.content;
        let mut i: usize = 0;
        while i < blocks.len()
            invariant
                i <= blocks.len(),
                turn@.parts == whole_units(blocks@.take(i as int)),
                turn@.usage == UsageView::empty(),
                turn.finish == FinishReason::Unfinished,
            decreases blocks.len() - i,
        {
            assert(blocks@.take(i + 1).drop_last() =~= blocks@.take(i as int));
            match whole_unit_of(&blocks[i]) {
                Some(unit) => {
                    turn.push(unit);
                },
                None => {},
            }
            i += 1;
        }
        assert(blocks@.take(i as int) =~= blocks@);
        proof {
            whole_units_are_finished(blocks@);
        }
        turn.usage = Usage {
            prompt_tokens: Some(self.usage.input_tokens),
            completion_tokens: Some(self.usage.output_tokens),
        };
        turn.finish = match &self.stop_reason {
            Some(reason) => stop_reason_of(reason.as_str()),
            None => FinishReason::Stop,
        };
        turn.into_response()
    }
}

/// The decoder of a stream of events.
#[derive(Debug, PartialEq)]
pub struct AnthropicStream {
    turn: Turn,
    positions: HashMap<u32, usize>,
    buffers: Vec<String>,
}

impl View for AnthropicStream {
    type V = AnthropicView;

    closed spec fn view(&self) -> AnthropicView {
        AnthropicView {
            turn: self.turn@,
            positions: self.positions@,
            buffers: buffer_views(self.buffers@),
        }
    }
}

/// Maps a provider's stop word.
pub fn stop_reason_of(reason: &str) -> (r: FinishReason)
    ensures
        r == anthropic_finish(reason@),
{
    if same_text(reason, "end_turn") {
        FinishReason::Stop
    } else if same_text(reason, "max_tokens") {
        FinishReason::OutputTokens
    } else if same_text(reason, "stop_sequence") {
        FinishReason::Stop
    } else if same_text(reason, "tool_use") {
        FinishReason::ToolCalls
    } else {
        FinishReason::Stop
    }
}

/// Closes one unit as a stop does.
fn stop_unit(unit: &mut Part, buffer: &str)
    ensures
        final(unit)@ == unit_stopped(old(unit)@, buffer@),
{
    match unit {
        Part::FunctionCall { arguments, finished, .. } => {
            if !*finished {
                match parse_json(buffer) {
                    Some(v) => {
                        *arguments = v;
                    },
                    None => {},
                }
                *finished = true;
            }
        },
        _ => {
            unit.finish();
        },
    }
}

impl AnthropicStream {
    /// A decoder that has seen nothing.
    pub fn new() -> (r: AnthropicStream)
        ensures
            r@ == AnthropicView::initial(),
            r@.wf(),
    {
        let r = AnthropicStream { turn: Turn::new(), positions: HashMap::new(), buffers: Vec::new() };
        assert(r@.buffers =~= Seq::empty());
        r
    }

    fn locate(&self, index: u32) -> (r: Option<usize>)
        requires
            self@.wf(),
        ensures
            r is Some <==> self@.located(index) is Some,
            r matches Some(p) ==> self@.located(index) == Some(p as int) && p
                < self.turn.parts.len() && p < self.buffers.len(),
    {
        match self.positions.get(&index) {
            Some(p) => {
                assert(self@.positions.contains_key(index));
                assert(self.turn@.parts.len() == self.turn.parts.len());
                assert(self@.buffers.len() == self.buffers.len());
                Some(*p)
            },
            None => None,
        }
    }

    fn start(&mut self, index: u32, block: &AnthropicContentBlock)
        requires
            old(self)@.wf(),
        ensures
            final(self)@ == old(self)@.started(index, *block),
            final(self)@.wf(),
    {
        let unit = match block {
            AnthropicContentBlock::Text { text, .. } => Some(
                Part::Text { content: text.clone(), finished: false },
            ),
            AnthropicContentBlock::ToolUse { id, name, .. } => Some(
                Part::FunctionCall {
                    id: Some(id.clone()),
                    name: name.clone(),
                    arguments: null_value(),
                    signature: None,
                    finished: false,
                },
            ),
            AnthropicContentBlock::Thinking { thinking, signature } => Some(
                Part::Reasoning {
                    content: thinking.clone(),
                    summary: None,
                    signature: Some(signature.clone()),
                    finished: false,
                },
            ),
            _ => None,
        };
        match unit {
            Some(unit) => {
                let n = self.turn.parts.len();
                assert(self.turn@.parts.len() == n);
                self.turn.push(unit);
                self.positions.insert(index, n);
                self.buffers.push(String::new());
                assert(self@.buffers =~= old(self)@.buffers.push(Seq::empty()));
                assert(self@.positions == old(self)@.positions.insert(index, n));
            },
            None => {},
        }
    }

    fn change(&mut self, index: u32, delta: &AnthropicDelta)
        requires
            old(self)@.wf(),
        ensures
            final(self)@ == old(self)@.changed(index, *delta),
            final(self)@.wf(),
    {
        match self.locate(index) {
            Some(p) => {
                let ghost unit = self.turn.parts[p as int]@;
                let mut buffered = false;
                match (&mut self.turn.parts[p], delta) {
                    (Part::Text { content, finished }, AnthropicDelta::TextDelta { text }) => {
                        if !*finished {
                            content.append(text.as_str());
                        }
                    },
                    (
                        Part::Reasoning { content, finished, .. },
                        AnthropicDelta::ThinkingDelta { thinking },
                    ) => {
                        if !*finished {
                            content.append(thinking.as_str());
                        }
                    },
                    (
                        Part::Reasoning { signature: held, finished, .. },
                        AnthropicDelta::SignatureDelta { signature },
                    ) => {
                        if !*finished {
                            *held = Some(signature.clone());
                        }
                    },
                    (
                        Part::FunctionCall { finished, .. },
                        AnthropicDelta::InputJsonDelta { partial_json },
                    ) => {
                        if !*finished {
                            buffered = true;
                        }
                    },
                    _ => {},
                }
                assert(self.turn.parts[p as int]@ == unit_after_delta(unit, *delta));
                if buffered {
                    match delta {
                        AnthropicDelta::InputJsonDelta { partial_json } => {
                            self.buffers[p].append(partial_json.as_str());
                        },
                        _ => {},
                    }
                }
                assert(self@.turn.parts =~= old(self)@.changed(index, *delta).turn.parts);
                assert(self@.buffers =~= old(self)@.changed(index, *delta).buffers);
            },
            None => {},
        }
    }

    fn stop(&mut self, index: u32)
        requires
            old(self)@.wf(),
        ensures
            final(self)@ == old(self)@.stopped(index),
            final(self)@.wf(),
    {
        match self.locate(index) {
            Some(p) => {
                stop_unit(&mut self.turn.parts[p], self.buffers[p].as_str());
                assert(self@.turn.parts =~= old(self)@.stopped(index).turn.parts);
            },
            None => {},
        }
    }

    fn stop_all(&mut self)
        requires
            old(self)@.wf(),
        ensures
            final(self)@ == old(self)@.all_stopped(),
            final(self)@.wf(),
            all_finished(final(self)@.turn.parts),
    {
        let n = self.turn.parts.len();
        assert(self.turn@.parts.len() == n);
        assert(self@.buffers.len() == self.buffers.len());
        let mut i: usize = 0;
        while i < n
            invariant
                i <= n,
                n == self.turn.parts.len(),
                n == self.buffers.len(),
                self.buffers == old(self).buffers,
                self.positions == old(self).positions,
                self.turn.usage == old(self).turn.usage,
                self.turn.finish == old(self).turn.finish,
                old(self).turn.parts.len() == n,
                forall|j: int|
                    0 <= j < i ==> self.turn.parts[j]@ == unit_stopped(
                        old(self).turn.parts[j]@,
                        old(self).buffers[j]@,
                    ),
                forall|j: int| i <= j < n ==> self.turn.parts[j] == old(self).turn.parts[j],
            decreases n - i,
        {
            stop_unit(&mut self.turn.parts[i], self.buffers[i].as_str());
            i += 1;
        }
        assert(self@.turn.parts =~= old(self)@.all_stopped().turn.parts);
    }

    /// Whether `apply` can take the event: the usage it reports, merged
    /// into the totals, must stay within 32 bits.
    pub fn can_apply(&self, event: &AnthropicStreamEvent) -> (r: bool)
        ensures
            r == self@.accepts(*event),
    {
        match event {
            AnthropicStreamEvent::MessageStart { message } => self.turn.usage.can_merge(
                &Usage {
                    prompt_tokens: Some(message.usage.input_tokens),
                    completion_tokens: Some(message.usage.output_tokens),
                },
            ),
            AnthropicStreamEvent::MessageDelta { usage, .. } => match usage {
                Some(u) => self.turn.usage.can_merge(
                    &Usage { prompt_tokens: None, completion_tokens: Some(u.output_tokens) },
                ),
                None => self.turn.usage.can_merge(&Usage::default()),
            },
            _ => true,
        }
    }

    /// Applies one event of the stream.
    ///
    /// An error event aborts the stream: it is returned as a provider error
    /// and the turn is left as it was. Otherwise the result says whether
    /// there is something new to show, which holds for every event but a
    /// ping. An event that ends the turn leaves every unit closed.
    pub fn apply(&mut self, event: &AnthropicStreamEvent) -> (r: Result<bool, ClientError>)
        requires
            old(self)@.wf(),
            old(self)@.accepts(*event),
        ensures
            final(self)@.wf(),
            final(self)@ == old(self)@.after(*event),
            outcome_view(r) == outcome(*event),
            is_stop_signal(*event) ==> all_finished(final(self)@.turn.parts)
                && final(self)@.turn.finish.is_terminal(),
    {
        match event {
            AnthropicStreamEvent::MessageStart { message } => {
                self.turn.count(
                    &Usage {
                        prompt_tokens: Some(message.usage.input_tokens),
                        completion_tokens: Some(message.usage.output_tokens),
                    },
                );
                Ok(true)
            },
            AnthropicStreamEvent::ContentBlockStart { index, content_block } => {
                self.start(*index, content_block);
                Ok(true)
            },
            AnthropicStreamEvent::ContentBlockDelta { index, delta } => {
                self.change(*index, delta);
                Ok(true)
            },
            AnthropicStreamEvent::ContentBlockStop { index } => {
                self.stop(*index);
                Ok(true)
            },
            AnthropicStreamEvent::MessageDelta { delta, usage } => {
                match usage {
                    Some(u) => {
                        self.turn.count(
                            &Usage { prompt_tokens: None, completion_tokens: Some(u.output_tokens) },
                        );
                    },
                    None => {
                        self.turn.count(&Usage::default());
                    },
                }
                match &delta.stop_reason {
                    Some(reason) => {
                        self.stop_all();
                        self.turn.finish = stop_reason_of(reason.as_str());
                    },
                    None => {},
                }
                Ok(true)
            },
            AnthropicStreamEvent::MessageStop => {
                self.stop_all();
                if !self.turn.finish.terminal() {
                    self.turn.finish = FinishReason::Stop;
                }
                Ok(true)
            },
            AnthropicStreamEvent::Ping => Ok(false),
            AnthropicStreamEvent::Error { error } => {
                let mut message = concat("Stream error (", error.error_type.as_str());
                message.append("): ");
                message.append(error.message.as_str());
                Err(ClientError::ProviderError(message))
            },
        }
    }

    /// What the turn looks like now.
    pub fn snapshot(&self) -> (r: Response)
        ensures
            r@ == self@.turn.response(),
    {
        self.turn.snapshot()
    }

    /// Ends decoding and hands the turn over.
    pub fn into_response(self) -> (r: Response)
        ensures
            r@ == self@.turn.response(),
    {
        self.turn.into_response()
    }
}

} // verus!
