//! The flat index-keyed delta protocol.
//!
//! A chunk of a stream carries text for the one text unit of the turn and
//! fragments of tool calls. Each fragment names its call by an index that
//! the provider assigns. Indices can arrive in any order: the decoder opens
//! a unit when it first sees an index and adds every later fragment for
//! that index to the same unit. The raw argument text of a call is parsed
//! when the turn finishes.

pub mod request;

use crate::json::{
    empty_object, json_empty_object, json_null, json_string, null_value, parse_json, parsed_json,
    string_value,
};
use crate::model::{
    all_finished, close_changes_the_flag_only, keeps_finished, keeps_finished_chains, FinishReason, MessageView, Part, PartView, Response, ResponseView, Role,
};
use crate::stream::{Turn, TurnView};
use crate::text::same_text;
use crate::usage::{Usage, UsageView};
use std::collections::HashMap;
use vstd::prelude::*;
use vstd::string::StringExecFns;

verus! {

broadcast use vstd::std_specs::hash::group_hash_axioms;

/// Marks the provider options of a model that speaks this protocol.
pub trait OpenAiCompatibleModel: Send + Sync + Default + Clone {

}

#[derive(Debug, PartialEq)]
pub struct OpenAiUsage {
    pub prompt_tokens: u32,
    pub completion_tokens: u32,
}

#[derive(Debug, PartialEq)]
pub struct OpenAiFunctionCall {
    pub name: String,
    pub arguments: String,
}

#[derive(Debug, PartialEq)]
pub struct OpenAiToolCall {
    pub id: String,
    pub call_type: String,
    pub function: OpenAiFunctionCall,
}

#[derive(Debug, PartialEq)]
pub struct OpenAiResponseMessage {
    pub role: String,
    pub content: Option<String>,
    pub tool_calls: Option<Vec<OpenAiToolCall>>,
}

#[derive(Debug, PartialEq)]
pub struct OpenAiChoice {
    pub message: OpenAiResponseMessage,
    pub finish_reason: Option<String>,
}

/// A whole response.
#[derive(Debug, PartialEq)]
pub struct OpenAiResponse {
    pub id: String,
    pub choices: Vec<OpenAiChoice>,
    pub usage: Option<OpenAiUsage>,
}

#[derive(Debug, PartialEq)]
pub struct OpenAiStreamFunction {
    pub name: Option<String>,
    pub arguments: Option<String>,
}

/// A fragment of a tool call.
#[derive(Debug, PartialEq)]
pub struct OpenAiStreamToolCall {
    pub index: u32,
    pub id: Option<String>,
    pub function: Option<OpenAiStreamFunction>,
}

#[derive(Debug, PartialEq)]
pub struct OpenAiDelta {
    pub content: Option<String>,
    pub tool_calls: Option<Vec<OpenAiStreamToolCall>>,
}

#[derive(Debug, PartialEq)]
pub struct OpenAiStreamChoice {
    pub delta: Option<OpenAiDelta>,
    pub finish_reason: Option<String>,
}

/// One chunk of a stream.
#[derive(Debug, PartialEq)]
pub struct OpenAiStreamChunk {
    pub id: String,
    pub choices: Vec<OpenAiStreamChoice>,
    pub usage: Option<OpenAiUsage>,
}

/// The address of the endpoint for chat completions.
pub fn chat_completions_url(base_url: &str) -> (r: String)
    ensures
        r@ == base_url@ + "/chat/completions"@,
{
    crate::text::concat(base_url, "/chat/completions")
}

/// The finish reason that a provider's word stands for.
pub open spec fn openai_finish(reason: Seq<char>) -> FinishReason {
    if reason == "stop"@ {
        FinishReason::Stop
    } else if reason == "length"@ {
        FinishReason::OutputTokens
    } else if reason == "tool_calls"@ {
        FinishReason::ToolCalls
    } else if reason == "content_filter"@ {
        FinishReason::ContentFilter
    } else {
        FinishReason::Stop
    }
}

/// The usage that a chunk or a response reports.
pub open spec fn openai_usage(usage: Option<OpenAiUsage>) -> UsageView {
    match usage {
        Some(u) => UsageView {
            prompt_tokens: Some(u.prompt_tokens as nat),
            completion_tokens: Some(u.completion_tokens as nat),
        },
        None => UsageView::empty(),
    }
}

/// The name fragment that a tool-call fragment carries, empty if none.
pub open spec fn name_fragment(call: OpenAiStreamToolCall) -> Seq<char> {
    match call.function {
        Some(f) => match f.name {
            Some(n) => n@,
            None => Seq::empty(),
        },
        None => Seq::empty(),
    }
}

/// The argument text that a tool-call fragment carries, empty if none.
pub open spec fn arguments_fragment(call: OpenAiStreamToolCall) -> Seq<char> {
    match call.function {
        Some(f) => match f.arguments {
            Some(a) => a@,
            None => Seq::empty(),
        },
        None => Seq::empty(),
    }
}

/// The id of a call after a fragment: an id fragment is added at the end of
/// what has arrived of the id.
pub open spec fn id_after(id: Option<Seq<char>>, fragment: Option<String>) -> Option<Seq<char>> {
    match fragment {
        Some(f) => match id {
            Some(held) => Some(held + f@),
            None => Some(f@),
        },
        None => id,
    }
}

/// The unit that is opened when an index is first seen: a call of which
/// nothing has arrived.
pub open spec fn opened_call() -> PartView {
    PartView::FunctionCall {
        id: None,
        name: Seq::empty(),
        arguments: json_string(Seq::empty()),
        signature: None,
        finished: false,
    }
}

/// The unit after a tool-call fragment. Only an open call changes: the
/// fragments are added at the end of its id, its name and its raw argument
/// text, which it shows as a JSON string until it is closed.
pub open spec fn call_after(unit: PartView, buffer: Seq<char>, call: OpenAiStreamToolCall) -> PartView {
    match unit {
        PartView::FunctionCall { id, name, arguments, signature, finished: false } => {
            PartView::FunctionCall {
                id: id_after(id, call.id),
                name: name + name_fragment(call),
                arguments: json_string(buffer + arguments_fragment(call)),
                signature,
                finished: false,
            }
        },
        _ => unit,
    }
}

/// The raw argument text of a unit after a tool-call fragment.
pub open spec fn buffer_after(unit: PartView, buffer: Seq<char>, call: OpenAiStreamToolCall) -> Seq<
    char,
> {
    match unit {
        PartView::FunctionCall { finished: false, .. } => buffer + arguments_fragment(call),
        _ => buffer,
    }
}

/// The unit after more text. Only an open text unit changes.
pub open spec fn text_after(unit: PartView, text: Seq<char>) -> PartView {
    match unit {
        PartView::Text { content, finished: false } => PartView::Text {
            content: content + text,
            finished: false,
        },
        _ => unit,
    }
}

/// The arguments that raw argument text stands for: what it parses to, and
/// the empty object where it is empty or does not parse.
pub open spec fn arguments_of(buffer: Seq<char>) -> serde_json::Value {
    match parsed_json(buffer) {
        Some(v) => v,
        None => json_empty_object(),
    }
}

/// The unit once the turn finishes. An open call gets the arguments that
/// its raw text stands for. A unit that is closed already does not change.
pub open spec fn unit_finished(unit: PartView, buffer: Seq<char>) -> PartView {
    match unit {
        PartView::FunctionCall { id, name, arguments, signature, finished: false } => {
            PartView::FunctionCall {
                id,
                name,
                arguments: arguments_of(buffer),
                signature,
                finished: true,
            }
        },
        _ => unit.close(),
    }
}

/// What has arrived for one call: its unit and its raw argument text.
pub struct CallSoFar {
    pub unit: PartView,
    pub raw: Seq<char>,
}

/// The state of the decoder.
pub struct OpenAiView {
    pub turn: TurnView,
    /// For each index seen since the last finish, the position of its unit.
    pub positions: Map<u32, usize>,
    /// For each unit, the raw argument text received for it.
    pub buffers: Seq<Seq<char>>,
    /// The position of the open text unit, if there is one.
    pub text: Option<usize>,
}

impl OpenAiView {
    pub open spec fn initial() -> OpenAiView {
        OpenAiView {
            turn: TurnView::initial(),
            positions: Map::empty(),
            buffers: Seq::empty(),
            text: None,
        }
    }

    /// Every unit has its raw text, the table and the text position point
    /// at units, and no two indices share a unit.
    pub open spec fn wf(self) -> bool {
        &&& self.buffers.len() == self.turn.parts.len()
        &&& forall|index: u32| #[trigger]
            self.positions.contains_key(index) ==> self.positions[index] < self.turn.parts.len()
        &&& forall|i: u32, j: u32|
            self.positions.contains_key(i) && self.positions.contains_key(j) && i != j
                ==> self.positions[i] != self.positions[j]
        &&& self.text matches Some(p) ==> p < self.turn.parts.len()
    }

    /// The state with a unit for the index, opened if the index is new.
    pub open spec fn seen(self, index: u32) -> OpenAiView {
        if self.positions.contains_key(index) {
            self
        } else {
            OpenAiView {
                turn: self.turn.pushed(opened_call()),
                positions: self.positions.insert(index, self.turn.parts.len() as usize),
                buffers: self.buffers.push(Seq::empty()),
                text: self.text,
            }
        }
    }

    /// The state after one tool-call fragment.
    pub open spec fn after_call(self, call: OpenAiStreamToolCall) -> OpenAiView {
        let s = self.seen(call.index);
        let p = s.positions[call.index] as int;
        OpenAiView {
            turn: TurnView {
                parts: s.turn.parts.update(p, call_after(s.turn.parts[p], s.buffers[p], call)),
                ..s.turn
            },
            positions: s.positions,
            buffers: s.buffers.update(p, buffer_after(s.turn.parts[p], s.buffers[p], call)),
            text: s.text,
        }
    }

    /// The state after a list of tool-call fragments, taken in order.
    pub open spec fn after_calls(self, calls: Seq<OpenAiStreamToolCall>) -> OpenAiView
        decreases calls.len(),
    {
        if calls.len() == 0 {
            self
        } else {
            self.after_calls(calls.drop_last()).after_call(calls.last())
        }
    }

    /// The state after more text: it goes to the open text unit, which is
    /// opened if there is none.
    pub open spec fn after_text(self, text: Seq<char>) -> OpenAiView {
        match self.text {
            Some(p) => OpenAiView {
                turn: TurnView {
                    parts: self.turn.parts.update(
                        p as int,
                        text_after(self.turn.parts[p as int], text),
                    ),
                    ..self.turn
                },
                ..self
            },
            None => OpenAiView {
                turn: self.turn.pushed(PartView::Text { content: text, finished: false }),
                positions: self.positions,
                buffers: self.buffers.push(Seq::empty()),
                text: Some(self.turn.parts.len() as usize),
            },
        }
    }

    /// The state after a delta: its text first, then its tool-call
    /// fragments.
    pub open spec fn after_delta(self, delta: OpenAiDelta) -> OpenAiView {
        let s = match delta.content {
            Some(text) => self.after_text(text@),
            None => self,
        };
        match delta.tool_calls {
            Some(calls) => s.after_calls(calls@),
            None => s,
        }
    }

    /// The state after a finish reason: every unit is closed, and nothing
    /// that arrives later is added to a unit that exists now.
    pub open spec fn finished(self, reason: Seq<char>) -> OpenAiView {
        OpenAiView {
            turn: TurnView {
                parts: Seq::new(
                    self.turn.parts.len(),
                    |p: int| unit_finished(self.turn.parts[p], self.buffers[p]),
                ),
                usage: self.turn.usage,
                finish: openai_finish(reason),
            },
            positions: Map::empty(),
            buffers: self.buffers,
            text: None,
        }
    }

    /// The state after one choice of a chunk: its delta, then its finish
    /// reason.
    pub open spec fn after_choice(self, choice: OpenAiStreamChoice) -> OpenAiView {
        let s = match choice.delta {
            Some(delta) => self.after_delta(delta),
            None => self,
        };
        match choice.finish_reason {
            Some(reason) => s.finished(reason@),
            None => s,
        }
    }

    /// The state after a list of choices, taken in order.
    pub open spec fn after_choices(self, choices: Seq<OpenAiStreamChoice>) -> OpenAiView
        decreases choices.len(),
    {
        if choices.len() == 0 {
            self
        } else {
            self.after_choices(choices.drop_last()).after_choice(choices.last())
        }
    }

    /// The state after a chunk: its usage is merged into the totals, then
    /// its choices are applied in order.
    pub open spec fn after_chunk(self, chunk: OpenAiStreamChunk) -> OpenAiView {
        OpenAiView { turn: self.turn.counted(openai_usage(chunk.usage)), ..self }.after_choices(
            chunk.choices@,
        )
    }

    /// Whether the totals stay within 32 bits when the chunk is counted.
    pub open spec fn accepts(self, chunk: OpenAiStreamChunk) -> bool {
        self.turn.usage.merge(openai_usage(chunk.usage)).fits()
    }

    /// What has arrived for the call with an index: its unit and its raw
    /// argument text.
    pub open spec fn call_of(self, index: u32) -> Option<CallSoFar> {
        if self.positions.contains_key(index) {
            Some(
                CallSoFar {
                    unit: self.turn.parts[self.positions[index] as int],
                    raw: self.buffers[self.positions[index] as int],
                },
            )
        } else {
            None
        }
    }
}

/// Whether the last choice of a chunk carries a finish reason.
pub open spec fn ends_turn(chunk: OpenAiStreamChunk) -> bool {
    chunk.choices.len() > 0 && chunk.choices@.last().finish_reason is Some
}

/// The views of the raw texts.
pub open spec fn buffer_views(v: Seq<String>) -> Seq<Seq<char>> {
    v.map_values(|s: String| s@)
}

/// The state after a sequence of chunks, taken in order.
pub open spec fn after_chunks(s: OpenAiView, chunks: Seq<OpenAiStreamChunk>) -> OpenAiView
    decreases chunks.len(),
{
    if chunks.len() == 0 {
        s
    } else {
        after_chunks(s, chunks.drop_last()).after_chunk(chunks.last())
    }
}

/// The end of a turn closes every unit it is applied to.
pub proof fn finish_closes(s: OpenAiView, reason: Seq<char>)
    ensures
        all_finished(s.finished(reason).turn.parts),
{
}

/// A stream that ends in a chunk whose last choice carries a finish reason
/// leaves no unit open, whatever came before.
pub proof fn finish_closes_every_unit(s: OpenAiView, chunks: Seq<OpenAiStreamChunk>)
    requires
        chunks.len() > 0,
        ends_turn(chunks.last()),
    ensures
        all_finished(after_chunks(s, chunks).turn.parts),
{
    let before = after_chunks(s, chunks.drop_last());
    let counted = OpenAiView {
        turn: before.turn.counted(openai_usage(chunks.last().usage)),
        ..before
    };
    let choices = chunks.last().choices@;
    let choice = choices.last();
    let r = counted.after_choices(choices.drop_last());
    let d = match choice.delta {
        Some(delta) => r.after_delta(delta),
        None => r,
    };
    finish_closes(d, choice.finish_reason->0@);
}

/// A tool-call fragment keeps the table and the raw texts in step with the
/// units.
pub proof fn call_preserves_wf(s: OpenAiView, call: OpenAiStreamToolCall)
    requires
        s.wf(),
        s.turn.parts.len() < usize::MAX,
    ensures
        s.after_call(call).wf(),
        s.after_call(call).turn.parts.len() <= s.turn.parts.len() + 1,
{
}

/// A tool-call fragment never changes a unit that is closed.
pub proof fn call_respects_finished(s: OpenAiView, call: OpenAiStreamToolCall)
    requires
        s.wf(),
        s.turn.parts.len() < usize::MAX,
    ensures
        keeps_finished(s.turn.parts, s.after_call(call).turn.parts),
{
}

/// A list of tool-call fragments never changes a unit that is closed.
pub proof fn calls_respect_finished(s: OpenAiView, calls: Seq<OpenAiStreamToolCall>)
    requires
        s.wf(),
        s.turn.parts.len() + calls.len() < usize::MAX,
    ensures
        s.after_calls(calls).wf(),
        s.after_calls(calls).turn.parts.len() <= s.turn.parts.len() + calls.len(),
        keeps_finished(s.turn.parts, s.after_calls(calls).turn.parts),
    decreases calls.len(),
{
    if calls.len() > 0 {
        let before = s.after_calls(calls.drop_last());
        calls_respect_finished(s, calls.drop_last());
        call_preserves_wf(before, calls.last());
        call_respects_finished(before, calls.last());
        keeps_finished_chains(s.turn.parts, before.turn.parts, s.after_calls(calls).turn.parts);
    }
}

/// The number of units that a choice can add: one for its text and one for
/// each of its tool-call fragments.
pub open spec fn choice_size(choice: OpenAiStreamChoice) -> nat {
    match choice.delta {
        Some(delta) => match delta.tool_calls {
            Some(calls) => (calls@.len() + 1) as nat,
            None => 1,
        },
        None => 0,
    }
}

/// A choice never changes a unit that is closed, and never removes a
/// unit.
pub proof fn choice_respects_finished(s: OpenAiView, choice: OpenAiStreamChoice)
    requires
        s.wf(),
        s.turn.parts.len() + choice_size(choice) < usize::MAX,
    ensures
        s.after_choice(choice).wf(),
        s.after_choice(choice).turn.parts.len() <= s.turn.parts.len() + choice_size(choice),
        keeps_finished(s.turn.parts, s.after_choice(choice).turn.parts),
{
    let d = match choice.delta {
        Some(delta) => {
            let t = match delta.content {
                Some(text) => s.after_text(text@),
                None => s,
            };
            match delta.tool_calls {
                Some(calls) => {
                    calls_respect_finished(t, calls@);
                    keeps_finished_chains(
                        s.turn.parts,
                        t.turn.parts,
                        t.after_calls(calls@).turn.parts,
                    );
                    t.after_calls(calls@)
                },
                None => t,
            }
        },
        None => s,
    };
    match choice.finish_reason {
        Some(reason) => {
            assert forall|i: int|
                0 <= i < d.turn.parts.len() && (#[trigger] d.turn.parts[i]).finished() implies d.finished(
                reason@,
            ).turn.parts[i] == d.turn.parts[i] by {
                close_changes_the_flag_only(d.turn.parts[i]);
            }
            keeps_finished_chains(s.turn.parts, d.turn.parts, d.finished(reason@).turn.parts);
        },
        None => {},
    }
}

/// The number of units that a list of choices can add.
pub open spec fn choices_size(choices: Seq<OpenAiStreamChoice>) -> nat
    decreases choices.len(),
{
    if choices.len() == 0 {
        0
    } else {
        choices_size(choices.drop_last()) + choice_size(choices.last())
    }
}

/// A list of choices never changes a unit that is closed.
pub proof fn choices_respect_finished(s: OpenAiView, choices: Seq<OpenAiStreamChoice>)
    requires
        s.wf(),
        s.turn.parts.len() + choices_size(choices) < usize::MAX,
    ensures
        s.after_choices(choices).wf(),
        s.after_choices(choices).turn.parts.len() <= s.turn.parts.len() + choices_size(choices),
        keeps_finished(s.turn.parts, s.after_choices(choices).turn.parts),
    decreases choices.len(),
{
    if choices.len() > 0 {
        let before = s.after_choices(choices.drop_last());
        choices_respect_finished(s, choices.drop_last());
        choice_respects_finished(before, choices.last());
        keeps_finished_chains(s.turn.parts, before.turn.parts, s.after_choices(choices).turn.parts);
    }
}

/// A chunk never changes a unit once it is closed, and keeps the table in
/// step with the units.
pub proof fn chunk_respects_finished(s: OpenAiView, chunk: OpenAiStreamChunk)
    requires
        s.wf(),
        s.turn.parts.len() + choices_size(chunk.choices@) < usize::MAX,
    ensures
        s.after_chunk(chunk).wf(),
        keeps_finished(s.turn.parts, s.after_chunk(chunk).turn.parts),
{
    choices_respect_finished(
        OpenAiView { turn: s.turn.counted(openai_usage(chunk.usage)), ..s },
        chunk.choices@,
    );
}

/// A chunk without choices and without usage leaves the decoder as it was,
/// so showing the turn again after it is safe.
pub proof fn empty_chunk_changes_nothing(s: OpenAiView, chunk: OpenAiStreamChunk)
    requires
        chunk.usage is None,
        chunk.choices.len() == 0,
    ensures
        s.after_chunk(chunk) == s,
{
    assert(s.turn.counted(openai_usage(chunk.usage)) == s.turn);
}

/// Fragments for two different indices can arrive in either order: what
/// has arrived for any one index is the same afterwards. Only the
/// positions of the units depend on the order.
pub proof fn calls_of_two_indices_commute(
    s: OpenAiView,
    a: OpenAiStreamToolCall,
    b: OpenAiStreamToolCall,
    index: u32,
)
    requires
        s.wf(),
        s.turn.parts.len() + 1 < usize::MAX,
        a.index != b.index,
    ensures
        s.after_call(a).after_call(b).call_of(index) == s.after_call(b).after_call(a).call_of(
            index,
        ),
{
    call_preserves_wf(s, a);
    call_preserves_wf(s, b);
}

/// Fragments for one index accumulate in arrival order: after two of them
/// the name and the raw argument text end with the first, then the second.
pub proof fn fragments_accumulate_in_order(
    s: OpenAiView,
    a: OpenAiStreamToolCall,
    b: OpenAiStreamToolCall,
)
    requires
        s.wf(),
        s.turn.parts.len() < usize::MAX,
        a.index == b.index,
        s.seen(a.index).call_of(a.index) matches Some(c) && c.unit matches PartView::FunctionCall {
            finished: false,
            ..
        },
    ensures
        ({
            let before = s.seen(a.index).call_of(a.index)->0;
            let after = s.after_call(a).after_call(b).call_of(a.index)->0;
            &&& after.raw == before.raw + arguments_fragment(a) + arguments_fragment(b)
            &&& after.unit->FunctionCall_name == before.unit->FunctionCall_name + name_fragment(a)
                + name_fragment(b)
            &&& after.unit->FunctionCall_arguments == json_string(after.raw)
            &&& !after.unit.finished()
        }),
{
    call_preserves_wf(s, a);
}

/// The unit that a tool call of a whole response becomes. Its arguments
/// are what the argument text parses to, and null where it does not parse.
pub open spec fn whole_call(call: OpenAiToolCall) -> PartView {
    PartView::FunctionCall {
        id: Some(call.id@),
        name: call.function.name@,
        arguments: match parsed_json(call.function.arguments@) {
            Some(v) => v,
            None => json_null(),
        },
        signature: None,
        finished: true,
    }
}

/// The units of the message of a whole response: its text, if it has any,
/// then its tool calls in order.
pub open spec fn whole_units(message: OpenAiResponseMessage) -> Seq<PartView> {
    let text = match message.content {
        Some(content) => seq![PartView::Text { content: content@, finished: true }],
        None => Seq::empty(),
    };
    let calls = match message.tool_calls {
        Some(calls) => calls@.map_values(|c: OpenAiToolCall| whole_call(c)),
        None => Seq::empty(),
    };
    text + calls
}

/// The response that a whole provider response stands for: the message of
/// its first choice.
pub open spec fn whole_response(resp: OpenAiResponse) -> ResponseView {
    let parts = if resp.choices.len() > 0 {
        whole_units(resp.choices[0].message)
    } else {
        Seq::empty()
    };
    let finish = if resp.choices.len() > 0 {
        match resp.choices[0].finish_reason {
            Some(reason) => openai_finish(reason@),
            None => FinishReason::Stop,
        }
    } else {
        FinishReason::Stop
    };
    ResponseView {
        data: seq![MessageView { role: Role::Assistant, parts }],
        usage: openai_usage(resp.usage),
        finish,
    }
}

impl OpenAiResponse {
    /// Decodes a whole response: the text and the tool calls of its first
    /// choice as closed units, with the usage it reports and the reason it
    /// ended.
    pub fn to_response(&self) -> (r: Response)
        ensures
            r@ == whole_response(*self),
            r@.finish.is_terminal(),
            all_finished(r@.data[0].parts),
    {
        let mut turn = Turn::new();
        turn.finish = FinishReason::Stop;
        if self.choices.len() > 0 {
            let choice = &self.choices[0];
            match &choice.message.content {
                Some(content) => {
                    turn.push(Part::Text { content: content.clone(), finished: true });
                },
                None => {},
            }
            let ghost text = turn@.parts;
            match &choice.message.tool_calls {
                Some(calls) => {
                    let mut i: usize = 0;
                    while i < calls.len()
                        invariant
                            i <= calls.len(),
                            turn@.parts == text + calls@.take(i as int).map_values(
                                |c: OpenAiToolCall| whole_call(c),
                            ),
                            turn@.usage == UsageView::empty(),
                            turn.finish == FinishReason::Stop,
                        decreases calls.len() - i,
                    {
                        let call = &calls[i];
                        let arguments = match parse_json(call.function.arguments.as_str()) {
                            Some(v) => v,
                            None => null_value(),
                        };
                        turn.push(
                            Part::FunctionCall {
                                id: Some(call.id.clone()),
                                name: call.function.name.clone(),
                                arguments,
                                signature: None,
                                finished: true,
                            },
                        );
                        assert(turn@.parts =~= text + calls@.take(i + 1).map_values(
                            |c: OpenAiToolCall| whole_call(c),
                        ));
                        i += 1;
                    }
                    assert(calls@.take(i as int) =~= calls@);
                },
                None => {
                    assert(turn@.parts =~= text + Seq::<PartView>::empty());
                },
            }
            assert(turn@.parts == whole_units(choice.message));
            turn.finish = match &choice.finish_reason {
                Some(reason) => finish_reason_of(reason.as_str()),
                None => FinishReason::Stop,
            };
        }
        turn.usage = usage_of(&self.usage);
        turn.into_response()
    }
}

/// The decoder of a stream of chunks.
#[derive(Debug, PartialEq)]
pub struct OpenAiStream {
    turn: Turn,
    positions: HashMap<u32, usize>,
    buffers: Vec<String>,
    text: Option<usize>,
}

impl View for OpenAiStream {
    type V = OpenAiView;

    closed spec fn view(&self) -> OpenAiView {
        OpenAiView {
            turn: self.turn@,
            positions: self.positions@,
            buffers: buffer_views(self.buffers@),
            text: self.text,
        }
    }
}

/// Maps a provider's finish word.
pub fn finish_reason_of(reason: &str) -> (r: FinishReason)
    ensures
        r == openai_finish(reason@),
{
    if same_text(reason, "stop") {
        FinishReason::Stop
    } else if same_text(reason, "length") {
        FinishReason::OutputTokens
    } else if same_text(reason, "tool_calls") {
        FinishReason::ToolCalls
    } else if same_text(reason, "content_filter") {
        FinishReason::ContentFilter
    } else {
        FinishReason::Stop
    }
}

/// The usage that a chunk or a response reports.
pub fn usage_of(usage: &Option<OpenAiUsage>) -> (r: Usage)
    ensures
        r@ == openai_usage(*usage),
{
    match usage {
        Some(u) => Usage {
            prompt_tokens: Some(u.prompt_tokens),
            completion_tokens: Some(u.completion_tokens),
        },
        None => Usage::default(),
    }
}

/// Closes one unit as the end of the turn does.
fn finish_unit(unit: &mut Part, buffer: &str)
    ensures
        final(unit)@ == unit_finished(old(unit)@, buffer@),
{
    match unit {
        Part::FunctionCall { arguments, finished, .. } => {
            if !*finished {
                *arguments = match parse_json(buffer) {
                    Some(v) => v,
                    None => empty_object(),
                };
                *finished = true;
            }
        },
        _ => {
            unit.finish();
        },
    }
}

impl OpenAiStream {
    /// A decoder that has seen nothing.
    pub fn new() -> (r: OpenAiStream)
        ensures
            r@ == OpenAiView::initial(),
            r@.wf(),
    {
        let r = OpenAiStream {
            turn: Turn::new(),
            positions: HashMap::new(),
            buffers: Vec::new(),
            text: None,
        };
        assert(r@.buffers =~= Seq::empty());
        r
    }

    fn see(&mut self, index: u32) -> (p: usize)
        requires
            old(self)@.wf(),
        ensures
            final(self)@ == old(self)@.seen(index),
            final(self)@.wf(),
            final(self)@.positions.contains_key(index),
            p == final(self)@.positions[index],
            p < final(self).turn.parts.len(),
            p < final(self).buffers.len(),
    {
        assert(self.turn@.parts.len() == self.turn.parts.len());
        assert(self@.buffers.len() == self.buffers.len());
        match self.positions.get(&index) {
            Some(p) => {
                assert(self@.positions.contains_key(index));
                *p
            },
            None => {
                let n = self.turn.parts.len();
                self.turn.push(
                    Part::FunctionCall {
                        id: None,
                        name: String::new(),
                        arguments: string_value(""),
                        signature: None,
                        finished: false,
                    },
                );
                proof {
                    reveal_strlit("");
                    assert(""@ =~= Seq::<char>::empty());
                }
                self.positions.insert(index, n);
                self.buffers.push(String::new());
                assert(self@.buffers =~= old(self)@.buffers.push(Seq::empty()));
                assert(self@.positions == old(self)@.positions.insert(index, n));
                assert(self.turn@.parts.len() == self.turn.parts.len());
                n
            },
        }
    }

    /// Applies one tool-call fragment.
    fn apply_call(&mut self, call: &OpenAiStreamToolCall)
        requires
            old(self)@.wf(),
        ensures
            final(self)@ == old(self)@.after_call(*call),
            final(self)@.wf(),
    {
        let p = self.see(call.index);
        let ghost mid = self@;
        let mut open = false;
        match &mut self.turn.parts[p] {
            Part::FunctionCall { id, name, finished, .. } => {
                if !*finished {
                    open = true;
                    match &call.id {
                        Some(fragment) => {
                            match id {
                                Some(held) => {
                                    held.append(fragment.as_str());
                                },
                                None => {
                                    *id = Some(fragment.clone());
                                },
                            }
                        },
                        None => {},
                    }
                    match &call.function {
                        Some(f) => {
                            match &f.name {
                                Some(n) => {
                                    name.append(n.as_str());
                                },
                                None => {},
                            }
                        },
                        None => {},
                    }
                    assert(name@ =~= mid.turn.parts[p as int]->FunctionCall_name + name_fragment(
                        *call,
                    ));
                }
            },
            _ => {},
        }
        if open {
            match &call.function {
                Some(f) => {
                    match &f.arguments {
                        Some(a) => {
                            self.buffers[p].append(a.as_str());
                        },
                        None => {},
                    }
                },
                None => {},
            }
            assert(self.buffers[p as int]@ =~= mid.buffers[p as int] + arguments_fragment(*call));
            let shown = string_value(self.buffers[p].as_str());
            match &mut self.turn.parts[p] {
                Part::FunctionCall { arguments, .. } => {
                    *arguments = shown;
                },
                _ => {},
            }
        }
        assert(self@.turn.parts =~= old(self)@.after_call(*call).turn.parts);
        assert(self@.buffers =~= old(self)@.after_call(*call).buffers);
    }

    fn apply_calls(&mut self, calls: &Vec<OpenAiStreamToolCall>)
        requires
            old(self)@.wf(),
        ensures
            final(self)@ == old(self)@.after_calls(calls@),
            final(self)@.wf(),
    {
        let mut i: usize = 0;
        while i < calls.len()
            invariant
                i <= calls.len(),
                self@.wf(),
                self@ == old(self)@.after_calls(calls@.take(i as int)),
            decreases calls.len() - i,
        {
            self.apply_call(&calls[i]);
            assert(calls@.take(i + 1).drop_last() =~= calls@.take(i as int));
            i += 1;
        }
        assert(calls@.take(i as int) =~= calls@);
    }

    fn apply_text(&mut self, text: &str)
        requires
            old(self)@.wf(),
        ensures
            final(self)@ == old(self)@.after_text(text@),
            final(self)@.wf(),
    {
        assert(self.turn@.parts.len() == self.turn.parts.len());
        assert(self@.buffers.len() == self.buffers.len());
        match self.text {
            Some(p) => {
                match &mut self.turn.parts[p] {
                    Part::Text { content, finished } => {
                        if !*finished {
                            content.append(text);
                        }
                    },
                    _ => {},
                }
                assert(self@.turn.parts =~= old(self)@.after_text(text@).turn.parts);
            },
            None => {
                let n = self.turn.parts.len();
                self.turn.push(Part::Text { content: String::from_str(text), finished: false });
                self.buffers.push(String::new());
                self.text = Some(n);
                assert(self@.buffers =~= old(self)@.buffers.push(Seq::empty()));
            },
        }
    }

    fn finish(&mut self, reason: &str)
        requires
            old(self)@.wf(),
        ensures
            final(self)@ == old(self)@.finished(reason@),
            final(self)@.wf(),
            all_finished(final(self)@.turn.parts),
            final(self)@.turn.finish.is_terminal(),
    {
        let n = self.turn.parts.len();
        assert(self.turn@.parts.len() == n);
        assert(self@.buffers.len() == self.buffers.len());
        let mut i: usize = 0;
        while i < n
            invariant
                i <= n,
                n == self.turn.parts.len(),
                n == self.buffers.len(),
                self.buffers == old(self).buffers,
                self.turn.usage == old(self).turn.usage,
                old(self).turn.parts.len() == n,
                forall|j: int|
                    0 <= j < i ==> self.turn.parts[j]@ == unit_finished(
                        old(self).turn.parts[j]@,
                        old(self).buffers[j]@,
                    ),
                forall|j: int| i <= j < n ==> self.turn.parts[j] == old(self).turn.parts[j],
            decreases n - i,
        {
            finish_unit(&mut self.turn.parts[i], self.buffers[i].as_str());
            i += 1;
        }
        self.turn.finish = finish_reason_of(reason);
        self.positions = HashMap::new();
        self.text = None;
        assert(self@.turn.parts =~= old(self)@.finished(reason@).turn.parts);
    }

    /// Applies one choice of a chunk.
    fn apply_choice(&mut self, choice: &OpenAiStreamChoice)
        requires
            old(self)@.wf(),
        ensures
            final(self)@ == old(self)@.after_choice(*choice),
            final(self)@.wf(),
            choice.finish_reason is Some ==> all_finished(final(self)@.turn.parts)
                && final(self)@.turn.finish.is_terminal(),
    {
        match &choice.delta {
            Some(delta) => {
                match &delta.content {
                    Some(text) => {
                        self.apply_text(text.as_str());
                    },
                    None => {},
                }
                match &delta.tool_calls {
                    Some(calls) => {
                        self.apply_calls(calls);
                    },
                    None => {},
                }
            },
            None => {},
        }
        match &choice.finish_reason {
            Some(reason) => {
                self.finish(reason.as_str());
            },
            None => {},
        }
    }

    /// Whether `apply` can take the chunk: its usage, merged into the
    /// totals, must stay within 32 bits.
    pub fn can_apply(&self, chunk: &OpenAiStreamChunk) -> (r: bool)
        ensures
            r == self@.accepts(*chunk),
    {
        self.turn.usage.can_merge(&usage_of(&chunk.usage))
    }

    /// Applies one chunk of the stream.
    ///
    /// A chunk whose last choice carries a finish reason leaves every unit
    /// closed.
    pub fn apply(&mut self, chunk: &OpenAiStreamChunk)
        requires
            old(self)@.wf(),
            old(self)@.accepts(*chunk),
        ensures
            final(self)@.wf(),
            final(self)@ == old(self)@.after_chunk(*chunk),
            ends_turn(*chunk) ==> all_finished(final(self)@.turn.parts)
                && final(self)@.turn.finish.is_terminal(),
    {
        self.turn.count(&usage_of(&chunk.usage));
        let ghost start = self@;
        let choices = &chunk.choices;
        let mut i: usize = 0;
        while i < choices.len()
            invariant
                i <= choices.len(),
                self@.wf(),
                self@ == start.after_choices(choices@.take(i as int)),
                i > 0 && choices[i - 1].finish_reason is Some ==> all_finished(self@.turn.parts)
                    && self@.turn.finish.is_terminal(),
            decreases choices.len() - i,
        {
            self.apply_choice(&choices[i]);
            assert(choices@.take(i + 1).drop_last() =~= choices@.take(i as int));
            i += 1;
        }
        assert(choices@.take(i as int) =~= choices@);
    }

    /// What the turn looks like now.
    pub fn snapshot(&self) -> (r: Response)
        ensures
            r@ == self@.turn.response(),
    {
        self.turn.snapshot()
    }

    /// Ends decoding and hands the turn over.
    pub fn into_response(self) -> (r: Response)
        ensures
            r@ == self@.turn.response(),
    {
        self.turn.into_response()
    }
}

} // verus!
