//! The flat candidate-array protocol.
//!
//! Every chunk of a stream carries a list of parts for the current turn.
//! The decoder remembers only the kind of the part it handled last: a part
//! of the same kind continues the open unit, a part of another kind closes
//! it and opens a new one.

pub mod request;

use crate::model::{
    all_finished, close_all, close_all_keeps_finished, keeps_finished, keeps_finished_chains, media_views, opt_text, clone_opt_string, FinishReason, Media,
    MediaType, MediaView, Part, PartView, Response, ResponseView, MessageView, Role,
};
use crate::stream::{close_all_finishes, Turn, TurnView};
use crate::text::same_text;
use crate::usage::{Usage, UsageView};
use serde_json::Value;
use vstd::prelude::*;
use vstd::string::StringExecFns;

verus! {

/// Provider options of a model.
#[derive(Debug, PartialEq)]
pub struct GeminiModel {
    pub top_k: Option<u32>,
    pub safety_settings: Option<Vec<GeminiSafetySetting>>,
    pub stop_sequences: Option<Vec<String>>,
    pub response_mime_type: Option<String>,
    pub thinking_budget: Option<u32>,
    pub thinking_level: Option<GeminiThinkingLevel>,
    pub include_thoughts: Option<bool>,
}

impl Default for GeminiModel {
    fn default() -> (r: Self)
        ensures
            r.top_k is None,
            r.safety_settings is None,
            r.stop_sequences is None,
            r.response_mime_type is None,
            r.thinking_budget is None,
            r.thinking_level is None,
            r.include_thoughts is None,
    {
        GeminiModel {
            top_k: None,
            safety_settings: None,
            stop_sequences: None,
            response_mime_type: None,
            thinking_budget: None,
            thinking_level: None,
            include_thoughts: None,
        }
    }
}

#[derive(Debug, Clone, Copy, PartialEq, Eq, Structural)]
pub enum GeminiThinkingLevel {
    Low,
    High,
}

#[derive(Debug, PartialEq)]
pub struct GeminiSafetySetting {
    pub category: String,
    pub threshold: String,
}

/// The address of the endpoint that generates content for a model, whole
/// or as a stream of events.
pub fn generate_url(base_url: &str, model: &str, key: &str, stream: bool) -> (r: String)
    ensures
        r@ == base_url@ + "/models/"@ + model@ + if stream {
            ":streamGenerateContent?alt=sse&key="@
        } else {
            ":generateContent?key="@
        } + key@,
{
    let mut url = crate::text::concat(base_url, "/models/");
    url.append(model);
    if stream {
        url.append(":streamGenerateContent?alt=sse&key=");
    } else {
        url.append(":generateContent?key=");
    }
    url.append(key);
    url
}

/// Whether a request asks for thoughts: it does where reasoning is on, or
/// where the options ask for them.
pub fn wants_thoughts(reasoning: Option<bool>, options: &GeminiModel) -> (r: bool)
    ensures
        r == (reasoning == Some(true) || options.include_thoughts == Some(true)),
{
    let a = match reasoning {
        Some(b) => b,
        None => false,
    };
    let b = match options.include_thoughts {
        Some(b) => b,
        None => false,
    };
    a || b
}

#[derive(Debug, PartialEq)]
pub struct GeminiFunctionCall {
    pub name: String,
    pub args: Value,
}

#[derive(Debug, PartialEq)]
pub struct GeminiFunctionResponseBlob {
    pub mime_type: String,
    pub data: String,
}

#[derive(Debug, PartialEq)]
pub struct GeminiFunctionResponsePart {
    pub inline_data: GeminiFunctionResponseBlob,
}

#[derive(Debug, PartialEq)]
pub struct GeminiFunctionResponse {
    pub name: String,
    pub response: Value,
    pub parts: Option<Vec<GeminiFunctionResponsePart>>,
}

#[derive(Debug, PartialEq)]
pub struct GeminiInlineData {
    pub mime_type: String,
    pub data: String,
}

#[derive(Debug, PartialEq)]
pub enum GeminiPart {
    Text { text: String, thought: Option<bool> },
    FunctionCall { function_call: GeminiFunctionCall, thought_signature: Option<String> },
    FunctionResponse { function_response: GeminiFunctionResponse },
    InlineData { inline_data: GeminiInlineData },
}

#[derive(Debug, PartialEq)]
pub struct GeminiContent {
    pub role: String,
    pub parts: Vec<GeminiPart>,
}

#[derive(Debug, PartialEq)]
pub struct GeminiCandidate {
    pub content: Option<GeminiContent>,
    pub finish_reason: Option<String>,
    pub index: Option<u32>,
}

#[derive(Debug, PartialEq)]
pub struct GeminiUsageMetadata {
    pub prompt_token_count: u32,
    pub candidates_token_count: Option<u32>,
    pub total_token_count: u32,
    pub thoughts_token_count: Option<u32>,
}

/// One chunk of a stream, or a whole response.
#[derive(Debug, PartialEq)]
pub struct GeminiResponse {
    pub candidates: Option<Vec<GeminiCandidate>>,
    pub usage_metadata: Option<GeminiUsageMetadata>,
}

/// The kind of the part that the decoder handled last.
#[derive(Debug, Clone, Copy, PartialEq, Eq, Structural)]
pub enum PartType {
    Text,
    Reasoning,
    FunctionCall,
}

/// The finish reason that a provider's word stands for.
pub open spec fn gemini_finish(reason: Seq<char>) -> FinishReason {
    if reason == "STOP"@ {
        FinishReason::Stop
    } else if reason == "MAX_TOKENS"@ {
        FinishReason::OutputTokens
    } else if reason == "SAFETY"@ || reason == "RECITATION"@ {
        FinishReason::ContentFilter
    } else {
        FinishReason::Stop
    }
}

/// A count that is zero where it is absent.
pub open spec fn or_zero(n: Option<u32>) -> nat {
    match n {
        Some(x) => x as nat,
        None => 0,
    }
}

/// The usage that a chunk reports: the completion count is the sum of the
/// candidates' and the thoughts' tokens.
pub open spec fn gemini_usage(meta: GeminiUsageMetadata) -> UsageView {
    UsageView {
        prompt_tokens: Some(meta.prompt_token_count as nat),
        completion_tokens: Some(
            or_zero(meta.candidates_token_count) + or_zero(meta.thoughts_token_count),
        ),
    }
}

/// Whether a part is a thought.
pub open spec fn is_thought(thought: Option<bool>) -> bool {
    thought == Some(true)
}

/// The kind of a text part.
pub open spec fn text_kind(thought: Option<bool>) -> PartType {
    if is_thought(thought) {
        PartType::Reasoning
    } else {
        PartType::Text
    }
}

/// Whether more text of the given kind continues this unit: it does when
/// the unit is open and of that kind.
pub open spec fn continues(unit: PartView, thought: bool) -> bool {
    match unit {
        PartView::Text { finished, .. } => !finished && !thought,
        PartView::Reasoning { finished, .. } => !finished && thought,
        _ => false,
    }
}

/// The unit with more text at the end of its content.
pub open spec fn with_more(unit: PartView, text: Seq<char>) -> PartView {
    match unit {
        PartView::Text { content, finished } => PartView::Text { content: content + text, finished },
        PartView::Reasoning { content, summary, signature, finished } => PartView::Reasoning {
            content: content + text,
            summary,
            signature,
            finished,
        },
        _ => unit,
    }
}

/// A new open unit for a text part.
pub open spec fn opened(text: Seq<char>, thought: bool) -> PartView {
    if thought {
        PartView::Reasoning { content: text, summary: None, signature: None, finished: false }
    } else {
        PartView::Text { content: text, finished: false }
    }
}

/// A new open unit for a function call part.
pub open spec fn opened_call(call: GeminiFunctionCall, signature: Option<String>) -> PartView {
    PartView::FunctionCall {
        id: None,
        name: call.name@,
        arguments: call.args,
        signature: opt_text(signature),
        finished: false,
    }
}

/// The state of the decoder: the turn, and the kind handled last.
pub struct GeminiView {
    pub turn: TurnView,
    pub last: Option<PartType>,
}

impl GeminiView {
    pub open spec fn initial() -> GeminiView {
        GeminiView { turn: TurnView::initial(), last: None }
    }

    /// The state once a part of kind `next` is about to be handled: where
    /// the kind changes, the last unit is closed.
    pub open spec fn settled(self, next: PartType) -> GeminiView {
        if self.last is Some && self.last != Some(next) {
            GeminiView { turn: self.turn.last_closed(), last: self.last }
        } else {
            self
        }
    }

    /// The state after one part.
    pub open spec fn after_part(self, part: GeminiPart) -> GeminiView {
        match part {
            GeminiPart::Text { text, thought } => {
                let s = self.settled(text_kind(thought));
                let parts = s.turn.parts;
                let turn = if parts.len() > 0 && continues(parts.last(), is_thought(thought)) {
                    TurnView {
                        parts: parts.update(parts.len() - 1, with_more(parts.last(), text@)),
                        ..s.turn
                    }
                } else {
                    s.turn.pushed(opened(text@, is_thought(thought)))
                };
                GeminiView { turn, last: Some(text_kind(thought)) }
            },
            GeminiPart::FunctionCall { function_call, thought_signature } => {
                let s = self.settled(PartType::FunctionCall);
                GeminiView {
                    turn: s.turn.pushed(opened_call(function_call, thought_signature)),
                    last: Some(PartType::FunctionCall),
                }
            },
            _ => self,
        }
    }

    /// The state after a list of parts, taken in order.
    pub open spec fn after_parts(self, parts: Seq<GeminiPart>) -> GeminiView
        decreases parts.len(),
    {
        if parts.len() == 0 {
            self
        } else {
            self.after_parts(parts.drop_last()).after_part(parts.last())
        }
    }

    /// The state after a finish reason: every unit is closed.
    pub open spec fn finished(self, reason: Seq<char>) -> GeminiView {
        GeminiView {
            turn: TurnView { finish: gemini_finish(reason), ..self.turn.closed() },
            last: self.last,
        }
    }

    /// The state after the first candidate of a chunk.
    pub open spec fn after_candidate(self, candidate: GeminiCandidate) -> GeminiView {
        let s = match candidate.content {
            Some(content) => self.after_parts(content.parts@),
            None => self,
        };
        match candidate.finish_reason {
            Some(reason) => s.finished(reason@),
            None => s,
        }
    }

    /// The state with the usage of a chunk merged in.
    pub open spec fn counted(self, meta: Option<GeminiUsageMetadata>) -> GeminiView {
        match meta {
            Some(m) => GeminiView { turn: self.turn.counted(gemini_usage(m)), last: self.last },
            None => self,
        }
    }

    /// The state after a chunk: its usage is merged into the totals, then
    /// the parts of its first candidate are applied in order, then its
    /// finish reason, if it has one.
    pub open spec fn after_chunk(self, chunk: GeminiResponse) -> GeminiView {
        let s = self.counted(chunk.usage_metadata);
        match chunk.candidates {
            Some(candidates) => if candidates.len() > 0 {
                s.after_candidate(candidates[0])
            } else {
                s
            },
            None => s,
        }
    }

    /// Whether the totals stay within 32 bits when the chunk is counted.
    pub open spec fn accepts(self, chunk: GeminiResponse) -> bool {
        self.counted(chunk.usage_metadata).turn.usage.fits()
    }
}

/// The state after a sequence of chunks, taken in order.
pub open spec fn after_chunks(s: GeminiView, chunks: Seq<GeminiResponse>) -> GeminiView
    decreases chunks.len(),
{
    if chunks.len() == 0 {
        s
    } else {
        after_chunks(s, chunks.drop_last()).after_chunk(chunks.last())
    }
}

/// A stream that ends in a chunk with a finish reason leaves no unit open,
/// whatever came before.
pub proof fn finish_closes_every_unit(s: GeminiView, chunks: Seq<GeminiResponse>)
    requires
        chunks.len() > 0,
        has_finish(chunks.last()),
    ensures
        all_finished(after_chunks(s, chunks).turn.parts),
        after_chunks(s, chunks).turn.finish == gemini_finish(
            chunks.last().candidates->0[0].finish_reason->0@,
        ),
{
    let before = after_chunks(s, chunks.drop_last()).counted(chunks.last().usage_metadata);
    let candidate = chunks.last().candidates->0[0];
    let applied = match candidate.content {
        Some(content) => before.after_parts(content.parts@),
        None => before,
    };
    close_all_finishes(applied.turn.parts);
}

/// A part never changes a unit that is closed: it adds to the last unit
/// only while that unit is open, and otherwise closes it or adds a unit.
pub proof fn part_respects_finished(s: GeminiView, part: GeminiPart)
    ensures
        keeps_finished(s.turn.parts, s.after_part(part).turn.parts),
{
}

/// A list of parts never changes a unit that is closed.
pub proof fn parts_respect_finished(s: GeminiView, parts: Seq<GeminiPart>)
    ensures
        keeps_finished(s.turn.parts, s.after_parts(parts).turn.parts),
    decreases parts.len(),
{
    if parts.len() > 0 {
        parts_respect_finished(s, parts.drop_last());
        part_respects_finished(s.after_parts(parts.drop_last()), parts.last());
        keeps_finished_chains(
            s.turn.parts,
            s.after_parts(parts.drop_last()).turn.parts,
            s.after_parts(parts).turn.parts,
        );
    }
}

/// A chunk never changes a unit that is closed, and never removes a unit.
pub proof fn chunk_respects_finished(s: GeminiView, chunk: GeminiResponse)
    ensures
        keeps_finished(s.turn.parts, s.after_chunk(chunk).turn.parts),
{
    let c = s.counted(chunk.usage_metadata);
    match first_candidate(chunk) {
        Some(candidate) => {
            let applied = match candidate.content {
                Some(content) => {
                    parts_respect_finished(c, content.parts@);
                    c.after_parts(content.parts@)
                },
                None => c,
            };
            close_all_keeps_finished(applied.turn.parts);
            keeps_finished_chains(
                s.turn.parts,
                applied.turn.parts,
                close_all(applied.turn.parts),
            );
        },
        None => {},
    }
}

/// A stream never changes a unit once it is closed, whatever arrives.
pub proof fn stream_respects_finished(s: GeminiView, chunks: Seq<GeminiResponse>)
    ensures
        keeps_finished(s.turn.parts, after_chunks(s, chunks).turn.parts),
    decreases chunks.len(),
{
    if chunks.len() > 0 {
        stream_respects_finished(s, chunks.drop_last());
        chunk_respects_finished(after_chunks(s, chunks.drop_last()), chunks.last());
        keeps_finished_chains(
            s.turn.parts,
            after_chunks(s, chunks.drop_last()).turn.parts,
            after_chunks(s, chunks).turn.parts,
        );
    }
}

/// A chunk that carries nothing leaves the decoder as it was, so showing
/// the turn again after it is safe.
pub proof fn empty_chunk_changes_nothing(s: GeminiView, chunk: GeminiResponse)
    requires
        chunk.usage_metadata is None,
        first_candidate(chunk) is None,
    ensures
        s.after_chunk(chunk) == s,
{
}

/// The kind of unit that a part opens or continues, for the parts that the
/// decoder of a stream handles.
pub open spec fn part_kind(part: GeminiPart) -> Option<PartType> {
    match part {
        GeminiPart::Text { thought, .. } => Some(text_kind(thought)),
        GeminiPart::FunctionCall { .. } => Some(PartType::FunctionCall),
        _ => None,
    }
}

/// The unit that a part opens when it does not continue one.
pub open spec fn unit_of(part: GeminiPart) -> PartView {
    match part {
        GeminiPart::Text { text, thought } => opened(text@, is_thought(thought)),
        GeminiPart::FunctionCall { function_call, thought_signature } => opened_call(
            function_call,
            thought_signature,
        ),
        _ => arbitrary(),
    }
}

/// A change of kind closes the unit that was last and opens a new one after
/// it: the closed unit keeps its content, the units before it are
/// untouched, and the text of the new part is in the new unit only.
pub proof fn kind_change_closes_last(s: GeminiView, part: GeminiPart)
    requires
        s.last is Some,
        part_kind(part) is Some,
        part_kind(part) != s.last,
        s.turn.parts.len() > 0,
    ensures
        s.after_part(part).turn.parts == s.turn.parts.update(
            s.turn.parts.len() - 1,
            s.turn.parts.last().close(),
        ).push(unit_of(part)),
        s.after_part(part).turn.parts[s.turn.parts.len() - 1].finished(),
        s.after_part(part).last == part_kind(part),
{
}

/// A part of the kind handled last continues the last unit when that unit
/// is open, and no other unit changes.
pub proof fn same_kind_continues(s: GeminiView, text: String, thought: Option<bool>)
    requires
        s.last == Some(text_kind(thought)),
        s.turn.parts.len() > 0,
        continues(s.turn.parts.last(), is_thought(thought)),
    ensures
        s.after_part(GeminiPart::Text { text, thought }).turn.parts == s.turn.parts.update(
            s.turn.parts.len() - 1,
            with_more(s.turn.parts.last(), text@),
        ),
{
}

/// The media unit that an attachment of a function response becomes.
pub open spec fn attachment(part: GeminiFunctionResponsePart) -> MediaView {
    MediaView {
        media_type: MediaType::Binary,
        data: part.inline_data.data@,
        mime_type: part.inline_data.mime_type@,
        uri: None,
        finished: true,
    }
}

/// The media units that the attachments of a function response become.
pub open spec fn attachments(parts: Option<Vec<GeminiFunctionResponsePart>>) -> Seq<MediaView> {
    match parts {
        Some(v) => v@.map_values(|p: GeminiFunctionResponsePart| attachment(p)),
        None => Seq::empty(),
    }
}

/// The unit that a part of a whole response becomes, closed from the
/// start. Inline data has none.
pub open spec fn whole_unit(part: GeminiPart) -> Option<PartView> {
    match part {
        GeminiPart::Text { text, thought } => Some(opened(text@, is_thought(thought)).close()),
        GeminiPart::FunctionCall { function_call, thought_signature } => Some(
            opened_call(function_call, thought_signature).close(),
        ),
        GeminiPart::FunctionResponse { function_response } => Some(
            PartView::FunctionResponse {
                id: None,
                name: function_response.name@,
                response: function_response.response,
                parts: attachments(function_response.parts),
                finished: true,
            },
        ),
        GeminiPart::InlineData { .. } => None,
    }
}

/// The units of a whole response: one for each part that has one, in order.
pub open spec fn whole_units(parts: Seq<GeminiPart>) -> Seq<PartView>
    decreases parts.len(),
{
    if parts.len() == 0 {
        Seq::empty()
    } else {
        match whole_unit(parts.last()) {
            Some(unit) => whole_units(parts.drop_last()).push(unit),
            None => whole_units(parts.drop_last()),
        }
    }
}

/// The first candidate of a response, if it has one.
pub open spec fn first_candidate(resp: GeminiResponse) -> Option<GeminiCandidate> {
    match resp.candidates {
        Some(candidates) => if candidates.len() > 0 {
            Some(candidates[0])
        } else {
            None
        },
        None => None,
    }
}

/// The response that a whole provider response stands for. All of its units
/// are closed, and it is terminal: without a finish reason it counts as a
/// normal stop.
pub open spec fn whole_response(resp: GeminiResponse) -> ResponseView {
    let parts = match first_candidate(resp) {
        Some(candidate) => match candidate.content {
            Some(content) => whole_units(content.parts@),
            None => Seq::empty(),
        },
        None => Seq::empty(),
    };
    let finish = match first_candidate(resp) {
        Some(candidate) => match candidate.finish_reason {
            Some(reason) => gemini_finish(reason@),
            None => FinishReason::Stop,
        },
        None => FinishReason::Stop,
    };
    ResponseView {
        data: seq![MessageView { role: Role::Assistant, parts }],
        usage: match resp.usage_metadata {
            Some(meta) => gemini_usage(meta),
            None => UsageView::empty(),
        },
        finish,
    }
}

/// Every unit of a whole response is closed.
pub proof fn whole_units_are_finished(parts: Seq<GeminiPart>)
    ensures
        all_finished(whole_units(parts)),
    decreases parts.len(),
{
    if parts.len() > 0 {
        whole_units_are_finished(parts.drop_last());
    }
}

/// Whether a chunk carries a finish reason for its first candidate.
pub open spec fn has_finish(chunk: GeminiResponse) -> bool {
    chunk.candidates matches Some(candidates) && candidates.len() > 0
        && candidates[0].finish_reason is Some
}

/// The decoder of a stream of chunks.
#[derive(Debug, PartialEq)]
pub struct GeminiStream {
    turn: Turn,
    last_part_type: Option<PartType>,
}

impl View for GeminiStream {
    type V = GeminiView;

    closed spec fn view(&self) -> GeminiView {
        GeminiView { turn: self.turn@, last: self.last_part_type }
    }
}

/// Maps a provider's finish word.
pub fn finish_reason_of(reason: &str) -> (r: FinishReason)
    ensures
        r == gemini_finish(reason@),
{
    if same_text(reason, "STOP") {
        FinishReason::Stop
    } else if same_text(reason, "MAX_TOKENS") {
        FinishReason::OutputTokens
    } else if same_text(reason, "SAFETY") || same_text(reason, "RECITATION") {
        FinishReason::ContentFilter
    } else {
        FinishReason::Stop
    }
}

/// Whether the usage of a chunk can be held in 32 bits.
pub fn usage_fits(meta: &GeminiUsageMetadata) -> (r: bool)
    ensures
        r == gemini_usage(*meta).fits(),
{
    let c: u32 = match meta.candidates_token_count {
        Some(x) => x,
        None => 0,
    };
    let t: u32 = match meta.thoughts_token_count {
        Some(x) => x,
        None => 0,
    };
    c <= u32::MAX - t
}

/// The usage that a chunk reports.
pub fn usage_of(meta: &GeminiUsageMetadata) -> (r: Usage)
    requires
        gemini_usage(*meta).fits(),
    ensures
        r@ == gemini_usage(*meta),
{
    let c: u32 = match meta.candidates_token_count {
        Some(x) => x,
        None => 0,
    };
    let t: u32 = match meta.thoughts_token_count {
        Some(x) => x,
        None => 0,
    };
    Usage { prompt_tokens: Some(meta.prompt_token_count), completion_tokens: Some(c + t) }
}

fn attachments_of(parts: &Option<Vec<GeminiFunctionResponsePart>>) -> (r: Vec<Media>)
    ensures
        media_views(r@) == attachments(*parts),
{
    let mut out: Vec<Media> = Vec::new();
    match parts {
        Some(v) => {
            let mut i: usize = 0;
            while i < v.len()
                invariant
                    i <= v.len(),
                    out.len() == i,
                    forall|j: int| 0 <= j < i ==> out[j]@ == attachment(v[j]),
                decreases v.len() - i,
            {
                out.push(
                    Media {
                        media_type: MediaType::Binary,
                        data: v[i].inline_data.data.clone(),
                        mime_type: v[i].inline_data.mime_type.clone(),
                        uri: None,
                        finished: true,
                    },
                );
                i += 1;
            }
            assert(media_views(out@) =~= attachments(*parts));
        },
        None => {
            assert(media_views(out@) =~= attachments(*parts));
        },
    }
    out
}

fn whole_unit_of(part: &GeminiPart) -> (r: Option<Part>)
    ensures
        r is Some <==> whole_unit(*part) is Some,
        r matches Some(unit) ==> Some(unit@) == whole_unit(*part),
{
    match part {
        GeminiPart::Text { text, thought } => {
            let thinks = match thought {
                Some(b) => *b,
                None => false,
            };
            if thinks {
                Some(
                    Part::Reasoning {
                        content: text.clone(),
                        summary: None,
                        signature: None,
                        finished: true,
                    },
                )
            } else {
                Some(Part::Text { content: text.clone(), finished: true })
            }
        },
        GeminiPart::FunctionCall { function_call, thought_signature } => Some(
            Part::FunctionCall {
                id: None,
                name: function_call.name.clone(),
                arguments: function_call.args.clone(),
                signature: clone_opt_string(thought_signature),
                finished: true,
            },
        ),
        GeminiPart::FunctionResponse { function_response } => Some(
            Part::FunctionResponse {
                id: None,
                name: function_response.name.clone(),
                response: function_response.response.clone(),
                parts: attachments_of(&function_response.parts),
                finished: true,
            },
        ),
        GeminiPart::InlineData { .. } => None,
    }
}

impl GeminiResponse {
    /// Whether `to_response` can take this response: the usage it reports
    /// must stay within 32 bits.
    pub fn is_countable(&self) -> (r: bool)
        ensures
            r == whole_response(*self).usage.fits(),
    {
        match &self.usage_metadata {
            Some(meta) => usage_fits(meta),
            None => true,
        }
    }

    /// Decodes a whole response: the units of its first candidate, all
    /// closed, with the usage it reports and the reason it ended.
    pub fn to_response(&self) -> (r: Response)
        requires
            whole_response(*self).usage.fits(),
        ensures
            r@ == whole_response(*self),
            r@.finish.is_terminal(),
            all_finished(r@.data[0].parts),
    {
        let mut turn = Turn::new();
        turn.finish = FinishReason::Stop;
        match &self.candidates {
            Some(candidates) => {
                if candidates.len() > 0 {
                    let candidate = &candidates[0];
                    match &candidate.content {
                        Some(content) => {
                            let parts = &content.parts;
                            let mut i: usize = 0;
                            while i < parts.len()
                                invariant
                                    i <= parts.len(),
                                    turn@.parts == whole_units(parts@.take(i as int)),
                                    turn@.usage == UsageView::empty(),
                                    turn.finish == FinishReason::Stop,
                                decreases parts.len() - i,
                            {
                                assert(parts@.take(i + 1).drop_last() =~= parts@.take(i as int));
                                match whole_unit_of(&parts[i]) {
                                    Some(unit) => {
                                        turn.push(unit);
                                    },
                                    None => {},
                                }
                                i += 1;
                            }
                            assert(parts@.take(i as int) =~= parts@);
                            proof {
                                whole_units_are_finished(parts@);
                            }
                        },
                        None => {},
                    }
                    match &candidate.finish_reason {
                        Some(reason) => {
                            turn.finish = finish_reason_of(reason.as_str());
                        },
                        None => {},
                    }
                }
            },
            None => {},
        }
        match &self.usage_metadata {
            Some(meta) => {
                turn.usage = usage_of(meta);
            },
            None => {},
        }
        turn.into_response()
    }
}

impl GeminiStream {
    /// A decoder that has seen nothing.
    pub fn new() -> (r: GeminiStream)
        ensures
            r@ == GeminiView::initial(),
    {
        GeminiStream { turn: Turn::new(), last_part_type: None }
    }

    fn settle(&mut self, next: PartType)
        ensures
            final(self)@ == old(self)@.settled(next),
    {
        let changed = match self.last_part_type {
            Some(last) => last != next,
            None => false,
        };
        if changed {
            self.turn.close_last();
        }
    }

    /// Applies one part of a chunk.
    ///
    /// Where the kind of the part differs from the kind handled last, the
    /// last unit is closed first, so text of one kind never runs on into a
    /// unit of another.
    pub fn apply_part(&mut self, part: &GeminiPart)
        ensures
            final(self)@ == old(self)@.after_part(*part),
    {
        match part {
            GeminiPart::Text { text, thought } => {
                let thinks = match thought {
                    Some(b) => *b,
                    None => false,
                };
                let kind = if thinks {
                    PartType::Reasoning
                } else {
                    PartType::Text
                };
                self.settle(kind);
                let ghost mid = self@;
                let n = self.turn.parts.len();
                let mut appended = false;
                if n > 0 {
                    match &mut self.turn.parts[n - 1] {
                        Part::Text { content, finished } => {
                            if !*finished && !thinks {
                                content.append(text.as_str());
                                appended = true;
                            }
                        },
                        Part::Reasoning { content, finished, .. } => {
                            if !*finished && thinks {
                                content.append(text.as_str());
                                appended = true;
                            }
                        },
                        _ => {},
                    }
                }
                if appended {
                    assert(self.turn@.parts =~= mid.turn.parts.update(
                        n - 1,
                        with_more(mid.turn.parts.last(), text@),
                    ));
                } else {
                    assert(self.turn@.parts =~= mid.turn.parts);
                    let unit = if thinks {
                        Part::Reasoning {
                            content: text.clone(),
                            summary: None,
                            signature: None,
                            finished: false,
                        }
                    } else {
                        Part::Text { content: text.clone(), finished: false }
                    };
                    self.turn.push(unit);
                }
                self.last_part_type = Some(kind);
            },
            GeminiPart::FunctionCall { function_call, thought_signature } => {
                self.settle(PartType::FunctionCall);
                self.turn.push(
                    Part::FunctionCall {
                        id: None,
                        name: function_call.name.clone(),
                        arguments: function_call.args.clone(),
                        signature: clone_opt_string(thought_signature),
                        finished: false,
                    },
                );
                self.last_part_type = Some(PartType::FunctionCall);
            },
            _ => {},
        }
    }

    fn apply_parts(&mut self, parts: &Vec<GeminiPart>)
        ensures
            final(self)@ == old(self)@.after_parts(parts@),
    {
        let mut i: usize = 0;
        while i < parts.len()
            invariant
                i <= parts.len(),
                self@ == old(self)@.after_parts(parts@.take(i as int)),
            decreases parts.len() - i,
        {
            self.apply_part(&parts[i]);
            assert(parts@.take(i + 1).drop_last() =~= parts@.take(i as int));
            i += 1;
        }
        assert(parts@.take(i as int) =~= parts@);
    }

    /// Whether `apply` can take the chunk: its usage, merged into the
    /// totals, must stay within 32 bits.
    pub fn can_apply(&self, chunk: &GeminiResponse) -> (r: bool)
        ensures
            r == self@.accepts(*chunk),
    {
        match &chunk.usage_metadata {
            Some(meta) => usage_fits(meta) && self.turn.usage.can_merge(&usage_of(meta)),
            None => true,
        }
    }

    /// Applies one chunk of the stream.
    ///
    /// A chunk with a finish reason leaves every unit closed.
    pub fn apply(&mut self, chunk: &GeminiResponse)
        requires
            old(self)@.accepts(*chunk),
        ensures
            final(self)@ == old(self)@.after_chunk(*chunk),
            has_finish(*chunk) ==> all_finished(final(self)@.turn.parts)
                && final(self)@.turn.finish.is_terminal(),
    {
        match &chunk.usage_metadata {
            Some(meta) => {
                self.turn.count(&usage_of(meta));
            },
            None => {},
        }
        match &chunk.candidates {
            Some(candidates) => {
                if candidates.len() > 0 {
                    let candidate = &candidates[0];
                    match &candidate.content {
                        Some(content) => {
                            self.apply_parts(&content.parts);
                        },
                        None => {},
                    }
                    match &candidate.finish_reason {
                        Some(reason) => {
                            self.turn.close_all();
                            self.turn.finish = finish_reason_of(reason.as_str());
                            proof {
                                close_all_finishes(
                                    old(self)@.counted(chunk.usage_metadata).after_candidate(
                                        *candidate,
                                    ).turn.parts,
                                );
                            }
                        },
                        None => {},
                    }
                }
            },
            None => {},
        }
    }

    /// What the turn looks like now.
    pub fn snapshot(&self) -> (r: Response)
        ensures
            r@ == self@.turn.response(),
    {
        self.turn.snapshot()
    }

    /// Ends decoding and hands the turn over.
    pub fn into_response(self) -> (r: Response)
        ensures
            r@ == self@.turn.response(),
    {
        self.turn.into_response()
    }
}

} // verus!
