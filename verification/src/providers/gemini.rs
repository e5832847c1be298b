//! The candidate protocol with typed finish reasons: every response has at
//! least one candidate, and the last candidate says why the turn ended.

use crate::api::gemini::{
    opened, opened_call, attachments, GeminiContent, GeminiPart, GeminiUsageMetadata, gemini_usage,
    usage_of, is_thought,
};
use crate::model::{
    chunk_views, clone_opt_string, media_views, message_views, FinishReason, Media, MediaType,
    Message, MessageView, Part, PartView, Response, ResponseView, Role, StreamChunk,
    StreamChunkView,
};
use crate::usage::{Usage, UsageView};
use crate::text::concat;
use nonempty::NonEmpty;
use vstd::prelude::*;
use vstd::string::StringExecFns;

verus! {

/// `nonempty::NonEmpty`, with its two public fields as they are declared:
/// the first element and the list of the others.
#[verifier::external_type_specification]
#[verifier::reject_recursive_types(T)]
pub struct ExNonEmpty<T>(NonEmpty<T>);

/// Why a candidate stopped, in the provider's terms.
#[derive(Debug, Clone, Copy, PartialEq, Eq, Structural)]
pub enum GeminiFinishReason {
    Stop,
    MaxTokens,
    Safety,
    Language,
    Blocklist,
    ProhibitedContent,
    Spii,
    ImageSafety,
    ImageProhibitedContent,
    ImageRecitation,
    MalformedFunctionCall,
    UnexpectedToolCall,
    TooManyToolCalls,
    Other,
}

#[derive(Debug, PartialEq)]
pub struct GeminiCandidate {
    pub content: GeminiContent,
    pub finish_reason: Option<GeminiFinishReason>,
}

/// One chunk of a stream, or a whole response.
#[derive(Debug, PartialEq)]
pub struct GeminiResponse {
    pub candidates: NonEmpty<GeminiCandidate>,
    pub model_version: Option<String>,
    pub usage_metadata: Option<GeminiUsageMetadata>,
}

/// Where requests go unless the transport names another place.
pub const DEFAULT_API_BASE: &'static str = "https://generativelanguage.googleapis.com";

/// The model that is asked unless the options name another.
pub const DEFAULT_MODEL: &'static str = "gemini-2.0-flash-exp";

/// The finish reason that a provider's reason stands for: the reasons that
/// withhold content count as a content filter, the ones about tool calls
/// as tool calls.
pub open spec fn finish_of(reason: GeminiFinishReason) -> FinishReason {
    match reason {
        GeminiFinishReason::Stop => FinishReason::Stop,
        GeminiFinishReason::MaxTokens => FinishReason::OutputTokens,
        GeminiFinishReason::Safety
        | GeminiFinishReason::Language
        | GeminiFinishReason::Blocklist
        | GeminiFinishReason::ProhibitedContent
        | GeminiFinishReason::Spii
        | GeminiFinishReason::ImageSafety
        | GeminiFinishReason::ImageProhibitedContent
        | GeminiFinishReason::ImageRecitation => FinishReason::ContentFilter,
        GeminiFinishReason::MalformedFunctionCall
        | GeminiFinishReason::UnexpectedToolCall
        | GeminiFinishReason::TooManyToolCalls => FinishReason::ToolCalls,
        GeminiFinishReason::Other => FinishReason::Stop,
    }
}

/// Maps a provider's finish reason.
pub fn finish_reason_of(reason: GeminiFinishReason) -> (r: FinishReason)
    ensures
        r == finish_of(reason),
{
    match reason {
        GeminiFinishReason::Stop => FinishReason::Stop,
        GeminiFinishReason::MaxTokens => FinishReason::OutputTokens,
        GeminiFinishReason::Safety
        | GeminiFinishReason::Language
        | GeminiFinishReason::Blocklist
        | GeminiFinishReason::ProhibitedContent
        | GeminiFinishReason::Spii
        | GeminiFinishReason::ImageSafety
        | GeminiFinishReason::ImageProhibitedContent
        | GeminiFinishReason::ImageRecitation => FinishReason::ContentFilter,
        GeminiFinishReason::MalformedFunctionCall
        | GeminiFinishReason::UnexpectedToolCall
        | GeminiFinishReason::TooManyToolCalls => FinishReason::ToolCalls,
        GeminiFinishReason::Other => FinishReason::Stop,
    }
}

/// The candidates of a response, in order.
pub open spec fn candidates_of(resp: GeminiResponse) -> Seq<GeminiCandidate> {
    seq![resp.candidates.head] + resp.candidates.tail@
}

/// The unit with the given flag.
pub open spec fn flagged(unit: PartView, finished: bool) -> PartView {
    if finished {
        unit.close()
    } else {
        unit
    }
}

/// The message that holds one part as its only unit: a unit that is still
/// open for a part of a stream, a closed one for a part of a whole
/// response. A function response speaks for the user, everything else for
/// the assistant. Inline data has no message.
pub open spec fn part_message(part: GeminiPart, finished: bool) -> Option<MessageView> {
    match part {
        GeminiPart::Text { text, thought } => Some(
            MessageView {
                role: Role::Assistant,
                parts: seq![flagged(opened(text@, is_thought(thought)), finished)],
            },
        ),
        GeminiPart::FunctionCall { function_call, thought_signature } => Some(
            MessageView {
                role: Role::Assistant,
                parts: seq![flagged(opened_call(function_call, thought_signature), finished)],
            },
        ),
        GeminiPart::FunctionResponse { function_response } => Some(
            MessageView {
                role: Role::User,
                parts: seq![
                    PartView::FunctionResponse {
                        id: None,
                        name: function_response.name@,
                        response: function_response.response,
                        parts: attachments(function_response.parts),
                        finished,
                    },
                ],
            },
        ),
        GeminiPart::InlineData { .. } => None,
    }
}

/// The messages for a list of parts, in order.
pub open spec fn parts_messages(parts: Seq<GeminiPart>) -> Seq<MessageView>
    decreases parts.len(),
{
    if parts.len() == 0 {
        Seq::empty()
    } else {
        match part_message(parts.last(), true) {
            Some(m) => parts_messages(parts.drop_last()).push(m),
            None => parts_messages(parts.drop_last()),
        }
    }
}

/// The messages for a list of candidates, in order.
pub open spec fn candidates_messages(candidates: Seq<GeminiCandidate>) -> Seq<MessageView>
    decreases candidates.len(),
{
    if candidates.len() == 0 {
        Seq::empty()
    } else {
        candidates_messages(candidates.drop_last()) + parts_messages(
            candidates.last().content.parts@,
        )
    }
}

/// The response that a whole provider response stands for: a message for
/// every part of every candidate, with the usage it reports. The last
/// candidate says why it ended; without a reason it counts as a stop.
pub open spec fn whole_response(resp: GeminiResponse) -> ResponseView {
    ResponseView {
        data: candidates_messages(candidates_of(resp)),
        usage: match resp.usage_metadata {
            Some(meta) => gemini_usage(meta),
            None => UsageView::empty(),
        },
        finish: match candidates_of(resp).last().finish_reason {
            Some(reason) => finish_of(reason),
            None => FinishReason::Stop,
        },
    }
}

/// The data chunks for a list of parts, in order.
pub open spec fn parts_chunks(parts: Seq<GeminiPart>) -> Seq<StreamChunkView>
    decreases parts.len(),
{
    if parts.len() == 0 {
        Seq::empty()
    } else {
        match part_message(parts.last(), false) {
            Some(m) => parts_chunks(parts.drop_last()).push(StreamChunkView::Data(m)),
            None => parts_chunks(parts.drop_last()),
        }
    }
}

/// The data chunks for a list of candidates, in order.
pub open spec fn candidates_chunks(candidates: Seq<GeminiCandidate>) -> Seq<StreamChunkView>
    decreases candidates.len(),
{
    if candidates.len() == 0 {
        Seq::empty()
    } else {
        candidates_chunks(candidates.drop_last()) + parts_chunks(candidates.last().content.parts@)
    }
}

/// The chunks that a response of a stream stands for: a data chunk for
/// every part of every candidate, then the usage, if it reports any, then
/// the finish reason, if the last candidate has one.
pub open spec fn response_chunks(resp: GeminiResponse) -> Seq<StreamChunkView> {
    candidates_chunks(candidates_of(resp)) + (match resp.usage_metadata {
        Some(meta) => seq![StreamChunkView::Usage(gemini_usage(meta))],
        None => Seq::empty(),
    }) + (match candidates_of(resp).last().finish_reason {
        Some(reason) => seq![StreamChunkView::Finish(finish_of(reason))],
        None => Seq::empty(),
    })
}

/// Whether the usage of a response can be held in 32 bits.
pub open spec fn countable(resp: GeminiResponse) -> bool {
    match resp.usage_metadata {
        Some(meta) => gemini_usage(meta).fits(),
        None => true,
    }
}

fn single(part: Part) -> (r: Vec<Part>)
    ensures
        crate::model::part_views(r@) == seq![part@],
{
    let mut parts: Vec<Part> = Vec::new();
    parts.push(part);
    assert(crate::model::part_views(parts@) =~= seq![part@]);
    parts
}

fn attachments_of(parts: &Option<Vec<crate::api::gemini::GeminiFunctionResponsePart>>) -> (r: Vec<
    Media,
>)
    ensures
        media_views(r@) == attachments(*parts),
{
    let mut out: Vec<Media> = Vec::new();
    match parts {
        Some(v) => {
            let mut i: usize = 0;
            while i < v.len()
                invariant
                    i <= v.len(),
                    out.len() == i,
                    forall|j: int|
                        0 <= j < i ==> out[j]@ == crate::api::gemini::attachment(v[j]),
                decreases v.len() - i,
            {
                out.push(
                    Media {
                        media_type: MediaType::Binary,
                        data: v[i].inline_data.data.clone(),
                        mime_type: v[i].inline_data.mime_type.clone(),
                        uri: None,
                        finished: true,
                    },
                );
                i += 1;
            }
            assert(media_views(out@) =~= attachments(*parts));
        },
        None => {
            assert(media_views(out@) =~= attachments(*parts));
        },
    }
    out
}

/// The message that holds one part as its only unit.
pub fn message_of(part: &GeminiPart, finished: bool) -> (r: Option<Message>)
    ensures
        r is Some <==> part_message(*part, finished) is Some,
        r matches Some(m) ==> Some(m@) == part_message(*part, finished),
{
    match part {
        GeminiPart::Text { text, thought } => {
            let thinks = match thought {
                Some(b) => *b,
                None => false,
            };
            let unit = if thinks {
                Part::Reasoning {
                    content: text.clone(),
                    summary: None,
                    signature: None,
                    finished,
                }
            } else {
                Part::Text { content: text.clone(), finished }
            };
            Some(Message::Assistant(single(unit)))
        },
        GeminiPart::FunctionCall { function_call, thought_signature } => Some(
            Message::Assistant(
                single(
                    Part::FunctionCall {
                        id: None,
                        name: function_call.name.clone(),
                        arguments: function_call.args.clone(),
                        signature: clone_opt_string(thought_signature),
                        finished,
                    },
                ),
            ),
        ),
        GeminiPart::FunctionResponse { function_response } => Some(
            Message::User(
                single(
                    Part::FunctionResponse {
                        id: None,
                        name: function_response.name.clone(),
                        response: function_response.response.clone(),
                        parts: attachments_of(&function_response.parts),
                        finished,
                    },
                ),
            ),
        ),
        GeminiPart::InlineData { .. } => None,
    }
}

fn push_parts_messages(parts: &Vec<GeminiPart>, out: &mut Vec<Message>)
    ensures
        message_views(final(out)@) == message_views(old(out)@) + parts_messages(parts@),
{
    let mut i: usize = 0;
    assert(message_views(out@) =~= message_views(old(out)@) + parts_messages(parts@.take(0)));
    while i < parts.len()
        invariant
            i <= parts.len(),
            message_views(out@) == message_views(old(out)@) + parts_messages(
                parts@.take(i as int),
            ),
        decreases parts.len() - i,
    {
        assert(parts@.take(i + 1).drop_last() =~= parts@.take(i as int));
        match message_of(&parts[i], true) {
            Some(m) => {
                let ghost before = message_views(out@);
                out.push(m);
                assert(message_views(out@) =~= before.push(m@));
                assert(message_views(out@) =~= message_views(old(out)@) + parts_messages(
                    parts@.take(i + 1),
                ));
            },
            None => {},
        }
        i += 1;
    }
    assert(parts@.take(i as int) =~= parts@);
}

fn push_parts_chunks(parts: &Vec<GeminiPart>, out: &mut Vec<StreamChunk>)
    ensures
        chunk_views(final(out)@) == chunk_views(old(out)@) + parts_chunks(parts@),
{
    let mut i: usize = 0;
    assert(chunk_views(out@) =~= chunk_views(old(out)@) + parts_chunks(parts@.take(0)));
    while i < parts.len()
        invariant
            i <= parts.len(),
            chunk_views(out@) == chunk_views(old(out)@) + parts_chunks(parts@.take(i as int)),
        decreases parts.len() - i,
    {
        assert(parts@.take(i + 1).drop_last() =~= parts@.take(i as int));
        match message_of(&parts[i], false) {
            Some(m) => {
                let ghost before = chunk_views(out@);
                out.push(StreamChunk::Data(m));
                assert(chunk_views(out@) =~= before.push(StreamChunkView::Data(m@)));
                assert(chunk_views(out@) =~= chunk_views(old(out)@) + parts_chunks(
                    parts@.take(i + 1),
                ));
            },
            None => {},
        }
        i += 1;
    }
    assert(parts@.take(i as int) =~= parts@);
}

impl GeminiResponse {
    /// Whether `stream_chunks` can take this response: the usage it
    /// reports must stay within 32 bits.
    pub fn is_countable(&self) -> (r: bool)
        ensures
            r == countable(*self),
    {
        match &self.usage_metadata {
            Some(meta) => crate::api::gemini::usage_fits(meta),
            None => true,
        }
    }

    /// Decodes a whole response: a message for every part of every
    /// candidate, with the usage it reports and the reason it ended.
    pub fn to_response(&self) -> (r: Response)
        requires
            countable(*self),
        ensures
            r@ == whole_response(*self),
            r@.finish.is_terminal(),
    {
        let ghost all = candidates_of(*self);
        let mut data: Vec<Message> = Vec::new();
        assert(message_views(data@) =~= Seq::<MessageView>::empty());
        push_parts_messages(&self.candidates.head.content.parts, &mut data);
        assert(all.take(1).drop_last() =~= Seq::<GeminiCandidate>::empty());
        assert(all.take(1).last() == self.candidates.head);
        assert(candidates_messages(all.take(1).drop_last()) =~= Seq::<MessageView>::empty());
        assert(message_views(data@) =~= candidates_messages(all.take(1)));
        let tail = &self.candidates.tail;
        let mut i: usize = 0;
        while i < tail.len()
            invariant
                i <= tail.len(),
                all == seq![self.candidates.head] + tail@,
                message_views(data@) == candidates_messages(all.take(i + 1)),
            decreases tail.len() - i,
        {
            assert(all.take(i + 2).drop_last() =~= all.take(i + 1));
            assert(all.take(i + 2).last() == tail[i as int]);
            push_parts_messages(&tail[i].content.parts, &mut data);
            i += 1;
        }
        assert(all.take(i + 1) =~= all);
        let last = if tail.len() > 0 {
            &tail[tail.len() - 1]
        } else {
            &self.candidates.head
        };
        assert(last == all.last());
        Response {
            data,
            usage: match &self.usage_metadata {
                Some(meta) => usage_of(meta),
                None => Usage::default(),
            },
            finish: match last.finish_reason {
                Some(reason) => finish_reason_of(reason),
                None => FinishReason::Stop,
            },
        }
    }

    /// The chunks that this response of a stream stands for.
    pub fn stream_chunks(&self) -> (r: Vec<StreamChunk>)
        requires
            countable(*self),
        ensures
            chunk_views(r@) == response_chunks(*self),
    {
        let ghost all = candidates_of(*self);
        let mut chunks: Vec<StreamChunk> = Vec::new();
        push_parts_chunks(&self.candidates.head.content.parts, &mut chunks);
        assert(all.take(1).drop_last() =~= Seq::<GeminiCandidate>::empty());
        assert(all.take(1).last() == self.candidates.head);
        assert(candidates_chunks(all.take(1).drop_last()) =~= Seq::<StreamChunkView>::empty());
        assert(chunk_views(chunks@) =~= candidates_chunks(all.take(1)));
        let tail = &self.candidates.tail;
        let mut i: usize = 0;
        while i < tail.len()
            invariant
                i <= tail.len(),
                all == seq![self.candidates.head] + tail@,
                chunk_views(chunks@) == candidates_chunks(all.take(i + 1)),
            decreases tail.len() - i,
        {
            assert(all.take(i + 2).drop_last() =~= all.take(i + 1));
            assert(all.take(i + 2).last() == tail[i as int]);
            push_parts_chunks(&tail[i].content.parts, &mut chunks);
            i += 1;
        }
        assert(all.take(i + 1) =~= all);
        match &self.usage_metadata {
            Some(meta) => {
                let ghost before = chunk_views(chunks@);
                let usage = usage_of(meta);
                chunks.push(StreamChunk::Usage(usage));
                assert(chunk_views(chunks@) =~= before.push(StreamChunkView::Usage(usage@)));
            },
            None => {},
        }
        let last = if tail.len() > 0 {
            &tail[tail.len() - 1]
        } else {
            &self.candidates.head
        };
        assert(last == all.last());
        match last.finish_reason {
            Some(reason) => {
                let ghost before = chunk_views(chunks@);
                chunks.push(StreamChunk::Finish(finish_reason_of(reason)));
                assert(chunk_views(chunks@) =~= before.push(
                    StreamChunkView::Finish(finish_of(reason)),
                ));
            },
            None => {},
        }
        assert(chunk_views(chunks@) =~= response_chunks(*self));
        chunks
    }
}

/// The address of the endpoint that generates content for a model, whole
/// or as a stream of events.
pub fn generate_url(base_url: &Option<String>, model: &Option<String>, key: &str, stream: bool) -> (r:
    String)
    ensures
        r@ == match *base_url {
            Some(base) => base@,
            None => DEFAULT_API_BASE@,
        } + "/v1beta/models/"@ + match *model {
            Some(m) => m@,
            None => DEFAULT_MODEL@,
        } + if stream {
            ":streamGenerateContent?alt=sse&key="@
        } else {
            ":generateContent?key="@
        } + key@,
{
    let mut url = match base_url {
        Some(base) => concat(base.as_str(), "/v1beta/models/"),
        None => concat(DEFAULT_API_BASE, "/v1beta/models/"),
    };
    match model {
        Some(m) => {
            url.append(m.as_str());
        },
        None => {
            url.append(DEFAULT_MODEL);
        },
    }
    if stream {
        url.append(":streamGenerateContent?alt=sse&key=");
    } else {
        url.append(":generateContent?key=");
    }
    url.append(key);
    url
}

} // verus!
