//! The item protocol: a response is a list of output items, each a message
//! or a reasoning trace made of fragments of text, and a stream carries
//! deltas of text and, at its end, the whole response.

use crate::model::{
    chunk_views, message_views, FinishReason, Message, MessageView, Part, PartView, Response,
    ResponseView, Role, StreamChunk, StreamChunkView,
};
use crate::text::{concat, join, joined};
use crate::usage::{Usage, UsageView};
use vstd::prelude::*;
use vstd::string::StringExecFns;

verus! {

#[derive(Debug, Clone, Copy, PartialEq, Eq, Structural)]
pub enum OpenAiRole {
    User,
    Assistant,
}

#[derive(Debug, Clone, Copy, PartialEq, Eq, Structural)]
pub enum OpenAiContentType {
    InputText,
    OutputText,
    Text,
    SummaryText,
    ReasoningText,
}

/// A fragment of text of an item.
#[derive(Debug, PartialEq)]
pub struct OpenAiContent {
    pub text: String,
    pub content_type: OpenAiContentType,
}

/// An item of a request or of a response.
#[allow(inconsistent_fields)]
#[derive(Debug, PartialEq)]
pub enum OpenAiMessage {
    Text { content: Vec<OpenAiContent>, role: OpenAiRole },
    Reasoning { summary: Vec<OpenAiContent>, content: Vec<OpenAiContent> },
}

#[derive(Debug, Clone, Copy, PartialEq, Eq, Structural)]
pub enum IncompleteReason {
    MaxPromptTokens,
    MaxOutputTokens,
    ContentFilter,
    Other,
}

#[derive(Debug, Clone, Copy, PartialEq, Eq, Structural)]
pub struct IncompleteDetails {
    pub reason: IncompleteReason,
}

#[derive(Debug, Clone, Copy, PartialEq, Eq, Structural)]
pub struct OpenAiUsage {
    pub input_tokens: u32,
    pub output_tokens: u32,
}

/// A whole response.
#[derive(Debug, PartialEq)]
pub struct OpenAiResponse {
    pub id: String,
    pub created_at: u64,
    pub model: String,
    pub output: Vec<OpenAiMessage>,
    pub usage: Option<OpenAiUsage>,
    pub incomplete_details: Option<IncompleteDetails>,
}

/// One event of a stream.
#[derive(Debug, PartialEq)]
pub enum OpenAiStreamEvent {
    ResponseOutputTextDelta { delta: String },
    ResponseReasoningTextDelta { delta: String },
    ResponseComplete { response: OpenAiResponse },
    ResponseIncomplete { response: OpenAiResponse },
    Other,
}

/// Where requests go unless the transport names another place.
pub const DEFAULT_API_BASE: &'static str = "https://api.openai.com";

/// The model that is asked unless the options name another.
pub const DEFAULT_MODEL: &'static str = "gpt-5";

/// The address of the endpoint for responses.
pub fn responses_url(base_url: &Option<String>) -> (r: String)
    ensures
        r@ == match *base_url {
            Some(base) => base@,
            None => DEFAULT_API_BASE@,
        } + "/v1/responses"@,
{
    match base_url {
        Some(base) => concat(base.as_str(), "/v1/responses"),
        None => concat(DEFAULT_API_BASE, "/v1/responses"),
    }
}

/// The finish reason for a response that is incomplete. A prompt over the
/// limit counts as an error.
pub open spec fn incomplete_finish(details: IncompleteDetails) -> FinishReason {
    match details.reason {
        IncompleteReason::MaxPromptTokens => FinishReason::Error,
        IncompleteReason::MaxOutputTokens => FinishReason::OutputTokens,
        IncompleteReason::ContentFilter => FinishReason::ContentFilter,
        IncompleteReason::Other => FinishReason::Stop,
    }
}

/// The finish reason of a response: a stop, unless it is incomplete.
pub open spec fn response_finish(details: Option<IncompleteDetails>) -> FinishReason {
    match details {
        Some(d) => incomplete_finish(d),
        None => FinishReason::Stop,
    }
}

/// The usage that a response reports.
pub open spec fn reported_usage(usage: Option<OpenAiUsage>) -> UsageView {
    match usage {
        Some(u) => UsageView {
            prompt_tokens: Some(u.input_tokens as nat),
            completion_tokens: Some(u.output_tokens as nat),
        },
        None => UsageView::empty(),
    }
}

/// The texts of fragments.
pub open spec fn texts(content: Seq<OpenAiContent>) -> Seq<Seq<char>> {
    content.map_values(|c: OpenAiContent| c.text@)
}

/// The text that fragments make together: the fragments with an empty
/// line between each two.
pub open spec fn whole_text(content: Seq<OpenAiContent>) -> Seq<char> {
    joined(texts(content), "\n\n"@)
}

/// The text, or none where it is empty.
pub open spec fn unless_empty(text: Seq<char>) -> Option<Seq<char>> {
    if text.len() == 0 {
        None
    } else {
        Some(text)
    }
}

/// The role that a role of this provider stands for.
pub open spec fn role_of(role: OpenAiRole) -> Role {
    match role {
        OpenAiRole::User => Role::User,
        OpenAiRole::Assistant => Role::Assistant,
    }
}

/// The message that an output item stands for: one closed unit with the
/// whole text of the item. A reasoning trace keeps its summary, unless the
/// summary is empty.
pub open spec fn item_message(item: OpenAiMessage) -> MessageView {
    match item {
        OpenAiMessage::Text { content, role } => MessageView {
            role: role_of(role),
            parts: seq![PartView::Text { content: whole_text(content@), finished: true }],
        },
        OpenAiMessage::Reasoning { summary, content } => MessageView {
            role: Role::Assistant,
            parts: seq![
                PartView::Reasoning {
                    content: whole_text(content@),
                    summary: unless_empty(whole_text(summary@)),
                    signature: None,
                    finished: true,
                },
            ],
        },
    }
}

/// The response that a whole provider response stands for: one message
/// for each output item.
pub open spec fn whole_response(resp: OpenAiResponse) -> ResponseView {
    ResponseView {
        data: resp.output@.map_values(|m: OpenAiMessage| item_message(m)),
        usage: reported_usage(resp.usage),
        finish: response_finish(resp.incomplete_details),
    }
}

/// A message with one open unit of text.
pub open spec fn delta_message(text: Seq<char>, reasoning: bool) -> MessageView {
    MessageView {
        role: Role::Assistant,
        parts: seq![
            if reasoning {
                PartView::Reasoning {
                    content: text,
                    summary: None,
                    signature: None,
                    finished: false,
                }
            } else {
                PartView::Text { content: text, finished: false }
            },
        ],
    }
}

/// The chunks at the end of a stream: the usage, if the response reports
/// any, then the finish reason.
pub open spec fn final_chunks(resp: OpenAiResponse) -> Seq<StreamChunkView> {
    (match resp.usage {
        Some(u) => seq![StreamChunkView::Usage(reported_usage(Some(u)))],
        None => Seq::empty(),
    }) + seq![StreamChunkView::Finish(response_finish(resp.incomplete_details))]
}

/// The chunks that an event of a stream stands for. Events of other kinds
/// stand for none.
pub open spec fn event_chunks(event: OpenAiStreamEvent) -> Seq<StreamChunkView> {
    match event {
        OpenAiStreamEvent::ResponseOutputTextDelta { delta } => seq![
            StreamChunkView::Data(delta_message(delta@, false)),
        ],
        OpenAiStreamEvent::ResponseReasoningTextDelta { delta } => seq![
            StreamChunkView::Data(delta_message(delta@, true)),
        ],
        OpenAiStreamEvent::ResponseComplete { response } => final_chunks(response),
        OpenAiStreamEvent::ResponseIncomplete { response } => final_chunks(response),
        OpenAiStreamEvent::Other => Seq::empty(),
    }
}

pub struct ContentView {
    pub text: Seq<char>,
    pub content_type: OpenAiContentType,
}

#[allow(inconsistent_fields)]
pub enum ItemView {
    Text { content: Seq<ContentView>, role: OpenAiRole },
    Reasoning { summary: Seq<ContentView>, content: Seq<ContentView> },
}

impl View for OpenAiContent {
    type V = ContentView;

    open spec fn view(&self) -> ContentView {
        ContentView { text: self.text@, content_type: self.content_type }
    }
}

/// The views of fragments.
pub open spec fn content_views(v: Seq<OpenAiContent>) -> Seq<ContentView> {
    v.map_values(|c: OpenAiContent| c@)
}

impl View for OpenAiMessage {
    type V = ItemView;

    open spec fn view(&self) -> ItemView {
        match *self {
            OpenAiMessage::Text { content, role } => ItemView::Text {
                content: content_views(content@),
                role,
            },
            OpenAiMessage::Reasoning { summary, content } => ItemView::Reasoning {
                summary: content_views(summary@),
                content: content_views(content@),
            },
        }
    }
}

/// The views of a sequence of items.
pub open spec fn item_views(v: Seq<OpenAiMessage>) -> Seq<ItemView> {
    v.map_values(|m: OpenAiMessage| m@)
}

/// An item with one fragment of text.
pub open spec fn text_item(text: Seq<char>, content_type: OpenAiContentType, role: OpenAiRole) -> ItemView {
    ItemView::Text { content: seq![ContentView { text, content_type }], role }
}

/// The input item that a unit of a message stands for. Text is input or
/// output text by the role of the message. A reasoning trace goes with its
/// summary. Units of other kinds have no form of their own here and go as
/// an empty text of the assistant.
pub open spec fn unit_item(role: Role, part: PartView) -> ItemView {
    match part {
        PartView::Text { content, .. } => match role {
            Role::User => text_item(content, OpenAiContentType::InputText, OpenAiRole::User),
            Role::Assistant => text_item(
                content,
                OpenAiContentType::OutputText,
                OpenAiRole::Assistant,
            ),
        },
        PartView::Reasoning { content, summary, .. } => ItemView::Reasoning {
            summary: seq![
                ContentView {
                    text: match summary {
                        Some(s) => s,
                        None => Seq::empty(),
                    },
                    content_type: OpenAiContentType::SummaryText,
                },
            ],
            content: seq![ContentView { text: content, content_type: OpenAiContentType::ReasoningText }],
        },
        _ => text_item(Seq::empty(), OpenAiContentType::Text, OpenAiRole::Assistant),
    }
}

/// The input items of one message: one for each unit, in order.
pub open spec fn message_items(message: MessageView) -> Seq<ItemView> {
    message.parts.map_values(|p: PartView| unit_item(message.role, p))
}

/// The input items of a conversation: those of its messages, in order.
pub open spec fn input_items(messages: Seq<MessageView>) -> Seq<ItemView>
    decreases messages.len(),
{
    if messages.len() == 0 {
        Seq::empty()
    } else {
        input_items(messages.drop_last()) + message_items(messages.last())
    }
}

/// The finish reason of a response.
pub fn finish_of(details: &Option<IncompleteDetails>) -> (r: FinishReason)
    ensures
        r == response_finish(*details),
{
    match details {
        Some(d) => match d.reason {
            IncompleteReason::MaxPromptTokens => FinishReason::Error,
            IncompleteReason::MaxOutputTokens => FinishReason::OutputTokens,
            IncompleteReason::ContentFilter => FinishReason::ContentFilter,
            IncompleteReason::Other => FinishReason::Stop,
        },
        None => FinishReason::Stop,
    }
}

/// The usage that a response reports.
pub fn usage_of(usage: &Option<OpenAiUsage>) -> (r: Usage)
    ensures
        r@ == reported_usage(*usage),
{
    match usage {
        Some(u) => Usage {
            prompt_tokens: Some(u.input_tokens),
            completion_tokens: Some(u.output_tokens),
        },
        None => Usage::default(),
    }
}

/// The text that fragments make together.
pub fn text_of(content: &Vec<OpenAiContent>) -> (r: String)
    ensures
        r@ == whole_text(content@),
{
    let mut items: Vec<String> = Vec::new();
    let mut i: usize = 0;
    while i < content.len()
        invariant
            i <= content.len(),
            items.len() == i,
            forall|j: int| 0 <= j < i ==> items[j]@ == content[j].text@,
        decreases content.len() - i,
    {
        items.push(content[i].text.clone());
        i += 1;
    }
    assert(items.deep_view() =~= texts(content@));
    join(&items, "\n\n")
}

fn single(part: Part) -> (r: Vec<Part>)
    ensures
        crate::model::part_views(r@) == seq![part@],
{
    let mut parts: Vec<Part> = Vec::new();
    parts.push(part);
    assert(crate::model::part_views(parts@) =~= seq![part@]);
    parts
}

/// The message that an output item stands for.
pub fn message_of(item: &OpenAiMessage) -> (r: Message)
    ensures
        r@ == item_message(*item),
{
    match item {
        OpenAiMessage::Text { content, role } => {
            let parts = single(Part::Text { content: text_of(content), finished: true });
            match role {
                OpenAiRole::User => Message::User(parts),
                OpenAiRole::Assistant => Message::Assistant(parts),
            }
        },
        OpenAiMessage::Reasoning { summary, content } => {
            let whole = text_of(summary);
            let summary = if whole.as_str().is_empty() {
                None
            } else {
                Some(whole)
            };
            Message::Assistant(
                single(
                    Part::Reasoning {
                        content: text_of(content),
                        summary,
                        signature: None,
                        finished: true,
                    },
                ),
            )
        },
    }
}

impl OpenAiResponse {
    /// Decodes a whole response: one message for each output item, with
    /// the usage it reports and the reason it ended.
    pub fn to_response(&self) -> (r: Response)
        ensures
            r@ == whole_response(*self),
            r@.finish.is_terminal(),
    {
        let mut data: Vec<Message> = Vec::new();
        let mut i: usize = 0;
        while i < self.output.len()
            invariant
                i <= self.output.len(),
                data.len() == i,
                forall|j: int| 0 <= j < i ==> data[j]@ == item_message(self.output[j]),
            decreases self.output.len() - i,
        {
            data.push(message_of(&self.output[i]));
            i += 1;
        }
        let r = Response {
            data,
            usage: usage_of(&self.usage),
            finish: finish_of(&self.incomplete_details),
        };
        assert(r@.data =~= whole_response(*self).data);
        r
    }
}

/// The chunks that an event of a stream stands for.
pub fn stream_chunks(event: &OpenAiStreamEvent) -> (r: Vec<StreamChunk>)
    ensures
        chunk_views(r@) == event_chunks(*event),
{
    let mut chunks: Vec<StreamChunk> = Vec::new();
    match event {
        OpenAiStreamEvent::ResponseOutputTextDelta { delta } => {
            chunks.push(
                StreamChunk::Data(
                    Message::Assistant(single(Part::Text { content: delta.clone(), finished: false })),
                ),
            );
        },
        OpenAiStreamEvent::ResponseReasoningTextDelta { delta } => {
            chunks.push(
                StreamChunk::Data(
                    Message::Assistant(
                        single(
                            Part::Reasoning {
                                content: delta.clone(),
                                summary: None,
                                signature: None,
                                finished: false,
                            },
                        ),
                    ),
                ),
            );
        },
        OpenAiStreamEvent::ResponseComplete { response } => {
            match &response.usage {
                Some(_) => {
                    chunks.push(StreamChunk::Usage(usage_of(&response.usage)));
                },
                None => {},
            }
            chunks.push(StreamChunk::Finish(finish_of(&response.incomplete_details)));
        },
        OpenAiStreamEvent::ResponseIncomplete { response } => {
            match &response.usage {
                Some(_) => {
                    chunks.push(StreamChunk::Usage(usage_of(&response.usage)));
                },
                None => {},
            }
            chunks.push(StreamChunk::Finish(finish_of(&response.incomplete_details)));
        },
        OpenAiStreamEvent::Other => {},
    }
    assert(chunk_views(chunks@) =~= event_chunks(*event));
    chunks
}

fn fragment(text: String, content_type: OpenAiContentType) -> (r: Vec<OpenAiContent>)
    ensures
        content_views(r@) == seq![ContentView { text: text@, content_type }],
{
    let mut content: Vec<OpenAiContent> = Vec::new();
    content.push(OpenAiContent { text, content_type });
    assert(content_views(content@) =~= seq![ContentView { text: text@, content_type }]);
    content
}

/// The input item that a unit of a message stands for.
pub fn item_of(role: Role, part: &Part) -> (r: OpenAiMessage)
    ensures
        r@ == unit_item(role, part@),
{
    match part {
        Part::Text { content, .. } => match role {
            Role::User => OpenAiMessage::Text {
                content: fragment(content.clone(), OpenAiContentType::InputText),
                role: OpenAiRole::User,
            },
            Role::Assistant => OpenAiMessage::Text {
                content: fragment(content.clone(), OpenAiContentType::OutputText),
                role: OpenAiRole::Assistant,
            },
        },
        Part::Reasoning { content, summary, .. } => {
            let text = match summary {
                Some(s) => s.clone(),
                None => String::new(),
            };
            OpenAiMessage::Reasoning {
                summary: fragment(text, OpenAiContentType::SummaryText),
                content: fragment(content.clone(), OpenAiContentType::ReasoningText),
            }
        },
        _ => OpenAiMessage::Text {
            content: fragment(String::new(), OpenAiContentType::Text),
            role: OpenAiRole::Assistant,
        },
    }
}

/// Makes the input items of a request from a conversation.
pub fn items_for_request(messages: &Vec<Message>) -> (r: Vec<OpenAiMessage>)
    ensures
        item_views(r@) == input_items(message_views(messages@)),
{
    let ghost all = message_views(messages@);
    let mut out: Vec<OpenAiMessage> = Vec::new();
    let mut i: usize = 0;
    assert(item_views(out@) =~= input_items(all.take(0)));
    while i < messages.len()
        invariant
            i <= messages.len(),
            all == message_views(messages@),
            item_views(out@) == input_items(all.take(i as int)),
        decreases messages.len() - i,
    {
        assert(all.take(i + 1).drop_last() =~= all.take(i as int));
        assert(all.take(i + 1).last() == messages[i as int]@);
        let message = &messages[i];
        let role = *message.role();
        let parts = message.parts();
        let ghost before = item_views(out@);
        let ghost units = message@.parts;
        let mut j: usize = 0;
        assert(item_views(out@) =~= before + message_items(
            MessageView { role, parts: units.take(0) },
        ));
        while j < parts.len()
            invariant
                j <= parts.len(),
                units == crate::model::part_views(parts@),
                item_views(out@) == before + message_items(
                    MessageView { role, parts: units.take(j as int) },
                ),
            decreases parts.len() - j,
        {
            let ghost held = item_views(out@);
            let item = item_of(role, &parts[j]);
            out.push(item);
            assert(item_views(out@) =~= held.push(item@));
            assert(item_views(out@) =~= before + message_items(
                MessageView { role, parts: units.take(j + 1) },
            ));
            j += 1;
        }
        assert(units.take(j as int) =~= units);
        i += 1;
    }
    assert(all.take(i as int) =~= all);
    out
}

} // verus!
