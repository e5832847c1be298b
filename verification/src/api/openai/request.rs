//! The messages of a request, made from a conversation.

use crate::api::openai::{OpenAiFunctionCall, OpenAiToolCall};
use crate::encoding::anchor_text;
use crate::json::{displayed, is_empty_object, json_displayed, json_empty_object};
use crate::model::{
    clone_opt_string, media_views, message_views, part_views, Media, MediaType, MediaView,
    Message, MessageView, Part, PartView, Role,
};
use crate::text::{concat, has_prefix};
use serde_json::Value;
use vstd::prelude::*;
use vstd::string::StringExecFns;

verus! {

#[derive(Debug, PartialEq)]
pub struct OpenAiImageUrl {
    pub url: String,
}

#[derive(Debug, PartialEq)]
pub struct OpenAiFileContent {
    pub file_data: Option<String>,
    pub file_id: Option<String>,
    pub filename: Option<String>,
}

#[derive(Debug, PartialEq)]
pub enum OpenAiContentPart {
    Text { text: String },
    ImageUrl { image_url: OpenAiImageUrl },
    File { file: OpenAiFileContent },
}

#[derive(Debug, PartialEq)]
pub enum OpenAiContent {
    Text(String),
    Parts(Vec<OpenAiContentPart>),
}

/// One message of a request.
#[derive(Debug, PartialEq)]
pub struct OpenAiMessage {
    pub role: String,
    pub content: OpenAiContent,
    pub name: Option<String>,
    pub tool_call_id: Option<String>,
    pub tool_calls: Vec<OpenAiToolCall>,
}

pub enum ContentPartView {
    Text { text: Seq<char> },
    ImageUrl { url: Seq<char> },
    File { file_data: Option<Seq<char>>, file_id: Option<Seq<char>>, filename: Option<Seq<char>> },
}

pub enum ContentView {
    Text(Seq<char>),
    Parts(Seq<ContentPartView>),
}

pub struct CallView {
    pub id: Seq<char>,
    pub call_type: Seq<char>,
    pub name: Seq<char>,
    pub arguments: Seq<char>,
}

pub struct OpenAiMessageView {
    pub role: Seq<char>,
    pub content: ContentView,
    pub name: Option<Seq<char>>,
    pub tool_call_id: Option<Seq<char>>,
    pub tool_calls: Seq<CallView>,
}

/// The text of an optional string.
pub open spec fn opt(o: Option<String>) -> Option<Seq<char>> {
    match o {
        Some(s) => Some(s@),
        None => None,
    }
}

impl View for OpenAiContentPart {
    type V = ContentPartView;

    open spec fn view(&self) -> ContentPartView {
        match *self {
            OpenAiContentPart::Text { text } => ContentPartView::Text { text: text@ },
            OpenAiContentPart::ImageUrl { image_url } => ContentPartView::ImageUrl {
                url: image_url.url@,
            },
            OpenAiContentPart::File { file } => ContentPartView::File {
                file_data: opt(file.file_data),
                file_id: opt(file.file_id),
                filename: opt(file.filename),
            },
        }
    }
}

/// The views of a sequence of content parts.
pub open spec fn content_part_views(v: Seq<OpenAiContentPart>) -> Seq<ContentPartView> {
    v.map_values(|p: OpenAiContentPart| p@)
}

impl View for OpenAiContent {
    type V = ContentView;

    open spec fn view(&self) -> ContentView {
        match *self {
            OpenAiContent::Text(text) => ContentView::Text(text@),
            OpenAiContent::Parts(parts) => ContentView::Parts(content_part_views(parts@)),
        }
    }
}

impl View for OpenAiToolCall {
    type V = CallView;

    open spec fn view(&self) -> CallView {
        CallView {
            id: self.id@,
            call_type: self.call_type@,
            name: self.function.name@,
            arguments: self.function.arguments@,
        }
    }
}

/// The views of a sequence of tool calls.
pub open spec fn tool_call_views(v: Seq<OpenAiToolCall>) -> Seq<CallView> {
    v.map_values(|c: OpenAiToolCall| c@)
}

impl View for OpenAiMessage {
    type V = OpenAiMessageView;

    open spec fn view(&self) -> OpenAiMessageView {
        OpenAiMessageView {
            role: self.role@,
            content: self.content@,
            name: opt(self.name),
            tool_call_id: opt(self.tool_call_id),
            tool_calls: tool_call_views(self.tool_calls@),
        }
    }
}

/// The views of a sequence of request messages.
pub open spec fn request_views(v: Seq<OpenAiMessage>) -> Seq<OpenAiMessageView> {
    v.map_values(|m: OpenAiMessage| m@)
}

/// The data URL of an image.
pub open spec fn data_url(media: MediaView) -> Seq<char> {
    "data:"@ + media.mime_type + ";base64,"@ + media.data
}

/// The content parts for a media unit of a message: a line that announces
/// it, then the image as a data URL, or the payload as a file for media
/// of other kinds.
pub open spec fn media_parts(media: MediaView) -> Seq<ContentPartView> {
    seq![
        ContentPartView::Text { text: anchor_text(media) },
        match media.media_type {
            MediaType::Image => ContentPartView::ImageUrl { url: data_url(media) },
            _ => ContentPartView::File {
                file_data: Some(media.data),
                file_id: None,
                filename: media.uri,
            },
        },
    ]
}

/// The lines for an attachment of a tool result: a line that announces
/// it, and a line that says what it is.
pub open spec fn attachment_lines(media: MediaView) -> Seq<char> {
    "\n"@ + anchor_text(media) + match media.media_type {
        MediaType::Image => "\n[Image Content]"@,
        _ => "\n[File: "@ + media.mime_type + "]"@,
    }
}

/// The lines for the attachments of a tool result, in order.
pub open spec fn attachments_lines(parts: Seq<MediaView>) -> Seq<char>
    decreases parts.len(),
{
    if parts.len() == 0 {
        Seq::empty()
    } else {
        attachments_lines(parts.drop_last()) + attachment_lines(parts.last())
    }
}

/// The text of a tool result: the response as JSON text, unless it is the
/// empty object, then the lines for the attachments.
pub open spec fn result_text(response: Value, parts: Seq<MediaView>) -> Seq<char> {
    (if response == json_empty_object() {
        Seq::empty()
    } else {
        json_displayed(response)
    }) + attachments_lines(parts)
}

/// What the units of one message come to.
pub struct Gathered {
    pub content: Seq<ContentPartView>,
    pub tool_calls: Seq<CallView>,
    pub tool_call_id: Option<Seq<char>>,
}

impl Gathered {
    pub open spec fn empty() -> Gathered {
        Gathered { content: Seq::empty(), tool_calls: Seq::empty(), tool_call_id: None }
    }

    /// With one more unit. Text and media add content. A call with an id
    /// adds a tool call. A tool result with an id makes the message an
    /// answer to that call and adds its text. Everything else adds
    /// nothing.
    pub open spec fn with(self, part: PartView) -> Gathered {
        match part {
            PartView::Text { content, .. } => Gathered {
                content: self.content.push(ContentPartView::Text { text: content }),
                ..self
            },
            PartView::Media(media) => Gathered {
                content: self.content + media_parts(media),
                ..self
            },
            PartView::FunctionCall { id: Some(id), name, arguments, .. } => Gathered {
                tool_calls: self.tool_calls.push(
                    CallView {
                        id,
                        call_type: "function"@,
                        name,
                        arguments: json_displayed(arguments),
                    },
                ),
                ..self
            },
            PartView::FunctionResponse { id: Some(id), response, parts, .. } => Gathered {
                content: self.content.push(
                    ContentPartView::Text { text: result_text(response, parts) },
                ),
                tool_call_id: Some(id),
                ..self
            },
            _ => self,
        }
    }
}

/// What the units of a message come to, taken in order.
pub open spec fn gathered(parts: Seq<PartView>) -> Gathered
    decreases parts.len(),
{
    if parts.len() == 0 {
        Gathered::empty()
    } else {
        gathered(parts.drop_last()).with(parts.last())
    }
}

/// The content of a message: a single text part as plain text, several
/// parts as a list, and the empty text where there is no part.
pub open spec fn folded(content: Seq<ContentPartView>) -> ContentView {
    if content.len() == 1 && content[0] is Text {
        ContentView::Text(content[0]->text)
    } else if content.len() > 0 {
        ContentView::Parts(content)
    } else {
        ContentView::Text(Seq::empty())
    }
}

/// The word for a role.
pub open spec fn role_word(role: Role) -> Seq<char> {
    match role {
        Role::User => "user"@,
        Role::Assistant => "assistant"@,
    }
}

/// The message of a request that a message of the conversation becomes.
/// One that answers a tool call has the role `tool`.
pub open spec fn request_message(message: MessageView) -> OpenAiMessageView {
    let g = gathered(message.parts);
    OpenAiMessageView {
        role: if g.tool_call_id is Some {
            "tool"@
        } else {
            role_word(message.role)
        },
        content: folded(g.content),
        name: None,
        tool_call_id: g.tool_call_id,
        tool_calls: g.tool_calls,
    }
}

/// The message that carries the system prompt.
pub open spec fn system_message(system: Seq<char>) -> OpenAiMessageView {
    OpenAiMessageView {
        role: "system"@,
        content: ContentView::Text(system),
        name: None,
        tool_call_id: None,
        tool_calls: Seq::empty(),
    }
}

/// The messages of a request: the system prompt first, if there is one,
/// then one message for each message of the conversation.
pub open spec fn request_messages(
    system: Option<Seq<char>>,
    messages: Seq<MessageView>,
) -> Seq<OpenAiMessageView> {
    (match system {
        Some(s) => seq![system_message(s)],
        None => Seq::empty(),
    }) + messages.map_values(|m: MessageView| request_message(m))
}

/// The limits on tokens of a request: which of the two limits carries the
/// value depends on the model.
pub struct TokenLimits {
    pub max_tokens: Option<u32>,
    pub max_completion_tokens: Option<u32>,
}

/// Whether a model takes its token limit as a limit on completion tokens.
pub open spec fn is_reasoning_model(model: Seq<char>) -> bool {
    "o1"@.is_prefix_of(model) || "o3"@.is_prefix_of(model)
}

/// The limits on tokens for a model.
pub fn token_limits(model: &str, max_tokens: Option<u32>) -> (r: TokenLimits)
    ensures
        r.max_tokens == if is_reasoning_model(model@) {
            None
        } else {
            max_tokens
        },
        r.max_completion_tokens == if is_reasoning_model(model@) {
            max_tokens
        } else {
            None
        },
{
    if has_prefix(model, "o1") || has_prefix(model, "o3") {
        TokenLimits { max_tokens: None, max_completion_tokens: max_tokens }
    } else {
        TokenLimits { max_tokens, max_completion_tokens: None }
    }
}

fn result_text_of(response: &Value, parts: &Vec<Media>) -> (r: String)
    ensures
        r@ == result_text(*response, media_views(parts@)),
{
    let mut text = String::new();
    if !is_empty_object(response) {
        text.append(displayed(response).as_str());
    }
    let ghost head = text@;
    let ghost media = media_views(parts@);
    let mut i: usize = 0;
    assert(text@ =~= head + attachments_lines(media.take(0)));
    while i < parts.len()
        invariant
            i <= parts.len(),
            media == media_views(parts@),
            text@ == head + attachments_lines(media.take(i as int)),
        decreases parts.len() - i,
    {
        assert(media.take(i + 1).drop_last() =~= media.take(i as int));
        assert(media.take(i + 1).last() == parts[i as int]@);
        let ghost before = text@;
        let part = &parts[i];
        text.append("\n");
        text.append(part.anchor().as_str());
        match part.media_type {
            MediaType::Image => {
                text.append("\n[Image Content]");
            },
            _ => {
                text.append("\n[File: ");
                text.append(part.mime_type.as_str());
                text.append("]");
            },
        }
        assert(text@ =~= before + attachment_lines(part@));
        assert(text@ =~= head + attachments_lines(media.take(i + 1)));
        i += 1;
    }
    assert(media.take(i as int) =~= media);
    assert(text@ =~= result_text(*response, media));
    text
}

/// The message of a request that a message of the conversation becomes.
pub fn message_for_request(message: &Message) -> (r: OpenAiMessage)
    ensures
        r@ == request_message(message@),
{
    let parts = message.parts();
    let ghost units = part_views(parts@);
    let mut content: Vec<OpenAiContentPart> = Vec::new();
    let mut tool_calls: Vec<OpenAiToolCall> = Vec::new();
    let mut tool_call_id: Option<String> = None;
    let mut i: usize = 0;
    assert(content_part_views(content@) =~= Seq::empty());
    assert(tool_call_views(tool_calls@) =~= Seq::empty());
    while i < parts.len()
        invariant
            i <= parts.len(),
            units == part_views(parts@),
            gathered(units.take(i as int)) == (Gathered {
                content: content_part_views(content@),
                tool_calls: tool_call_views(tool_calls@),
                tool_call_id: opt(tool_call_id),
            }),
        decreases parts.len() - i,
    {
        assert(units.take(i + 1).drop_last() =~= units.take(i as int));
        assert(units.take(i + 1).last() == parts[i as int]@);
        let ghost held = content_part_views(content@);
        let ghost calls = tool_call_views(tool_calls@);
        match &parts[i] {
            Part::Text { content: text, .. } => {
                let part = OpenAiContentPart::Text { text: text.clone() };
                content.push(part);
                assert(content_part_views(content@) =~= held.push(part@));
            },
            Part::Media(media) => {
                content.push(OpenAiContentPart::Text { text: media.anchor() });
                let part = match media.media_type {
                    MediaType::Image => {
                        let mut url = concat("data:", media.mime_type.as_str());
                        url.append(";base64,");
                        url.append(media.data.as_str());
                        OpenAiContentPart::ImageUrl { image_url: OpenAiImageUrl { url } }
                    },
                    _ => OpenAiContentPart::File {
                        file: OpenAiFileContent {
                            file_data: Some(media.data.clone()),
                            file_id: None,
                            filename: clone_opt_string(&media.uri),
                        },
                    },
                };
                content.push(part);
                assert(content_part_views(content@) =~= held + media_parts(media@));
            },
            Part::FunctionCall { id, name, arguments, .. } => {
                match id {
                    Some(call_id) => {
                        let call = OpenAiToolCall {
                            id: call_id.clone(),
                            call_type: String::from_str("function"),
                            function: OpenAiFunctionCall {
                                name: name.clone(),
                                arguments: displayed(arguments),
                            },
                        };
                        tool_calls.push(call);
                        assert(tool_call_views(tool_calls@) =~= calls.push(call@));
                    },
                    None => {},
                }
            },
            Part::FunctionResponse { id, response, parts: attached, .. } => {
                match id {
                    Some(call_id) => {
                        tool_call_id = Some(call_id.clone());
                        let part = OpenAiContentPart::Text {
                            text: result_text_of(response, attached),
                        };
                        content.push(part);
                        assert(content_part_views(content@) =~= held.push(part@));
                    },
                    None => {},
                }
            },
            _ => {},
        }
        i += 1;
    }
    assert(units.take(i as int) =~= units);
    let role = if tool_call_id.is_some() {
        "tool"
    } else {
        match message {
            Message::User(_) => "user",
            Message::Assistant(_) => "assistant",
        }
    };
    assert(content_part_views(content@).len() == content.len());
    let folded_content = if content.len() == 1 {
        assert(content_part_views(content@)[0] == content[0]@);
        match &content[0] {
            OpenAiContentPart::Text { text } => OpenAiContent::Text(text.clone()),
            _ => OpenAiContent::Parts(content),
        }
    } else if content.len() > 0 {
        OpenAiContent::Parts(content)
    } else {
        OpenAiContent::Text(String::new())
    };
    OpenAiMessage {
        role: String::from_str(role),
        content: folded_content,
        name: None,
        tool_call_id,
        tool_calls,
    }
}

/// Makes the messages of a request from a system prompt and a
/// conversation.
pub fn messages_for_request(system: &Option<String>, messages: &Vec<Message>) -> (r: Vec<
    OpenAiMessage,
>)
    ensures
        request_views(r@) == request_messages(opt(*system), message_views(messages@)),
{
    let ghost all = message_views(messages@);
    let mut out: Vec<OpenAiMessage> = Vec::new();
    match system {
        Some(s) => {
            let entry = OpenAiMessage {
                role: String::from_str("system"),
                content: OpenAiContent::Text(s.clone()),
                name: None,
                tool_call_id: None,
                tool_calls: Vec::new(),
            };
            assert(entry@.tool_calls =~= Seq::empty());
            out.push(entry);
            assert(request_views(out@) =~= seq![system_message(s@)]);
        },
        None => {
            assert(request_views(out@) =~= Seq::empty());
        },
    }
    let ghost head = request_views(out@);
    let mut i: usize = 0;
    assert(request_views(out@) =~= head + all.take(0).map_values(
        |m: MessageView| request_message(m),
    ));
    while i < messages.len()
        invariant
            i <= messages.len(),
            all == message_views(messages@),
            request_views(out@) == head + all.take(i as int).map_values(
                |m: MessageView| request_message(m),
            ),
        decreases messages.len() - i,
    {
        let entry = message_for_request(&messages[i]);
        let ghost before = request_views(out@);
        out.push(entry);
        assert(request_views(out@) =~= before.push(entry@));
        assert(request_views(out@) =~= head + all.take(i + 1).map_values(
            |m: MessageView| request_message(m),
        ));
        i += 1;
    }
    assert(all.take(i as int) =~= all);
    out
}

} // verus!
