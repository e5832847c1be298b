//! What a tool host hands back, turned into conversation content.
//!
//! Talking to a tool host is not done here. This module holds the values
//! that come back from one, as plain data, and the rules that turn them
//! into units and messages.

use crate::json::{
    empty_object, json_empty_object, json_member, json_strings, member_object, parse_json,
    parsed_json, strings_value,
};
use crate::model::{
    media_views, part_views, message_views, Media, MediaType, MediaView, Message, MessageView,
    Part, PartView, Role,
};
use crate::text::{concat, has_prefix, same_text};
use serde_json::Value;
use vstd::prelude::*;
use vstd::string::StringExecFns;

verus! {

/// What can go wrong with a tool host.
#[derive(Debug, PartialEq)]
pub enum MCPError {
    Mcp(String),
    ToolNotFound(String),
    PromptNotFound(String),
    ResourceNotFound(String),
    ServerNotFound(String),
    ServerIdMismatch,
}

pub enum MCPErrorView {
    Mcp(Seq<char>),
    ToolNotFound(Seq<char>),
    PromptNotFound(Seq<char>),
    ResourceNotFound(Seq<char>),
    ServerNotFound(Seq<char>),
    ServerIdMismatch,
}

impl View for MCPError {
    type V = MCPErrorView;

    open spec fn view(&self) -> MCPErrorView {
        match *self {
            MCPError::Mcp(s) => MCPErrorView::Mcp(s@),
            MCPError::ToolNotFound(s) => MCPErrorView::ToolNotFound(s@),
            MCPError::PromptNotFound(s) => MCPErrorView::PromptNotFound(s@),
            MCPError::ResourceNotFound(s) => MCPErrorView::ResourceNotFound(s@),
            MCPError::ServerNotFound(s) => MCPErrorView::ServerNotFound(s@),
            MCPError::ServerIdMismatch => MCPErrorView::ServerIdMismatch,
        }
    }
}

impl MCPErrorView {
    /// The message that describes the error.
    pub open spec fn message(self) -> Seq<char> {
        match self {
            MCPErrorView::Mcp(s) => "MCP error: "@ + s,
            MCPErrorView::ToolNotFound(s) => "Tool not found: "@ + s,
            MCPErrorView::PromptNotFound(s) => "Prompt not found: "@ + s,
            MCPErrorView::ResourceNotFound(s) => "Resource not found: "@ + s,
            MCPErrorView::ServerNotFound(s) => "Server not found: "@ + s,
            MCPErrorView::ServerIdMismatch => "Server ID mismatch"@,
        }
    }
}

impl MCPError {
    /// The message that describes the error.
    pub fn message(&self) -> (r: String)
        ensures
            r@ == self@.message(),
    {
        match self {
            MCPError::Mcp(s) => concat("MCP error: ", s.as_str()),
            MCPError::ToolNotFound(s) => concat("Tool not found: ", s.as_str()),
            MCPError::PromptNotFound(s) => concat("Prompt not found: ", s.as_str()),
            MCPError::ResourceNotFound(s) => concat("Resource not found: ", s.as_str()),
            MCPError::ServerNotFound(s) => concat("Server not found: ", s.as_str()),
            MCPError::ServerIdMismatch => String::from_str("Server ID mismatch"),
        }
    }
}

/// A value together with the id of the server that it came from.
#[derive(Debug, Clone)]
pub struct Served<T> {
    pub value: T,
    pub server_id: String,
}

impl<T> Served<T> {
    pub fn new(value: T, server_id: String) -> (r: Self)
        ensures
            r.value == value,
            r.server_id == server_id,
    {
        Self { value, server_id }
    }
}

/// Values that can be tagged with the server they came from.
pub trait Servable: Sized {
    fn served(self, id: String) -> (r: Served<Self>)
        ensures
            r.value == self,
            r.server_id == id,
    {
        Served::new(self, id)
    }
}

/// `rmcp::model::Tool`, as a value that the verifier cannot look into.
#[verifier::external_type_specification]
#[verifier::external_body]
pub struct ExTool(rmcp::model::Tool);

/// `rmcp::model::Prompt`, as a value that the verifier cannot look into.
#[verifier::external_type_specification]
#[verifier::external_body]
pub struct ExPrompt(rmcp::model::Prompt);

/// `rmcp::model::Resource`, as a value that the verifier cannot look into.
#[verifier::external_type_specification]
#[verifier::external_body]
pub struct ExResource(rmcp::model::Resource);

impl Servable for rmcp::model::Resource {

}

impl Servable for rmcp::model::Tool {

}

impl Servable for rmcp::model::Prompt {

}

/// The contents of a resource.
#[derive(Debug, PartialEq)]
pub enum ResourceBody {
    Text { text: String, mime_type: Option<String>, uri: String },
    Blob { blob: String, mime_type: Option<String>, uri: String },
}

/// One item of what a tool returned.
#[derive(Debug, PartialEq)]
pub enum ToolContent {
    Text(String),
    Image { data: String, mime_type: String },
    Resource(ResourceBody),
    /// Content of a kind that is not passed on.
    Other,
}

/// What a tool returned.
#[derive(Debug, PartialEq)]
pub struct ToolOutput {
    pub content: Vec<ToolContent>,
    pub structured_content: Option<Value>,
}

/// The content of a prompt message.
#[derive(Debug, PartialEq)]
pub enum PromptContent {
    Text(String),
    Image { data: String, mime_type: String },
    Resource(ResourceBody),
    /// Content of a kind that is not passed on.
    Other,
}

/// One message of a prompt.
#[derive(Debug, PartialEq)]
pub struct PromptEntry {
    pub role: Role,
    pub content: PromptContent,
}

/// The media type that stands for a blob of a MIME type: images by their
/// prefix, PDF as a document, everything else as binary.
pub open spec fn blob_media_type(mime: Seq<char>) -> MediaType {
    if "image/"@.is_prefix_of(mime) {
        MediaType::Image
    } else if mime == "application/pdf"@ {
        MediaType::Document
    } else {
        MediaType::Binary
    }
}

/// The MIME type, or a default where there is none.
pub open spec fn mime_or(mime: Option<String>, default: Seq<char>) -> Seq<char> {
    match mime {
        Some(m) => m@,
        None => default,
    }
}

/// The media unit that a resource becomes. Text counts as `text/plain`
/// and a blob as `application/octet-stream` where no MIME type is given.
pub open spec fn resource_media(resource: ResourceBody) -> MediaView {
    match resource {
        ResourceBody::Text { text, mime_type, uri } => MediaView {
            media_type: MediaType::Text,
            data: text@,
            mime_type: mime_or(mime_type, "text/plain"@),
            uri: Some(uri@),
            finished: true,
        },
        ResourceBody::Blob { blob, mime_type, uri } => MediaView {
            media_type: blob_media_type(mime_or(mime_type, "application/octet-stream"@)),
            data: blob@,
            mime_type: mime_or(mime_type, "application/octet-stream"@),
            uri: Some(uri@),
            finished: true,
        },
    }
}

/// The media unit that an image becomes.
pub open spec fn image_media(data: Seq<char>, mime_type: Seq<char>) -> MediaView {
    MediaView { media_type: MediaType::Image, data, mime_type, uri: None, finished: true }
}

/// The media unit that a resource becomes.
pub fn resource_to_media(resource: ResourceBody) -> (r: Media)
    ensures
        r@ == resource_media(resource),
{
    match resource {
        ResourceBody::Text { text, mime_type, uri } => {
            let mime = match mime_type {
                Some(m) => m,
                None => String::from_str("text/plain"),
            };
            Media {
                media_type: MediaType::Text,
                data: text,
                mime_type: mime,
                uri: Some(uri),
                finished: true,
            }
        },
        ResourceBody::Blob { blob, mime_type, uri } => {
            let mime = match mime_type {
                Some(m) => m,
                None => String::from_str("application/octet-stream"),
            };
            let media_type = if has_prefix(mime.as_str(), "image/") {
                MediaType::Image
            } else if same_text(mime.as_str(), "application/pdf") {
                MediaType::Document
            } else {
                MediaType::Binary
            };
            Media { media_type, data: blob, mime_type: mime, uri: Some(uri), finished: true }
        },
    }
}

/// The unit that a resource becomes: a closed media unit.
pub fn resource_to_part(resource: ResourceBody) -> (r: Part)
    ensures
        r@ == PartView::Media(resource_media(resource)),
{
    Part::Media(resource_to_media(resource))
}

/// The JSON that the texts of a tool's output stand for, where the output
/// has no structured content: the last text that parses as JSON.
pub open spec fn parsed_text(content: Seq<ToolContent>) -> Option<Value>
    decreases content.len(),
{
    if content.len() == 0 {
        None
    } else {
        match content.last() {
            ToolContent::Text(text) => match parsed_json(text@) {
                Some(v) => Some(v),
                None => parsed_text(content.drop_last()),
            },
            _ => parsed_text(content.drop_last()),
        }
    }
}

/// The texts of a tool's output that do not parse as JSON, in order.
pub open spec fn raw_texts(content: Seq<ToolContent>) -> Seq<Seq<char>>
    decreases content.len(),
{
    if content.len() == 0 {
        Seq::empty()
    } else {
        match content.last() {
            ToolContent::Text(text) => if parsed_json(text@) is None {
                raw_texts(content.drop_last()).push(text@)
            } else {
                raw_texts(content.drop_last())
            },
            _ => raw_texts(content.drop_last()),
        }
    }
}

/// The media units of a tool's output: its images and resources, in order.
pub open spec fn attachments(content: Seq<ToolContent>) -> Seq<MediaView>
    decreases content.len(),
{
    if content.len() == 0 {
        Seq::empty()
    } else {
        match content.last() {
            ToolContent::Image { data, mime_type } => attachments(content.drop_last()).push(
                image_media(data@, mime_type@),
            ),
            ToolContent::Resource(resource) => attachments(content.drop_last()).push(
                resource_media(resource),
            ),
            _ => attachments(content.drop_last()),
        }
    }
}

/// The response value of a tool's output: its structured content if it has
/// any; else the last of its texts that parses as JSON; else its texts
/// under the key `response`; else the empty object.
pub open spec fn response_value(output: ToolOutput) -> Value {
    match output.structured_content {
        Some(v) => v,
        None => match parsed_text(output.content@) {
            Some(v) => v,
            None => if raw_texts(output.content@).len() > 0 {
                json_member("response"@, json_strings(raw_texts(output.content@)))
            } else {
                json_empty_object()
            },
        },
    }
}

/// The unit that a tool's output becomes: a closed function response under
/// the tool's name, without an id.
pub open spec fn tool_result(name: Seq<char>, output: ToolOutput) -> PartView {
    PartView::FunctionResponse {
        id: None,
        name,
        response: response_value(output),
        parts: attachments(output.content@),
        finished: true,
    }
}

/// Turns what a tool returned into a function response.
pub fn tool_result_part(name: String, output: ToolOutput) -> (r: Part)
    ensures
        r@ == tool_result(name@, output),
{
    let ghost content = output.content@;
    let mut parts: Vec<Media> = Vec::new();
    let mut parsed: Option<Value> = None;
    let mut raw: Vec<String> = Vec::new();
    let mut items = output.content;
    let structured = output.structured_content;
    let n = items.len();
    let mut i: usize = 0;
    while i < n
        invariant
            i <= n,
            n == content.len(),
            items.len() == n,
            forall|j: int| i <= j < n ==> items[j] == content[j],
            parsed == parsed_text(content.take(i as int)),
            raw.deep_view() == raw_texts(content.take(i as int)),
            media_views(parts@) == attachments(content.take(i as int)),
        decreases n - i,
    {
        assert(content.take(i + 1).drop_last() =~= content.take(i as int));
        assert(content.take(i + 1).last() == content[i as int]);
        let mut item = ToolContent::Other;
        core::mem::swap(&mut item, &mut items[i]);
        match item {
            ToolContent::Text(text) => {
                match parse_json(text.as_str()) {
                    Some(v) => {
                        parsed = Some(v);
                    },
                    None => {
                        let ghost before = raw.deep_view();
                        raw.push(text);
                        assert(raw.deep_view() =~= before.push(text@));
                    },
                }
            },
            ToolContent::Image { data, mime_type } => {
                let ghost before = media_views(parts@);
                parts.push(
                    Media { media_type: MediaType::Image, data, mime_type, uri: None, finished: true },
                );
                assert(media_views(parts@) =~= before.push(image_media(data@, mime_type@)));
            },
            ToolContent::Resource(resource) => {
                let ghost before = media_views(parts@);
                parts.push(resource_to_media(resource));
                assert(media_views(parts@) =~= before.push(resource_media(resource)));
            },
            ToolContent::Other => {},
        }
        i += 1;
    }
    assert(content.take(n as int) =~= content);
    let response = match structured {
        Some(v) => v,
        None => match parsed {
            Some(v) => v,
            None => if raw.len() > 0 {
                assert(raw.deep_view().len() == raw.len());
                member_object("response", strings_value(raw))
            } else {
                assert(raw.deep_view().len() == raw.len());
                empty_object()
            },
        },
    };
    Part::FunctionResponse { id: None, name, response, parts, finished: true }
}

/// The unit that the content of a prompt message becomes, if it is of a
/// kind that is passed on.
pub open spec fn prompt_unit(content: PromptContent) -> Option<PartView> {
    match content {
        PromptContent::Text(text) => Some(PartView::Text { content: text@, finished: true }),
        PromptContent::Image { data, mime_type } => Some(
            PartView::Media(image_media(data@, mime_type@)),
        ),
        PromptContent::Resource(resource) => Some(PartView::Media(resource_media(resource))),
        PromptContent::Other => None,
    }
}

/// The messages that a prompt becomes: one message with one unit for each
/// entry whose content is passed on, in order.
pub open spec fn prompt_conversation(entries: Seq<PromptEntry>) -> Seq<MessageView>
    decreases entries.len(),
{
    if entries.len() == 0 {
        Seq::empty()
    } else {
        match prompt_unit(entries.last().content) {
            Some(unit) => prompt_conversation(entries.drop_last()).push(
                MessageView { role: entries.last().role, parts: seq![unit] },
            ),
            None => prompt_conversation(entries.drop_last()),
        }
    }
}

/// Turns a prompt into messages.
pub fn prompt_messages(entries: Vec<PromptEntry>) -> (r: Vec<Message>)
    ensures
        message_views(r@) == prompt_conversation(entries@),
{
    let ghost all = entries@;
    let mut entries = entries;
    let mut messages: Vec<Message> = Vec::new();
    let n = entries.len();
    let mut i: usize = 0;
    while i < n
        invariant
            i <= n,
            n == all.len(),
            entries.len() == n,
            forall|j: int| i <= j < n ==> entries[j] == all[j],
            message_views(messages@) == prompt_conversation(all.take(i as int)),
        decreases n - i,
    {
        assert(all.take(i + 1).drop_last() =~= all.take(i as int));
        assert(all.take(i + 1).last() == all[i as int]);
        let mut entry = PromptEntry { role: Role::User, content: PromptContent::Other };
        core::mem::swap(&mut entry, &mut entries[i]);
        let role = entry.role;
        let unit = match entry.content {
            PromptContent::Text(text) => Some(Part::Text { content: text, finished: true }),
            PromptContent::Image { data, mime_type } => Some(
                Part::Media(
                    Media { media_type: MediaType::Image, data, mime_type, uri: None, finished: true },
                ),
            ),
            PromptContent::Resource(resource) => Some(resource_to_part(resource)),
            PromptContent::Other => None,
        };
        match unit {
            Some(unit) => {
                let ghost before = message_views(messages@);
                let mut parts: Vec<Part> = Vec::new();
                parts.push(unit);
                assert(part_views(parts@) =~= seq![unit@]);
                let message = match role {
                    Role::User => Message::User(parts),
                    Role::Assistant => Message::Assistant(parts),
                };
                messages.push(message);
                assert(message_views(messages@) =~= before.push(
                    MessageView { role, parts: seq![unit@] },
                ));
            },
            None => {},
        }
        i += 1;
    }
    assert(all.take(n as int) =~= all);
    messages
}

/// The media units that resources become, in order.
pub open spec fn resource_units(resources: Seq<ResourceBody>) -> Seq<PartView> {
    resources.map_values(|r: ResourceBody| PartView::Media(resource_media(r)))
}

/// Appends the contents of resources to a message, as media units.
pub fn attach_resources(message: Message, resources: Vec<ResourceBody>) -> (r: Message)
    ensures
        r@.role == message@.role,
        r@.parts == message@.parts + resource_units(resources@),
{
    let ghost all = resources@;
    let ghost start = message@.parts;
    let (user, mut parts) = match message {
        Message::User(parts) => (true, parts),
        Message::Assistant(parts) => (false, parts),
    };
    let mut resources = resources;
    let n = resources.len();
    let mut i: usize = 0;
    assert(part_views(parts@) =~= start + resource_units(all.take(0)));
    while i < n
        invariant
            i <= n,
            n == all.len(),
            resources.len() == n,
            forall|j: int| i <= j < n ==> resources[j] == all[j],
            part_views(parts@) == start + resource_units(all.take(i as int)),
        decreases n - i,
    {
        let mut resource = ResourceBody::Text {
            text: String::new(),
            mime_type: None,
            uri: String::new(),
        };
        core::mem::swap(&mut resource, &mut resources[i]);
        let ghost before = part_views(parts@);
        parts.push(resource_to_part(resource));
        assert(part_views(parts@) =~= before.push(PartView::Media(resource_media(resource))));
        assert(part_views(parts@) =~= start + resource_units(all.take(i + 1)));
        i += 1;
    }
    assert(all.take(n as int) =~= all);
    if user {
        Message::User(parts)
    } else {
        Message::Assistant(parts)
    }
}

/// Whether a name is among the names.
pub fn contains_name(names: &Vec<String>, name: &str) -> (r: bool)
    ensures
        r == exists|i: int| 0 <= i < names.len() && #[trigger] names[i]@ == name@,
{
    let mut i: usize = 0;
    while i < names.len()
        invariant
            i <= names.len(),
            forall|j: int| 0 <= j < i ==> names[j]@ != name@,
        decreases names.len() - i,
    {
        if same_text(names[i].as_str(), name) {
            return true;
        }
        i += 1;
    }
    false
}

} // verus!
