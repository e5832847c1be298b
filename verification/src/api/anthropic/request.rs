//! The messages of a request, made from a conversation.

use crate::api::anthropic::{
    AnthropicCacheControl, AnthropicContentBlock, AnthropicDocumentSource, AnthropicImageSource,
    AnthropicToolResultBlock, AnthropicToolResultContent,
};
use crate::encoding::{anchor_text, decode_payload, payload_text};
use crate::json::{is_empty_object, json_empty_object, json_rendered, rendered};
use crate::model::{
    media_views, message_views, part_views, Media, MediaType, MediaView, Message, MessageView,
    Part, PartView, Role,
};
use serde_json::Value;
use vstd::prelude::*;
use vstd::string::StringExecFns;

verus! {

/// One message of a request.
#[derive(Debug, PartialEq)]
pub struct AnthropicMessage {
    pub role: String,
    pub content: Vec<AnthropicContentBlock>,
}

/// Where the payload of an image or a document stands.
pub struct SourceView {
    pub source_type: Seq<char>,
    pub media_type: Seq<char>,
    pub data: Seq<char>,
}

pub enum ResultBlockView {
    Text { text: Seq<char> },
    Image { source: SourceView },
}

pub enum ResultContentView {
    Text(Seq<char>),
    Blocks(Seq<ResultBlockView>),
}

#[allow(inconsistent_fields)]
pub enum BlockView {
    Text { text: Seq<char>, cache_control: Option<AnthropicCacheControl> },
    Image { source: SourceView, cache_control: Option<AnthropicCacheControl> },
    Document { source: SourceView, cache_control: Option<AnthropicCacheControl> },
    ToolUse {
        id: Seq<char>,
        name: Seq<char>,
        input: Value,
        cache_control: Option<AnthropicCacheControl>,
    },
    ToolResult {
        tool_use_id: Seq<char>,
        content: ResultContentView,
        is_error: Option<bool>,
        cache_control: Option<AnthropicCacheControl>,
    },
    Thinking { thinking: Seq<char>, signature: Seq<char> },
    RedactedThinking { data: Seq<char> },
}

pub struct AnthropicMessageView {
    pub role: Seq<char>,
    pub content: Seq<BlockView>,
}

impl View for AnthropicImageSource {
    type V = SourceView;

    open spec fn view(&self) -> SourceView {
        SourceView {
            source_type: self.source_type@,
            media_type: self.media_type@,
            data: self.data@,
        }
    }
}

impl View for AnthropicDocumentSource {
    type V = SourceView;

    open spec fn view(&self) -> SourceView {
        SourceView {
            source_type: self.source_type@,
            media_type: self.media_type@,
            data: self.data@,
        }
    }
}

impl View for AnthropicToolResultBlock {
    type V = ResultBlockView;

    open spec fn view(&self) -> ResultBlockView {
        match *self {
            AnthropicToolResultBlock::Text { text } => ResultBlockView::Text { text: text@ },
            AnthropicToolResultBlock::Image { source } => ResultBlockView::Image { source: source@ },
        }
    }
}

/// The views of a sequence of result blocks.
pub open spec fn result_block_views(v: Seq<AnthropicToolResultBlock>) -> Seq<ResultBlockView> {
    v.map_values(|b: AnthropicToolResultBlock| b@)
}

impl View for AnthropicToolResultContent {
    type V = ResultContentView;

    open spec fn view(&self) -> ResultContentView {
        match *self {
            AnthropicToolResultContent::Text(text) => ResultContentView::Text(text@),
            AnthropicToolResultContent::Blocks(blocks) => ResultContentView::Blocks(
                result_block_views(blocks@),
            ),
        }
    }
}

impl View for AnthropicContentBlock {
    type V = BlockView;

    open spec fn view(&self) -> BlockView {
        match *self {
            AnthropicContentBlock::Text { text, cache_control } => BlockView::Text {
                text: text@,
                cache_control,
            },
            AnthropicContentBlock::Image { source, cache_control } => BlockView::Image {
                source: source@,
                cache_control,
            },
            AnthropicContentBlock::Document { source, cache_control } => BlockView::Document {
                source: source@,
                cache_control,
            },
            AnthropicContentBlock::ToolUse { id, name, input, cache_control } => BlockView::ToolUse {
                id: id@,
                name: name@,
                input,
                cache_control,
            },
            AnthropicContentBlock::ToolResult { tool_use_id, content, is_error, cache_control } => {
                BlockView::ToolResult {
                    tool_use_id: tool_use_id@,
                    content: content@,
                    is_error,
                    cache_control,
                }
            },
            AnthropicContentBlock::Thinking { thinking, signature } => BlockView::Thinking {
                thinking: thinking@,
                signature: signature@,
            },
            AnthropicContentBlock::RedactedThinking { data } => BlockView::RedactedThinking {
                data: data@,
            },
        }
    }
}

/// The views of a sequence of blocks.
pub open spec fn block_views(v: Seq<AnthropicContentBlock>) -> Seq<BlockView> {
    v.map_values(|b: AnthropicContentBlock| b@)
}

impl View for AnthropicMessage {
    type V = AnthropicMessageView;

    open spec fn view(&self) -> AnthropicMessageView {
        AnthropicMessageView { role: self.role@, content: block_views(self.content@) }
    }
}

/// The views of a sequence of request messages.
pub open spec fn request_views(v: Seq<AnthropicMessage>) -> Seq<AnthropicMessageView> {
    v.map_values(|m: AnthropicMessage| m@)
}

/// The payload of a media unit as a base64 source.
pub open spec fn source_of(media: MediaView) -> SourceView {
    SourceView { source_type: "base64"@, media_type: media.mime_type, data: media.data }
}

/// A text block.
pub open spec fn text_block(text: Seq<char>) -> BlockView {
    BlockView::Text { text, cache_control: None }
}

/// The blocks for a media unit of a message: a line that announces it,
/// then the image or the document, or the text of the payload for media of
/// other kinds.
pub open spec fn media_blocks(media: MediaView) -> Seq<BlockView> {
    seq![
        text_block(anchor_text(media)),
        match media.media_type {
            MediaType::Image => BlockView::Image { source: source_of(media), cache_control: None },
            MediaType::Document => BlockView::Document {
                source: source_of(media),
                cache_control: None,
            },
            _ => text_block(payload_text(media.data)),
        },
    ]
}

/// The blocks for an attachment of a tool result: a line that announces
/// it, then the image, or the text of the payload for media of other
/// kinds.
pub open spec fn attachment_blocks(media: MediaView) -> Seq<ResultBlockView> {
    seq![
        ResultBlockView::Text { text: anchor_text(media) },
        match media.media_type {
            MediaType::Image => ResultBlockView::Image { source: source_of(media) },
            _ => ResultBlockView::Text { text: payload_text(media.data) },
        },
    ]
}

/// The blocks for the attachments of a tool result, in order.
pub open spec fn attachments_blocks(parts: Seq<MediaView>) -> Seq<ResultBlockView>
    decreases parts.len(),
{
    if parts.len() == 0 {
        Seq::empty()
    } else {
        attachments_blocks(parts.drop_last()) + attachment_blocks(parts.last())
    }
}

/// The blocks of a tool result: the response as JSON text, unless it is
/// the empty object, then the attachments.
pub open spec fn result_blocks(response: Value, parts: Seq<MediaView>) -> Seq<ResultBlockView> {
    let text = if response == json_empty_object() {
        Seq::empty()
    } else {
        seq![ResultBlockView::Text { text: json_rendered(response) }]
    };
    text + attachments_blocks(parts)
}

/// The text of an optional text, empty where there is none.
pub open spec fn or_empty(text: Option<Seq<char>>) -> Seq<char> {
    match text {
        Some(t) => t,
        None => Seq::empty(),
    }
}

/// The blocks that a unit becomes. A call or a tool result without an id
/// becomes none.
pub open spec fn part_blocks(part: PartView) -> Seq<BlockView> {
    match part {
        PartView::Text { content, .. } => seq![text_block(content)],
        PartView::Media(media) => media_blocks(media),
        PartView::FunctionCall { id, name, arguments, .. } => match id {
            Some(id) => seq![
                BlockView::ToolUse { id, name, input: arguments, cache_control: None },
            ],
            None => Seq::empty(),
        },
        PartView::FunctionResponse { id, response, parts, .. } => match id {
            Some(id) => seq![
                BlockView::ToolResult {
                    tool_use_id: id,
                    content: ResultContentView::Blocks(result_blocks(response, parts)),
                    is_error: None,
                    cache_control: None,
                },
            ],
            None => Seq::empty(),
        },
        PartView::Reasoning { content, signature, .. } => seq![
            BlockView::Thinking { thinking: content, signature: or_empty(signature) },
        ],
    }
}

/// The blocks that the units of a message become, in order.
pub open spec fn parts_blocks(parts: Seq<PartView>) -> Seq<BlockView>
    decreases parts.len(),
{
    if parts.len() == 0 {
        Seq::empty()
    } else {
        parts_blocks(parts.drop_last()) + part_blocks(parts.last())
    }
}

/// The word for a role.
pub open spec fn role_word(role: Role) -> Seq<char> {
    match role {
        Role::User => "user"@,
        Role::Assistant => "assistant"@,
    }
}

/// The messages of a request: one for each message of the conversation
/// that has blocks, in order.
pub open spec fn request_messages(messages: Seq<MessageView>) -> Seq<AnthropicMessageView>
    decreases messages.len(),
{
    if messages.len() == 0 {
        Seq::empty()
    } else {
        let blocks = parts_blocks(messages.last().parts);
        if blocks.len() > 0 {
            request_messages(messages.drop_last()).push(
                AnthropicMessageView { role: role_word(messages.last().role), content: blocks },
            )
        } else {
            request_messages(messages.drop_last())
        }
    }
}

fn image_source(media: &Media) -> (r: AnthropicImageSource)
    ensures
        r@ == source_of(media@),
{
    AnthropicImageSource {
        source_type: String::from_str("base64"),
        media_type: media.mime_type.clone(),
        data: media.data.clone(),
    }
}

fn push_media_blocks(media: &Media, out: &mut Vec<AnthropicContentBlock>)
    ensures
        block_views(final(out)@) == block_views(old(out)@) + media_blocks(media@),
{
    let ghost before = block_views(out@);
    out.push(AnthropicContentBlock::Text { text: media.anchor(), cache_control: None });
    let block = match media.media_type {
        MediaType::Image => AnthropicContentBlock::Image {
            source: image_source(media),
            cache_control: None,
        },
        MediaType::Document => AnthropicContentBlock::Document {
            source: AnthropicDocumentSource {
                source_type: String::from_str("base64"),
                media_type: media.mime_type.clone(),
                data: media.data.clone(),
            },
            cache_control: None,
        },
        _ => AnthropicContentBlock::Text {
            text: decode_payload(media.data.as_str()),
            cache_control: None,
        },
    };
    out.push(block);
    assert(block_views(out@) =~= before + media_blocks(media@));
}

fn result_blocks_of(response: &Value, parts: &Vec<Media>) -> (r: Vec<AnthropicToolResultBlock>)
    ensures
        result_block_views(r@) == result_blocks(*response, media_views(parts@)),
{
    let mut blocks: Vec<AnthropicToolResultBlock> = Vec::new();
    if !is_empty_object(response) {
        blocks.push(AnthropicToolResultBlock::Text { text: rendered(response) });
    }
    let ghost text = result_block_views(blocks@);
    let ghost media = media_views(parts@);
    assert(text =~= if *response == json_empty_object() {
        Seq::<ResultBlockView>::empty()
    } else {
        seq![ResultBlockView::Text { text: json_rendered(*response) }]
    });
    let mut i: usize = 0;
    assert(result_block_views(blocks@) =~= text + attachments_blocks(media.take(0)));
    while i < parts.len()
        invariant
            i <= parts.len(),
            media == media_views(parts@),
            result_block_views(blocks@) == text + attachments_blocks(media.take(i as int)),
        decreases parts.len() - i,
    {
        assert(media.take(i + 1).drop_last() =~= media.take(i as int));
        assert(media.take(i + 1).last() == parts[i as int]@);
        let ghost before = result_block_views(blocks@);
        let part = &parts[i];
        blocks.push(AnthropicToolResultBlock::Text { text: part.anchor() });
        let block = match part.media_type {
            MediaType::Image => AnthropicToolResultBlock::Image { source: image_source(part) },
            _ => AnthropicToolResultBlock::Text { text: decode_payload(part.data.as_str()) },
        };
        blocks.push(block);
        assert(result_block_views(blocks@) =~= before + attachment_blocks(part@));
        assert(result_block_views(blocks@) =~= text + attachments_blocks(media.take(i + 1)));
        i += 1;
    }
    assert(media.take(i as int) =~= media);
    blocks
}

fn push_part_blocks(part: &Part, out: &mut Vec<AnthropicContentBlock>)
    ensures
        block_views(final(out)@) == block_views(old(out)@) + part_blocks(part@),
{
    let ghost before = block_views(out@);
    match part {
        Part::Text { content, .. } => {
            out.push(AnthropicContentBlock::Text { text: content.clone(), cache_control: None });
            assert(block_views(out@) =~= before + part_blocks(part@));
        },
        Part::Media(media) => {
            push_media_blocks(media, out);
        },
        Part::FunctionCall { id, name, arguments, .. } => {
            match id {
                Some(call_id) => {
                    out.push(
                        AnthropicContentBlock::ToolUse {
                            id: call_id.clone(),
                            name: name.clone(),
                            input: arguments.clone(),
                            cache_control: None,
                        },
                    );
                },
                None => {},
            }
            assert(block_views(out@) =~= before + part_blocks(part@));
        },
        Part::FunctionResponse { id, response, parts, .. } => {
            match id {
                Some(call_id) => {
                    out.push(
                        AnthropicContentBlock::ToolResult {
                            tool_use_id: call_id.clone(),
                            content: AnthropicToolResultContent::Blocks(
                                result_blocks_of(response, parts),
                            ),
                            is_error: None,
                            cache_control: None,
                        },
                    );
                },
                None => {},
            }
            assert(block_views(out@) =~= before + part_blocks(part@));
        },
        Part::Reasoning { content, signature, .. } => {
            let held = match signature {
                Some(s) => s.clone(),
                None => String::new(),
            };
            out.push(AnthropicContentBlock::Thinking { thinking: content.clone(), signature: held });
            assert(block_views(out@) =~= before + part_blocks(part@));
        },
    }
}

/// The blocks that the units of a message become.
pub fn content_blocks(parts: &Vec<Part>) -> (r: Vec<AnthropicContentBlock>)
    ensures
        block_views(r@) == parts_blocks(part_views(parts@)),
{
    let ghost units = part_views(parts@);
    let mut out: Vec<AnthropicContentBlock> = Vec::new();
    let mut i: usize = 0;
    assert(block_views(out@) =~= parts_blocks(units.take(0)));
    while i < parts.len()
        invariant
            i <= parts.len(),
            units == part_views(parts@),
            block_views(out@) == parts_blocks(units.take(i as int)),
        decreases parts.len() - i,
    {
        assert(units.take(i + 1).drop_last() =~= units.take(i as int));
        assert(units.take(i + 1).last() == parts[i as int]@);
        push_part_blocks(&parts[i], &mut out);
        i += 1;
    }
    assert(units.take(i as int) =~= units);
    out
}

/// Makes the messages of a request from a conversation.
///
/// Every unit becomes the blocks that stand for it, in order. A call or a
/// tool result without an id cannot be sent and is left out, and so is a
/// message that is left without blocks.
pub fn messages_for_request(messages: &Vec<Message>) -> (r: Vec<AnthropicMessage>)
    ensures
        request_views(r@) == request_messages(message_views(messages@)),
{
    let ghost all = message_views(messages@);
    let mut out: Vec<AnthropicMessage> = Vec::new();
    let mut i: usize = 0;
    assert(request_views(out@) =~= request_messages(all.take(0)));
    while i < messages.len()
        invariant
            i <= messages.len(),
            all == message_views(messages@),
            request_views(out@) == request_messages(all.take(i as int)),
        decreases messages.len() - i,
    {
        assert(all.take(i + 1).drop_last() =~= all.take(i as int));
        assert(all.take(i + 1).last() == messages[i as int]@);
        let message = &messages[i];
        let role = match message {
            Message::User(_) => "user",
            Message::Assistant(_) => "assistant",
        };
        let content = content_blocks(message.parts());
        assert(block_views(content@).len() == content.len());
        if content.len() > 0 {
            let ghost before = request_views(out@);
            let entry = AnthropicMessage { role: String::from_str(role), content };
            out.push(entry);
            assert(request_views(out@) =~= before.push(entry@));
        }
        i += 1;
    }
    assert(all.take(i as int) =~= all);
    out
}

} // verus!
