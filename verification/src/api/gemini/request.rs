//! The contents of a request, made from a conversation.

use crate::api::gemini::{
    GeminiContent, GeminiFunctionCall, GeminiFunctionResponse, GeminiFunctionResponseBlob,
    GeminiFunctionResponsePart, GeminiInlineData, GeminiPart,
};
use crate::encoding::anchor_text;
use crate::model::{
    clone_opt_string, media_views, message_views, part_views, Media, MediaView, Message,
    MessageView, Part, PartView, Role,
};
use serde_json::Value;
use vstd::prelude::*;
use vstd::string::StringExecFns;

verus! {

/// A payload with its MIME type.
pub struct BlobView {
    pub mime_type: Seq<char>,
    pub data: Seq<char>,
}

#[allow(inconsistent_fields)]
pub enum GeminiPartView {
    Text { text: Seq<char>, thought: Option<bool> },
    FunctionCall { name: Seq<char>, args: Value, thought_signature: Option<Seq<char>> },
    FunctionResponse { name: Seq<char>, response: Value, parts: Option<Seq<BlobView>> },
    InlineData { inline_data: BlobView },
}

pub struct GeminiContentView {
    pub role: Seq<char>,
    pub parts: Seq<GeminiPartView>,
}

/// The text of an optional string.
pub open spec fn opt(o: Option<String>) -> Option<Seq<char>> {
    match o {
        Some(s) => Some(s@),
        None => None,
    }
}

impl View for GeminiFunctionResponsePart {
    type V = BlobView;

    open spec fn view(&self) -> BlobView {
        BlobView { mime_type: self.inline_data.mime_type@, data: self.inline_data.data@ }
    }
}

/// The views of the attachments of a function response.
pub open spec fn blob_views(v: Option<Vec<GeminiFunctionResponsePart>>) -> Option<Seq<BlobView>> {
    match v {
        Some(parts) => Some(parts@.map_values(|p: GeminiFunctionResponsePart| p@)),
        None => None,
    }
}

impl View for GeminiPart {
    type V = GeminiPartView;

    open spec fn view(&self) -> GeminiPartView {
        match *self {
            GeminiPart::Text { text, thought } => GeminiPartView::Text { text: text@, thought },
            GeminiPart::FunctionCall { function_call, thought_signature } => {
                GeminiPartView::FunctionCall {
                    name: function_call.name@,
                    args: function_call.args,
                    thought_signature: opt(thought_signature),
                }
            },
            GeminiPart::FunctionResponse { function_response } => GeminiPartView::FunctionResponse {
                name: function_response.name@,
                response: function_response.response,
                parts: blob_views(function_response.parts),
            },
            GeminiPart::InlineData { inline_data } => GeminiPartView::InlineData {
                inline_data: BlobView { mime_type: inline_data.mime_type@, data: inline_data.data@ },
            },
        }
    }
}

/// The views of a sequence of parts.
pub open spec fn gemini_part_views(v: Seq<GeminiPart>) -> Seq<GeminiPartView> {
    v.map_values(|p: GeminiPart| p@)
}

impl View for GeminiContent {
    type V = GeminiContentView;

    open spec fn view(&self) -> GeminiContentView {
        GeminiContentView { role: self.role@, parts: gemini_part_views(self.parts@) }
    }
}

/// The views of a sequence of contents.
pub open spec fn content_views(v: Seq<GeminiContent>) -> Seq<GeminiContentView> {
    v.map_values(|c: GeminiContent| c@)
}

/// The payload of a media unit.
pub open spec fn blob_of(media: MediaView) -> BlobView {
    BlobView { mime_type: media.mime_type, data: media.data }
}

/// The attachments of a function response: the payloads of its media
/// units, or none at all where it has no media unit.
pub open spec fn attached(parts: Seq<MediaView>) -> Option<Seq<BlobView>> {
    if parts.len() == 0 {
        None
    } else {
        Some(parts.map_values(|m: MediaView| blob_of(m)))
    }
}

/// The parts that a unit becomes. A media unit becomes a line that
/// announces it and its payload; every other unit becomes one part.
pub open spec fn unit_parts(part: PartView) -> Seq<GeminiPartView> {
    match part {
        PartView::Text { content, .. } => seq![GeminiPartView::Text { text: content, thought: None }],
        PartView::Reasoning { content, .. } => seq![
            GeminiPartView::Text { text: content, thought: Some(true) },
        ],
        PartView::Media(media) => seq![
            GeminiPartView::Text { text: anchor_text(media), thought: None },
            GeminiPartView::InlineData { inline_data: blob_of(media) },
        ],
        PartView::FunctionCall { name, arguments, signature, .. } => seq![
            GeminiPartView::FunctionCall { name, args: arguments, thought_signature: signature },
        ],
        PartView::FunctionResponse { name, response, parts, .. } => seq![
            GeminiPartView::FunctionResponse { name, response, parts: attached(parts) },
        ],
    }
}

/// The parts that the units of a message become, in order.
pub open spec fn units_parts(parts: Seq<PartView>) -> Seq<GeminiPartView>
    decreases parts.len(),
{
    if parts.len() == 0 {
        Seq::empty()
    } else {
        units_parts(parts.drop_last()) + unit_parts(parts.last())
    }
}

/// The word for a role.
pub open spec fn role_word(role: Role) -> Seq<char> {
    match role {
        Role::User => "user"@,
        Role::Assistant => "model"@,
    }
}

/// The contents of a request: one for each message of the conversation
/// that has parts, in order.
pub open spec fn request_contents(messages: Seq<MessageView>) -> Seq<GeminiContentView>
    decreases messages.len(),
{
    if messages.len() == 0 {
        Seq::empty()
    } else {
        let parts = units_parts(messages.last().parts);
        if parts.len() > 0 {
            request_contents(messages.drop_last()).push(
                GeminiContentView { role: role_word(messages.last().role), parts },
            )
        } else {
            request_contents(messages.drop_last())
        }
    }
}

/// The content that carries the system instruction.
pub open spec fn instruction(system: Seq<char>) -> GeminiContentView {
    GeminiContentView {
        role: "user"@,
        parts: seq![GeminiPartView::Text { text: system, thought: None }],
    }
}

/// The content that carries a system instruction.
pub fn system_instruction(system: &str) -> (r: GeminiContent)
    ensures
        r@ == instruction(system@),
{
    let mut parts: Vec<GeminiPart> = Vec::new();
    parts.push(GeminiPart::Text { text: String::from_str(system), thought: None });
    let r = GeminiContent { role: String::from_str("user"), parts };
    assert(r@.parts =~= instruction(system@).parts);
    r
}

fn attachments_of(parts: &Vec<Media>) -> (r: Option<Vec<GeminiFunctionResponsePart>>)
    ensures
        blob_views(r) == attached(media_views(parts@)),
{
    let ghost media = media_views(parts@);
    let mut out: Vec<GeminiFunctionResponsePart> = Vec::new();
    let mut i: usize = 0;
    while i < parts.len()
        invariant
            i <= parts.len(),
            media == media_views(parts@),
            out.len() == i,
            forall|j: int| 0 <= j < i ==> out[j]@ == blob_of(media[j]),
        decreases parts.len() - i,
    {
        out.push(
            GeminiFunctionResponsePart {
                inline_data: GeminiFunctionResponseBlob {
                    mime_type: parts[i].mime_type.clone(),
                    data: parts[i].data.clone(),
                },
            },
        );
        i += 1;
    }
    if out.len() == 0 {
        None
    } else {
        assert(out@.map_values(|p: GeminiFunctionResponsePart| p@) =~= media.map_values(
            |m: MediaView| blob_of(m),
        ));
        Some(out)
    }
}

fn push_unit_parts(part: &Part, out: &mut Vec<GeminiPart>)
    ensures
        gemini_part_views(final(out)@) == gemini_part_views(old(out)@) + unit_parts(part@),
{
    let ghost before = gemini_part_views(out@);
    match part {
        Part::Text { content, .. } => {
            out.push(GeminiPart::Text { text: content.clone(), thought: None });
        },
        Part::Reasoning { content, .. } => {
            out.push(GeminiPart::Text { text: content.clone(), thought: Some(true) });
        },
        Part::Media(media) => {
            out.push(GeminiPart::Text { text: media.anchor(), thought: None });
            out.push(
                GeminiPart::InlineData {
                    inline_data: GeminiInlineData {
                        mime_type: media.mime_type.clone(),
                        data: media.data.clone(),
                    },
                },
            );
        },
        Part::FunctionCall { name, arguments, signature, .. } => {
            out.push(
                GeminiPart::FunctionCall {
                    function_call: GeminiFunctionCall {
                        name: name.clone(),
                        args: arguments.clone(),
                    },
                    thought_signature: clone_opt_string(signature),
                },
            );
        },
        Part::FunctionResponse { name, response, parts, .. } => {
            out.push(
                GeminiPart::FunctionResponse {
                    function_response: GeminiFunctionResponse {
                        name: name.clone(),
                        response: response.clone(),
                        parts: attachments_of(parts),
                    },
                },
            );
        },
    }
    assert(gemini_part_views(out@) =~= before + unit_parts(part@));
}

/// The parts that the units of a message become.
pub fn parts_for_request(parts: &Vec<Part>) -> (r: Vec<GeminiPart>)
    ensures
        gemini_part_views(r@) == units_parts(part_views(parts@)),
{
    let ghost units = part_views(parts@);
    let mut out: Vec<GeminiPart> = Vec::new();
    let mut i: usize = 0;
    assert(gemini_part_views(out@) =~= units_parts(units.take(0)));
    while i < parts.len()
        invariant
            i <= parts.len(),
            units == part_views(parts@),
            gemini_part_views(out@) == units_parts(units.take(i as int)),
        decreases parts.len() - i,
    {
        assert(units.take(i + 1).drop_last() =~= units.take(i as int));
        assert(units.take(i + 1).last() == parts[i as int]@);
        push_unit_parts(&parts[i], &mut out);
        i += 1;
    }
    assert(units.take(i as int) =~= units);
    out
}

/// Makes the contents of a request from a conversation. A message without
/// units is left out.
pub fn contents_for_request(messages: &Vec<Message>) -> (r: Vec<GeminiContent>)
    ensures
        content_views(r@) == request_contents(message_views(messages@)),
{
    let ghost all = message_views(messages@);
    let mut out: Vec<GeminiContent> = Vec::new();
    let mut i: usize = 0;
    assert(content_views(out@) =~= request_contents(all.take(0)));
    while i < messages.len()
        invariant
            i <= messages.len(),
            all == message_views(messages@),
            content_views(out@) == request_contents(all.take(i as int)),
        decreases messages.len() - i,
    {
        assert(all.take(i + 1).drop_last() =~= all.take(i as int));
        assert(all.take(i + 1).last() == messages[i as int]@);
        let message = &messages[i];
        let role = match message {
            Message::User(_) => "user",
            Message::Assistant(_) => "model",
        };
        let parts = parts_for_request(message.parts());
        assert(gemini_part_views(parts@).len() == parts.len());
        if parts.len() > 0 {
            let ghost before = content_views(out@);
            let entry = GeminiContent { role: String::from_str(role), parts };
            out.push(entry);
            assert(content_views(out@) =~= before.push(entry@));
        }
        i += 1;
    }
    assert(all.take(i as int) =~= all);
    out
}

} // verus!
