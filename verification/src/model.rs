//! The unified conversation model: role-tagged messages made of typed
//! content units, token usage, and the response that a turn builds up.

use crate::usage::{Usage, UsageView};
use serde_json::Value;
use vstd::prelude::*;

verus! {

/// Who sent a message. System instructions and tool results travel as
/// content inside user and assistant messages.
#[derive(Debug, Clone, Copy, PartialEq, Eq, Structural)]
pub enum Role {
    User,
    Assistant,
}

/// What kind of payload a media unit carries.
#[derive(Debug, Clone, Copy, PartialEq, Eq, Structural)]
pub enum MediaType {
    Image,
    Document,
    Text,
    Binary,
}

/// Why a turn stopped generating. `Unfinished` is the only value that is
/// not terminal.
#[derive(Debug, Clone, Copy, PartialEq, Eq, Structural)]
pub enum FinishReason {
    Unfinished,
    Stop,
    OutputTokens,
    ToolCalls,
    ContentFilter,
    Error,
}

impl FinishReason {
    pub open spec fn is_terminal(self) -> bool {
        self != FinishReason::Unfinished
    }

    /// Whether generation has ended for this reason.
    pub fn terminal(&self) -> (b: bool)
        ensures
            b == self.is_terminal(),
    {
        match self {
            FinishReason::Unfinished => false,
            _ => true,
        }
    }
}

/// A media payload: base64 text with its type, and where it came from.
#[derive(Debug, PartialEq)]
pub struct Media {
    pub media_type: MediaType,
    pub data: String,
    pub mime_type: String,
    pub uri: Option<String>,
    pub finished: bool,
}

/// One typed fragment of a message.
///
/// A unit with `finished == false` is still being written by the decoder
/// that owns the response. A function call can be acted on only once it is
/// finished: until then its arguments are whatever the provider has sent so
/// far.
#[derive(Debug, PartialEq)]
pub enum Part {
    Text { content: String, finished: bool },
    Reasoning {
        content: String,
        summary: Option<String>,
        signature: Option<String>,
        finished: bool,
    },
    FunctionCall {
        id: Option<String>,
        name: String,
        arguments: Value,
        signature: Option<String>,
        finished: bool,
    },
    /// The result of a call. Its attachments are media units only.
    FunctionResponse {
        id: Option<String>,
        name: String,
        response: Value,
        parts: Vec<Media>,
        finished: bool,
    },
    Media(Media),
}

/// A message: who sent it and its units, in the order they were emitted.
#[derive(Debug, PartialEq)]
pub enum Message {
    User(Vec<Part>),
    Assistant(Vec<Part>),
}

/// What a turn has produced so far: its messages, the running token
/// totals, and why it stopped, if it has.
#[derive(Debug, PartialEq)]
pub struct Response {
    pub data: Vec<Message>,
    pub usage: Usage,
    pub finish: FinishReason,
}

pub struct ResponseView {
    pub data: Seq<MessageView>,
    pub usage: UsageView,
    pub finish: FinishReason,
}

/// The text of an optional string.
pub open spec fn opt_text(o: Option<String>) -> Option<Seq<char>> {
    match o {
        Some(s) => Some(s@),
        None => None,
    }
}

pub struct MediaView {
    pub media_type: MediaType,
    pub data: Seq<char>,
    pub mime_type: Seq<char>,
    pub uri: Option<Seq<char>>,
    pub finished: bool,
}

pub enum PartView {
    Text { content: Seq<char>, finished: bool },
    Reasoning {
        content: Seq<char>,
        summary: Option<Seq<char>>,
        signature: Option<Seq<char>>,
        finished: bool,
    },
    FunctionCall {
        id: Option<Seq<char>>,
        name: Seq<char>,
        arguments: Value,
        signature: Option<Seq<char>>,
        finished: bool,
    },
    FunctionResponse {
        id: Option<Seq<char>>,
        name: Seq<char>,
        response: Value,
        parts: Seq<MediaView>,
        finished: bool,
    },
    Media(MediaView),
}

pub struct MessageView {
    pub role: Role,
    pub parts: Seq<PartView>,
}

impl View for Media {
    type V = MediaView;

    open spec fn view(&self) -> MediaView {
        MediaView {
            media_type: self.media_type,
            data: self.data@,
            mime_type: self.mime_type@,
            uri: opt_text(self.uri),
            finished: self.finished,
        }
    }
}

/// The views of a sequence of media units.
pub open spec fn media_views(v: Seq<Media>) -> Seq<MediaView> {
    v.map_values(|m: Media| m@)
}

impl View for Part {
    type V = PartView;

    open spec fn view(&self) -> PartView {
        match *self {
            Part::Text { content, finished } => PartView::Text { content: content@, finished },
            Part::Reasoning { content, summary, signature, finished } => PartView::Reasoning {
                content: content@,
                summary: opt_text(summary),
                signature: opt_text(signature),
                finished,
            },
            Part::FunctionCall { id, name, arguments, signature, finished } => {
                PartView::FunctionCall {
                    id: opt_text(id),
                    name: name@,
                    arguments,
                    signature: opt_text(signature),
                    finished,
                }
            },
            Part::FunctionResponse { id, name, response, parts, finished } => {
                PartView::FunctionResponse {
                    id: opt_text(id),
                    name: name@,
                    response,
                    parts: media_views(parts@),
                    finished,
                }
            },
            Part::Media(m) => PartView::Media(m@),
        }
    }
}

/// The views of a sequence of units.
pub open spec fn part_views(v: Seq<Part>) -> Seq<PartView> {
    v.map_values(|p: Part| p@)
}

impl View for Message {
    type V = MessageView;

    open spec fn view(&self) -> MessageView {
        match *self {
            Message::User(parts) => MessageView { role: Role::User, parts: part_views(parts@) },
            Message::Assistant(parts) => MessageView {
                role: Role::Assistant,
                parts: part_views(parts@),
            },
        }
    }
}

/// The views of a sequence of messages.
pub open spec fn message_views(v: Seq<Message>) -> Seq<MessageView> {
    v.map_values(|m: Message| m@)
}

impl MediaView {
    /// The same unit, closed.
    pub open spec fn close(self) -> MediaView {
        MediaView { finished: true, ..self }
    }
}

impl PartView {
    pub open spec fn finished(self) -> bool {
        match self {
            PartView::Text { finished, .. } => finished,
            PartView::Reasoning { finished, .. } => finished,
            PartView::FunctionCall { finished, .. } => finished,
            PartView::FunctionResponse { finished, .. } => finished,
            PartView::Media(m) => m.finished,
        }
    }

    /// The same unit, closed. Nothing else about it changes.
    pub open spec fn close(self) -> PartView {
        match self {
            PartView::Text { content, .. } => PartView::Text { content, finished: true },
            PartView::Reasoning { content, summary, signature, .. } => PartView::Reasoning {
                content,
                summary,
                signature,
                finished: true,
            },
            PartView::FunctionCall { id, name, arguments, signature, .. } => {
                PartView::FunctionCall { id, name, arguments, signature, finished: true }
            },
            PartView::FunctionResponse { id, name, response, parts, .. } => {
                PartView::FunctionResponse { id, name, response, parts, finished: true }
            },
            PartView::Media(m) => PartView::Media(m.close()),
        }
    }
}

/// The content of the first text or reasoning unit, if there is one.
pub open spec fn first_text(parts: Seq<PartView>) -> Option<Seq<char>>
    decreases parts.len(),
{
    if parts.len() == 0 {
        None
    } else {
        match parts[0] {
            PartView::Text { content, .. } => Some(content),
            PartView::Reasoning { content, .. } => Some(content),
            _ => first_text(parts.skip(1)),
        }
    }
}

/// Every unit of the sequence is closed.
pub open spec fn all_finished(parts: Seq<PartView>) -> bool {
    forall|i: int| 0 <= i < parts.len() ==> (#[trigger] parts[i]).finished()
}

/// Whether going from one list of units to another respects the units
/// that were closed: none is removed, and each is exactly as it was.
pub open spec fn keeps_finished(before: Seq<PartView>, after: Seq<PartView>) -> bool {
    &&& before.len() <= after.len()
    &&& forall|i: int|
        0 <= i < before.len() && (#[trigger] before[i]).finished() ==> after[i] == before[i]
}

/// Respecting closed units carries over a chain of changes, provided that
/// no change reopens a unit.
pub proof fn keeps_finished_chains(a: Seq<PartView>, b: Seq<PartView>, c: Seq<PartView>)
    requires
        keeps_finished(a, b),
        keeps_finished(b, c),
    ensures
        keeps_finished(a, c),
{
    assert forall|i: int| 0 <= i < a.len() && (#[trigger] a[i]).finished() implies c[i]
        == a[i] by {
        assert(b[i] == a[i]);
        assert(b[i].finished());
    }
}

/// Closing a unit changes its flag and nothing else, and closing it again
/// changes nothing.
pub proof fn close_changes_the_flag_only(unit: PartView)
    ensures
        unit.close().finished(),
        unit.close().close() == unit.close(),
        unit.finished() ==> unit.close() == unit,
        unit is Text ==> unit.close() is Text && unit.close()->Text_content == unit->Text_content,
        unit is Reasoning ==> unit.close() is Reasoning && unit.close()->Reasoning_content
            == unit->Reasoning_content && unit.close()->Reasoning_summary
            == unit->Reasoning_summary && unit.close()->Reasoning_signature
            == unit->Reasoning_signature,
        unit is FunctionCall ==> unit.close() is FunctionCall && unit.close()->FunctionCall_id
            == unit->FunctionCall_id && unit.close()->FunctionCall_name
            == unit->FunctionCall_name && unit.close()->FunctionCall_arguments
            == unit->FunctionCall_arguments && unit.close()->FunctionCall_signature
            == unit->FunctionCall_signature,
        unit is FunctionResponse ==> unit.close() is FunctionResponse
            && unit.close()->FunctionResponse_id == unit->FunctionResponse_id
            && unit.close()->FunctionResponse_name == unit->FunctionResponse_name
            && unit.close()->FunctionResponse_response == unit->FunctionResponse_response
            && unit.close()->FunctionResponse_parts == unit->FunctionResponse_parts,
        unit is Media ==> unit.close() is Media && unit.close()->Media_0 == unit->Media_0.close(),
{
}

/// Closing every unit of a list keeps their number and their order, and
/// respects the units that were closed already.
pub proof fn close_all_keeps_finished(parts: Seq<PartView>)
    ensures
        close_all(parts).len() == parts.len(),
        keeps_finished(parts, close_all(parts)),
        forall|i: int| 0 <= i < parts.len() ==> (#[trigger] close_all(parts)[i]) == parts[i].close(),
{
}

/// The sequence with every unit closed.
pub open spec fn close_all(parts: Seq<PartView>) -> Seq<PartView> {
    parts.map_values(|p: PartView| p.close())
}

/// Copies an optional string.
pub fn clone_opt_string(o: &Option<String>) -> (r: Option<String>)
    ensures
        opt_text(r) == opt_text(*o),
{
    match o {
        Some(s) => Some(s.clone()),
        None => None,
    }
}

impl Clone for Media {
    fn clone(&self) -> (r: Self)
        ensures
            r@ == self@,
    {
        Media {
            media_type: self.media_type,
            data: self.data.clone(),
            mime_type: self.mime_type.clone(),
            uri: clone_opt_string(&self.uri),
            finished: self.finished,
        }
    }
}

/// Copies a sequence of media units.
pub fn clone_media(v: &Vec<Media>) -> (r: Vec<Media>)
    ensures
        media_views(r@) == media_views(v@),
{
    let mut out: Vec<Media> = Vec::new();
    let mut i: usize = 0;
    while i < v.len()
        invariant
            i <= v.len(),
            out.len() == i,
            forall|j: int| 0 <= j < i ==> out[j]@ == v[j]@,
        decreases v.len() - i,
    {
        out.push(v[i].clone());
        i += 1;
    }
    assert(media_views(out@) =~= media_views(v@));
    out
}

impl Clone for Part {
    fn clone(&self) -> (r: Self)
        ensures
            r@ == self@,
    {
        match self {
            Part::Text { content, finished } => Part::Text {
                content: content.clone(),
                finished: *finished,
            },
            Part::Reasoning { content, summary, signature, finished } => Part::Reasoning {
                content: content.clone(),
                summary: clone_opt_string(summary),
                signature: clone_opt_string(signature),
                finished: *finished,
            },
            Part::FunctionCall { id, name, arguments, signature, finished } => {
                Part::FunctionCall {
                    id: clone_opt_string(id),
                    name: name.clone(),
                    arguments: arguments.clone(),
                    signature: clone_opt_string(signature),
                    finished: *finished,
                }
            },
            Part::FunctionResponse { id, name, response, parts, finished } => {
                Part::FunctionResponse {
                    id: clone_opt_string(id),
                    name: name.clone(),
                    response: response.clone(),
                    parts: clone_media(parts),
                    finished: *finished,
                }
            },
            Part::Media(m) => Part::Media(m.clone()),
        }
    }
}

/// Copies a sequence of units.
pub fn clone_parts(v: &Vec<Part>) -> (r: Vec<Part>)
    ensures
        part_views(r@) == part_views(v@),
{
    let mut out: Vec<Part> = Vec::new();
    let mut i: usize = 0;
    while i < v.len()
        invariant
            i <= v.len(),
            out.len() == i,
            forall|j: int| 0 <= j < i ==> out[j]@ == v[j]@,
        decreases v.len() - i,
    {
        out.push(v[i].clone());
        i += 1;
    }
    assert(part_views(out@) =~= part_views(v@));
    out
}

impl Clone for Message {
    fn clone(&self) -> (r: Self)
        ensures
            r@ == self@,
    {
        match self {
            Message::User(parts) => Message::User(clone_parts(parts)),
            Message::Assistant(parts) => Message::Assistant(clone_parts(parts)),
        }
    }
}

/// Copies a sequence of messages.
pub fn clone_messages(v: &Vec<Message>) -> (r: Vec<Message>)
    ensures
        message_views(r@) == message_views(v@),
{
    let mut out: Vec<Message> = Vec::new();
    let mut i: usize = 0;
    while i < v.len()
        invariant
            i <= v.len(),
            out.len() == i,
            forall|j: int| 0 <= j < i ==> out[j]@ == v[j]@,
        decreases v.len() - i,
    {
        out.push(v[i].clone());
        i += 1;
    }
    assert(message_views(out@) =~= message_views(v@));
    out
}

impl View for Response {
    type V = ResponseView;

    open spec fn view(&self) -> ResponseView {
        ResponseView { data: message_views(self.data@), usage: self.usage@, finish: self.finish }
    }
}

impl Clone for Response {
    fn clone(&self) -> (r: Self)
        ensures
            r@ == self@,
    {
        Response { data: clone_messages(&self.data), usage: self.usage, finish: self.finish }
    }
}

/// A piece of a streamed response.
#[derive(Debug, PartialEq)]
pub enum StreamChunk {
    Data(Message),
    Usage(Usage),
    Finish(FinishReason),
}

pub enum StreamChunkView {
    Data(MessageView),
    Usage(UsageView),
    Finish(FinishReason),
}

impl View for StreamChunk {
    type V = StreamChunkView;

    open spec fn view(&self) -> StreamChunkView {
        match *self {
            StreamChunk::Data(message) => StreamChunkView::Data(message@),
            StreamChunk::Usage(usage) => StreamChunkView::Usage(usage@),
            StreamChunk::Finish(finish) => StreamChunkView::Finish(finish),
        }
    }
}

/// The views of a sequence of chunks.
pub open spec fn chunk_views(v: Seq<StreamChunk>) -> Seq<StreamChunkView> {
    v.map_values(|c: StreamChunk| c@)
}

impl Part {
    /// Whether the unit is closed.
    pub fn is_finished(&self) -> (b: bool)
        ensures
            b == self@.finished(),
    {
        match self {
            Part::Text { finished, .. } => *finished,
            Part::Reasoning { finished, .. } => *finished,
            Part::FunctionCall { finished, .. } => *finished,
            Part::FunctionResponse { finished, .. } => *finished,
            Part::Media(m) => m.finished,
        }
    }

    /// Closes the unit. Nothing else about it changes.
    pub fn finish(&mut self)
        ensures
            final(self)@ == old(self)@.close(),
    {
        match self {
            Part::Text { finished, .. } => {
                *finished = true;
            },
            Part::Reasoning { finished, .. } => {
                *finished = true;
            },
            Part::FunctionCall { finished, .. } => {
                *finished = true;
            },
            Part::FunctionResponse { finished, .. } => {
                *finished = true;
            },
            Part::Media(m) => {
                m.finished = true;
            },
        }
    }
}

impl Message {
    /// Closes every unit of the message. Nothing else about it changes.
    pub fn close(&mut self)
        ensures
            final(self)@.role == old(self)@.role,
            final(self)@.parts == close_all(old(self)@.parts),
    {
        let ghost start = self@.parts;
        let parts = self.parts_mut();
        let ghost before = *parts;
        let mut i: usize = 0;
        while i < parts.len()
            invariant
                i <= parts.len(),
                parts.len() == before.len(),
                forall|j: int| 0 <= j < i ==> parts[j]@ == before[j]@.close(),
                forall|j: int| i <= j < parts.len() ==> parts[j] == before[j],
            decreases parts.len() - i,
        {
            parts[i].finish();
            i += 1;
        }
        assert(part_views(parts@) =~= close_all(part_views(before@)));
    }

    /// Who sent the message.
    pub fn role(&self) -> (r: &Role)
        ensures
            *r == self@.role,
    {
        match self {
            Message::User(_) => &Role::User,
            Message::Assistant(_) => &Role::Assistant,
        }
    }

    /// The text of the message: the content of its first text or
    /// reasoning unit, if it has one.
    pub fn content(&self) -> (r: Option<String>)
        ensures
            r is Some <==> first_text(self@.parts) is Some,
            r matches Some(s) ==> Some(s@) == first_text(self@.parts),
    {
        let parts = self.parts();
        let ghost units = part_views(parts@);
        let mut i: usize = 0;
        assert(units.skip(0) =~= units);
        while i < parts.len()
            invariant
                i <= parts.len(),
                units == part_views(parts@),
                units == self@.parts,
                first_text(units) == first_text(units.skip(i as int)),
            decreases parts.len() - i,
        {
            assert(units.skip(i as int).len() > 0);
            assert(units.skip(i as int)[0] == parts[i as int]@);
            assert(units.skip(i as int).skip(1) =~= units.skip(i + 1));
            match &parts[i] {
                Part::Text { content, .. } => {
                    return Some(content.clone());
                },
                Part::Reasoning { content, .. } => {
                    return Some(content.clone());
                },
                _ => {},
            }
            i += 1;
        }
        None
    }

    /// The units of the message, for writing.
    pub fn parts_mut(&mut self) -> (r: &mut Vec<Part>)
        ensures
            *r == old(self).units(),
            *final(self) == old(self).with_units(*final(r)),
    {
        match self {
            Message::User(parts) => parts,
            Message::Assistant(parts) => parts,
        }
    }

    /// The units of the message.
    pub open spec fn units(self) -> Vec<Part> {
        match self {
            Message::User(parts) => parts,
            Message::Assistant(parts) => parts,
        }
    }

    /// The message with other units.
    pub open spec fn with_units(self, parts: Vec<Part>) -> Message {
        match self {
            Message::User(_) => Message::User(parts),
            Message::Assistant(_) => Message::Assistant(parts),
        }
    }

    /// The units of the message, in order.
    pub fn parts(&self) -> (r: &Vec<Part>)
        ensures
            part_views(r@) == self@.parts,
    {
        match self {
            Message::User(parts) => parts,
            Message::Assistant(parts) => parts,
        }
    }
}

} // verus!
