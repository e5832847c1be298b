//! Media payloads and the text that stands for them in a request.
//!
//! The data of a media unit is base64 text. Where a provider takes text
//! only, the payload is decoded and sent as text if it is text.

use crate::model::{Media, MediaView, Part, PartView};
use crate::text::concat;
use base64::Engine;
use vstd::prelude::*;
use vstd::string::StringExecFns;
use vstd::utf8::{decode_utf8, valid_utf8};

verus! {

/// The bytes that the standard base64 engine decodes a text to, or `None`
/// where it reports an error.
pub uninterp spec fn base64_decoded(text: Seq<char>) -> Option<Seq<u8>>;

/// Decodes base64 text with `Engine::decode` of the standard engine of the
/// `base64` crate, dropping the error where there is one. The contract only
/// names the outcome: decoding is a function of the text.
#[verifier::external_body]
pub(crate) fn decode_base64(text: &str) -> (r: Option<Vec<u8>>)
    ensures
        r is Some <==> base64_decoded(text@) is Some,
        r matches Some(bytes) ==> Some(bytes@) == base64_decoded(text@),
{
    base64::engine::general_purpose::STANDARD.decode(text).ok()
}

/// `String::from_utf8`, without the error: the text that the bytes encode,
/// or `None` where they are not valid UTF-8.
#[verifier::external_body]
pub(crate) fn text_of_bytes(bytes: Vec<u8>) -> (r: Option<String>)
    ensures
        r is Some <==> valid_utf8(bytes@),
        r matches Some(text) ==> text@ == decode_utf8(bytes@),
{
    String::from_utf8(bytes).ok()
}

/// The text that a payload stands for: what its bytes encode, where it is
/// base64 of valid UTF-8, and the payload itself otherwise.
pub open spec fn payload_text(data: Seq<char>) -> Seq<char> {
    match base64_decoded(data) {
        Some(bytes) => if valid_utf8(bytes) {
            decode_utf8(bytes)
        } else {
            data
        },
        None => data,
    }
}

/// The text that a payload stands for.
pub fn decode_payload(data: &str) -> (r: String)
    ensures
        r@ == payload_text(data@),
{
    match decode_base64(data) {
        Some(bytes) => match text_of_bytes(bytes) {
            Some(text) => text,
            None => String::from_str(data),
        },
        None => String::from_str(data),
    }
}

/// The line of text that announces a media unit in a request: it names
/// where the media came from, if that is known, and its MIME type.
pub open spec fn anchor_text(media: MediaView) -> Seq<char> {
    match media.uri {
        Some(uri) => "[media: "@ + uri + " ("@ + media.mime_type + ")]"@,
        None => "[media: "@ + media.mime_type + "]"@,
    }
}

impl Media {
    /// The line of text that announces this unit in a request.
    pub fn anchor(&self) -> (r: String)
        ensures
            r@ == anchor_text(self@),
    {
        match &self.uri {
            Some(uri) => {
                let mut r = concat("[media: ", uri.as_str());
                r.append(" (");
                r.append(self.mime_type.as_str());
                r.append(")]");
                r
            },
            None => {
                let mut r = concat("[media: ", self.mime_type.as_str());
                r.append("]");
                r
            },
        }
    }
}

impl Part {
    /// The line of text that announces a media unit in a request. Units of
    /// other kinds have none: for them the text is empty.
    pub fn anchor_media(&self) -> (r: String)
        ensures
            r@ == match self@ {
                PartView::Media(m) => anchor_text(m),
                _ => Seq::empty(),
            },
    {
        match self {
            Part::Media(m) => m.anchor(),
            _ => String::new(),
        }
    }
}

} // verus!
