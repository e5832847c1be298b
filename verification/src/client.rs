//! The errors of a client.

use crate::text::concat;
use vstd::prelude::*;
use vstd::string::StringExecFns;

verus! {

/// What can go wrong between a request and its response.
#[derive(Debug, PartialEq)]
pub enum ClientError {
    /// The transport failed. Holds what it reported.
    Http(String),
    /// A provider payload was malformed. Holds what the parser reported.
    Parse(String),
    /// The provider reported an error.
    ProviderError(String),
    StreamCancelled,
    /// The client or the loop around it is set up in a way that cannot work.
    Config(String),
}

pub enum ClientErrorView {
    Http(Seq<char>),
    Parse(Seq<char>),
    ProviderError(Seq<char>),
    StreamCancelled,
    Config(Seq<char>),
}

impl View for ClientError {
    type V = ClientErrorView;

    open spec fn view(&self) -> ClientErrorView {
        match *self {
            ClientError::Http(s) => ClientErrorView::Http(s@),
            ClientError::Parse(s) => ClientErrorView::Parse(s@),
            ClientError::ProviderError(s) => ClientErrorView::ProviderError(s@),
            ClientError::StreamCancelled => ClientErrorView::StreamCancelled,
            ClientError::Config(s) => ClientErrorView::Config(s@),
        }
    }
}

impl ClientErrorView {
    /// The message that describes the error.
    pub open spec fn message(self) -> Seq<char> {
        match self {
            ClientErrorView::Http(s) => "HTTP error: "@ + s,
            ClientErrorView::Parse(s) => "JSON parse error: "@ + s,
            ClientErrorView::ProviderError(s) => "Provider error: "@ + s,
            ClientErrorView::StreamCancelled => "Stream cancelled"@,
            ClientErrorView::Config(s) => "Configuration error: "@ + s,
        }
    }
}

/// The model of a request, or the error for a request that names none.
pub fn required_model(model: &Option<String>) -> (r: Result<String, ClientError>)
    ensures
        match *model {
            Some(m) => r matches Ok(name) && name@ == m@,
            None => r matches Err(e) && e@ == ClientErrorView::Config(
                "Model must be specified"@,
            ),
        },
{
    match model {
        Some(m) => Ok(m.clone()),
        None => Err(ClientError::Config(String::from_str("Model must be specified"))),
    }
}

/// The value of the header that authorizes a request with a key.
pub fn bearer(key: &str) -> (r: String)
    ensures
        r@ == "Bearer "@ + key@,
{
    concat("Bearer ", key)
}

/// The message of an error that a provider reported in its own format.
pub open spec fn reported(provider: Seq<char>, kind: Seq<char>, message: Seq<char>) -> Seq<char> {
    provider + " error ("@ + kind + "): "@ + message
}

/// The message of an error that is known by its HTTP status only.
pub open spec fn refused(status: Seq<char>, body: Seq<char>) -> Seq<char> {
    "HTTP "@ + status + ": "@ + body
}

impl ClientError {
    /// The error for a response in which the provider reports an error of
    /// some kind.
    pub fn provider_reported(provider: &str, kind: &str, message: &str) -> (r: ClientError)
        ensures
            r@ == ClientErrorView::ProviderError(reported(provider@, kind@, message@)),
    {
        let mut text = concat(provider, " error (");
        text.append(kind);
        text.append("): ");
        text.append(message);
        ClientError::ProviderError(text)
    }

    /// The error for a response that was refused, where its body does not
    /// say why in the provider's format.
    pub fn http_status(status: &str, body: &str) -> (r: ClientError)
        ensures
            r@ == ClientErrorView::ProviderError(refused(status@, body@)),
    {
        let mut text = concat("HTTP ", status);
        text.append(": ");
        text.append(body);
        ClientError::ProviderError(text)
    }

    /// The message that describes the error.
    pub fn message(&self) -> (r: String)
        ensures
            r@ == self@.message(),
    {
        match self {
            ClientError::Http(s) => concat("HTTP error: ", s.as_str()),
            ClientError::Parse(s) => concat("JSON parse error: ", s.as_str()),
            ClientError::ProviderError(s) => concat("Provider error: ", s.as_str()),
            ClientError::StreamCancelled => String::from_str("Stream cancelled"),
            ClientError::Config(s) => concat("Configuration error: ", s.as_str()),
        }
    }
}

} // verus!
