//! The failures that the client reports.

use vstd::prelude::*;
use vstd::string::*;

verus! {

/// `serde_json::Error`: carried as it is, and read only for its text.
#[verifier::external_type_specification]
#[verifier::external_body]
pub struct ExJsonError(serde_json::Error);

/// `url::ParseError`: carried as it is, and read only for its text.
#[verifier::external_type_specification]
#[verifier::external_body]
pub struct ExUrlParseError(url::ParseError);

/// Every failure is handed to the caller as one of these; none is retried.
#[derive(Debug)]
pub enum JupyterApiError {
    /// An HTTP request could not be sent or its answer not be read.
    ReqwestError(String),
    UrlParseError(url::ParseError),
    InvalidJupyterBaseUrlError(String),
    /// Content was asked for under a kind that the message does not declare.
    InvalidMessageType(String),
    /// A frame or a content was not JSON, or not of the expected shape.
    JsonError(serde_json::Error),
    /// The duplex connection could not be opened or written to.
    WsError(String),
    BadRequest(String),
    /// The overall deadline passed.
    KernelMessageTimeout,
    /// The idle window passed with nothing relevant observed.
    KernelResponseTimeout,
    /// A frame could not be received.
    KernelMessageError(String),
    /// The server closed the channel.
    KernelConnectionClosed,
    InternalServerError(String),
    EmptyResponse,
}

/// `prefix` followed by `detail`.
fn prefixed(prefix: &str, detail: &str) -> (r: String)
    ensures
        r@ == prefix@ + detail@,
{
    let mut text = String::from_str(prefix);
    text.append(detail);
    text
}

impl JupyterApiError {
    /// The fixed words that a message of this variant starts with; for the
    /// variants that carry nothing, the whole message.
    pub open spec fn spec_prefix(&self) -> Seq<char> {
        match self {
            JupyterApiError::ReqwestError(_) => Seq::empty(),
            JupyterApiError::UrlParseError(_) => "url parse error: "@,
            JupyterApiError::InvalidJupyterBaseUrlError(_) => "invalid jupyter base url: "@,
            JupyterApiError::InvalidMessageType(_) => "invalid message type: "@,
            JupyterApiError::JsonError(_) => "json error: "@,
            JupyterApiError::WsError(_) => "ws error: "@,
            JupyterApiError::BadRequest(_) => "bad request: "@,
            JupyterApiError::KernelMessageTimeout => "kernel message timeout "@,
            JupyterApiError::KernelResponseTimeout => "timeout specified kernel response error"@,
            JupyterApiError::KernelMessageError(_) => "kernel message error: "@,
            JupyterApiError::KernelConnectionClosed => "connection closed by kernel"@,
            JupyterApiError::InternalServerError(_) => "internal server error: "@,
            JupyterApiError::EmptyResponse => "empty response"@,
        }
    }

    /// Whether `detail` is the text of what the variant carries: the text
    /// itself, what a carried failure displays, or nothing.
    pub open spec fn carries(&self, detail: Seq<char>) -> bool {
        match self {
            JupyterApiError::ReqwestError(s) => detail == s@,
            JupyterApiError::UrlParseError(e) => exists|shown: String|
                #[trigger] to_string_from_display_ensures::<url::ParseError>(e, shown) && detail
                    == shown@,
            JupyterApiError::InvalidJupyterBaseUrlError(s) => detail == s@,
            JupyterApiError::InvalidMessageType(s) => detail == s@,
            JupyterApiError::JsonError(e) => exists|shown: String|
                #[trigger] to_string_from_display_ensures::<serde_json::Error>(e, shown) && detail
                    == shown@,
            JupyterApiError::WsError(s) => detail == s@,
            JupyterApiError::BadRequest(s) => detail == s@,
            JupyterApiError::KernelMessageError(s) => detail == s@,
            JupyterApiError::InternalServerError(s) => detail == s@,
            _ => detail == Seq::<char>::empty(),
        }
    }

    /// The message for a reader: the variant's fixed words, then what it
    /// carries.
    pub fn message(&self) -> (r: String)
        ensures
            exists|detail: Seq<char>|
                #[trigger] self.carries(detail) && r@ == self.spec_prefix() + detail,
    {
        let prefix = self.prefix();
        let detail = match self {
            JupyterApiError::ReqwestError(s) => s.clone(),
            JupyterApiError::UrlParseError(e) => e.to_string(),
            JupyterApiError::InvalidJupyterBaseUrlError(s) => s.clone(),
            JupyterApiError::InvalidMessageType(s) => s.clone(),
            JupyterApiError::JsonError(e) => e.to_string(),
            JupyterApiError::WsError(s) => s.clone(),
            JupyterApiError::BadRequest(s) => s.clone(),
            JupyterApiError::KernelMessageError(s) => s.clone(),
            JupyterApiError::InternalServerError(s) => s.clone(),
            _ => String::new(),
        };
        assert(self.carries(detail@));
        prefixed(prefix, detail.as_str())
    }

    /// The fixed words that a message of this variant starts with.
    pub fn prefix(&self) -> (r: &'static str)
        ensures
            r@ == self.spec_prefix(),
    {
        match self {
            JupyterApiError::ReqwestError(_) => {
                proof {
                    reveal_strlit("");
                }
                assert(""@ =~= Seq::<char>::empty());
                ""
            },
            JupyterApiError::UrlParseError(_) => "url parse error: ",
            JupyterApiError::InvalidJupyterBaseUrlError(_) => "invalid jupyter base url: ",
            JupyterApiError::InvalidMessageType(_) => "invalid message type: ",
            JupyterApiError::JsonError(_) => "json error: ",
            JupyterApiError::WsError(_) => "ws error: ",
            JupyterApiError::BadRequest(_) => "bad request: ",
            JupyterApiError::KernelMessageTimeout => "kernel message timeout ",
            JupyterApiError::KernelResponseTimeout => "timeout specified kernel response error",
            JupyterApiError::KernelMessageError(_) => "kernel message error: ",
            JupyterApiError::KernelConnectionClosed => "connection closed by kernel",
            JupyterApiError::InternalServerError(_) => "internal server error: ",
            JupyterApiError::EmptyResponse => "empty response",
        }
    }
}

} // verus!
