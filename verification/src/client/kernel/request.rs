//! The outbound request: its header with fresh identifiers, and its text
//! on the wire.

use vstd::prelude::*;
use vstd::string::*;
use crate::client::error::JupyterApiError;
use crate::client::json::json_quoted;
use crate::client::json::quote;
use crate::client::kernel::types::optional_view;
use crate::client::kernel::types::MessageType;
use crate::client::kernel::types::Metadata;

verus! {

/// A new random identifier, from `uuid::Uuid::new_v4`, as the text that
/// `Uuid` displays: 32 hexadecimal digits in five groups. The contract
/// claims only the length of that text; which text comes is left to chance.
/// The call does not return where the operating system has no random bytes
/// to give.
#[verifier::external_body]
fn fresh_id() -> (r: String)
    ensures
        r@.len() == 36,
{
    uuid::Uuid::new_v4().to_string()
}

/// The header of an outbound request.
#[derive(Debug, PartialEq)]
pub struct KernelRequestHeader {
    username: Option<String>,
    session_id: String,
    message_id: String,
    message_type: MessageType,
    date: Option<String>,
    version: String,
}

/// The mathematical value of a [`KernelRequestHeader`].
pub struct KernelRequestHeaderView {
    pub username: Option<Seq<char>>,
    pub session_id: Seq<char>,
    pub message_id: Seq<char>,
    pub message_type: MessageType,
    pub date: Option<Seq<char>>,
    pub version: Seq<char>,
}

impl View for KernelRequestHeader {
    type V = KernelRequestHeaderView;

    closed spec fn view(&self) -> KernelRequestHeaderView {
        KernelRequestHeaderView {
            username: optional_view(self.username),
            session_id: self.session_id@,
            message_id: self.message_id@,
            message_type: self.message_type,
            date: optional_view(self.date),
            version: self.version@,
        }
    }
}

/// A copy of an optional text.
fn copy_optional(text: &Option<String>) -> (r: Option<String>)
    ensures
        r == *text,
{
    match text {
        Some(s) => Some(s.clone()),
        None => None,
    }
}

impl Clone for KernelRequestHeader {
    fn clone(&self) -> (r: Self)
        ensures
            r == *self,
    {
        KernelRequestHeader {
            username: copy_optional(&self.username),
            session_id: self.session_id.clone(),
            message_id: self.message_id.clone(),
            message_type: self.message_type,
            date: copy_optional(&self.date),
            version: self.version.clone(),
        }
    }
}

/// The header of an execute-request with these identifiers: sent by
/// `jupyter-api-client-rs`, undated, under version `5.0` of the protocol.
pub open spec fn request_header(
    session_id: Seq<char>,
    message_id: Seq<char>,
) -> KernelRequestHeaderView {
    KernelRequestHeaderView {
        username: Some("jupyter-api-client-rs"@),
        session_id,
        message_id,
        message_type: MessageType::ExecuteRequest,
        date: None,
        version: "5.0"@,
    }
}

impl KernelRequestHeader {
    /// The header of an execute-request with these identifiers.
    pub fn with_ids(session_id: String, message_id: String) -> (r: Self)
        ensures
            r@ == request_header(session_id@, message_id@),
    {
        KernelRequestHeader {
            username: Some(String::from_str("jupyter-api-client-rs")),
            session_id,
            message_id,
            message_type: MessageType::ExecuteRequest,
            date: None,
            version: String::from_str("5.0"),
        }
    }

    /// The identifier that answers to this request refer to.
    pub fn message_id(&self) -> (r: &String)
        ensures
            r@ == self@.message_id,
    {
        &self.message_id
    }

    /// The identifier of the session that the request belongs to.
    pub fn session_id(&self) -> (r: &String)
        ensures
            r@ == self@.session_id,
    {
        &self.session_id
    }
}

impl Default for KernelRequestHeader {
    /// The header of an execute-request under two new random identifiers.
    fn default() -> (r: Self)
        ensures
            r@ == request_header(r@.session_id, r@.message_id),
            r@.session_id.len() == 36,
            r@.message_id.len() == 36,
    {
        KernelRequestHeader::with_ids(fresh_id(), fresh_id())
    }
}

/// The content of an execute-request.
#[derive(Debug, Clone, PartialEq)]
pub struct KernelCodeContent {
    code: String,
    silent: bool,
}

/// The mathematical value of a [`KernelCodeContent`].
pub struct KernelCodeContentView {
    pub code: Seq<char>,
    pub silent: bool,
}

impl View for KernelCodeContent {
    type V = KernelCodeContentView;

    closed spec fn view(&self) -> KernelCodeContentView {
        KernelCodeContentView { code: self.code@, silent: self.silent }
    }
}

impl From<String> for KernelCodeContent {
    /// The content that submits `code`, not silently.
    fn from(code: String) -> (r: Self)
        ensures
            r@ == (KernelCodeContentView { code: code@, silent: false }),
    {
        Self { code, silent: false }
    }
}

impl vstd::std_specs::convert::FromSpecImpl<String> for KernelCodeContent {
    open spec fn obeys_from_spec() -> bool {
        true
    }

    closed spec fn from_spec(code: String) -> Self {
        KernelCodeContent { code, silent: false }
    }
}

/// An execute-request: the envelope that submits code to a kernel.
#[derive(Debug, PartialEq)]
pub struct KernelCodeRequest {
    header: KernelRequestHeader,
    parent_header: KernelRequestHeader,
    metadata: Metadata,
    content: KernelCodeContent,
}

/// The mathematical value of a [`KernelCodeRequest`].
pub struct KernelCodeRequestView {
    pub header: KernelRequestHeaderView,
    pub parent_header: KernelRequestHeaderView,
    pub content: KernelCodeContentView,
}

impl View for KernelCodeRequest {
    type V = KernelCodeRequestView;

    closed spec fn view(&self) -> KernelCodeRequestView {
        KernelCodeRequestView {
            header: self.header@,
            parent_header: self.parent_header@,
            content: self.content@,
        }
    }
}

/// The request that submits `code` under `header`: a request at the root,
/// so its parent header is its own header.
pub open spec fn request_under(
    header: KernelRequestHeaderView,
    code: Seq<char>,
) -> KernelCodeRequestView {
    KernelCodeRequestView {
        header,
        parent_header: header,
        content: KernelCodeContentView { code, silent: false },
    }
}

impl KernelCodeRequest {
    /// The request that submits `code` under `header`.
    pub fn with_header(header: KernelRequestHeader, code: String) -> (r: Self)
        ensures
            r@ == request_under(header@, code@),
    {
        Self {
            parent_header: header.clone(),
            header,
            metadata: Metadata {},
            content: KernelCodeContent::from(code),
        }
    }

    /// The request that submits `code` under two new random identifiers.
    pub fn new(code: String) -> (r: Self)
        ensures
            r@ == request_under(
                request_header(r@.header.session_id, r@.header.message_id),
                code@,
            ),
            r@.header.session_id.len() == 36,
            r@.header.message_id.len() == 36,
    {
        KernelCodeRequest::with_header(KernelRequestHeader::default(), code)
    }

    /// The header of the request.
    pub fn header(&self) -> (r: &KernelRequestHeader)
        ensures
            r@ == self@.header,
    {
        &self.header
    }

    /// The parent header of the request.
    pub fn parent_header(&self) -> (r: &KernelRequestHeader)
        ensures
            r@ == self@.parent_header,
    {
        &self.parent_header
    }

    /// The content of the request.
    pub fn content(&self) -> (r: &KernelCodeContent)
        ensures
            r@ == self@.content,
    {
        &self.content
    }
}

impl From<String> for KernelCodeRequest {
    fn from(code: String) -> (r: Self)
        ensures
            r@ == request_under(
                request_header(r@.header.session_id, r@.header.message_id),
                code@,
            ),
            r@.header.session_id.len() == 36,
            r@.header.message_id.len() == 36,
    {
        KernelCodeRequest::new(code)
    }
}

/// The identifiers are new with every call, so the request is no function
/// of the code: what `from` returns is stated on `from` itself.
impl vstd::std_specs::convert::FromSpecImpl<String> for KernelCodeRequest {
    open spec fn obeys_from_spec() -> bool {
        false
    }

    open spec fn from_spec(code: String) -> Self {
        arbitrary()
    }
}

impl From<&str> for KernelCodeRequest {
    fn from(code: &str) -> (r: Self)
        ensures
            r@ == request_under(
                request_header(r@.header.session_id, r@.header.message_id),
                code@,
            ),
            r@.header.session_id.len() == 36,
            r@.header.message_id.len() == 36,
    {
        KernelCodeRequest::new(code.to_owned())
    }
}

/// The identifiers are new with every call, so the request is no function
/// of the code: what `from` returns is stated on `from` itself.
impl vstd::std_specs::convert::FromSpecImpl<&str> for KernelCodeRequest {
    open spec fn obeys_from_spec() -> bool {
        false
    }

    open spec fn from_spec(code: &str) -> Self {
        arbitrary()
    }
}

/// The JSON literal of each field of a request header.
pub struct HeaderLiterals {
    pub username: String,
    pub session: String,
    pub msg_id: String,
    pub msg_type: String,
    pub date: String,
    pub version: String,
}

/// The mathematical value of a [`HeaderLiterals`].
pub struct HeaderLiteralsView {
    pub username: Seq<char>,
    pub session: Seq<char>,
    pub msg_id: Seq<char>,
    pub msg_type: Seq<char>,
    pub date: Seq<char>,
    pub version: Seq<char>,
}

impl View for HeaderLiterals {
    type V = HeaderLiteralsView;

    open spec fn view(&self) -> HeaderLiteralsView {
        HeaderLiteralsView {
            username: self.username@,
            session: self.session@,
            msg_id: self.msg_id@,
            msg_type: self.msg_type@,
            date: self.date@,
            version: self.version@,
        }
    }
}

/// The JSON literal of an optional text: `null` where there is none.
pub open spec fn literal_or_null(text: Option<Seq<char>>) -> Option<Seq<char>> {
    match text {
        Some(t) => json_quoted(t),
        None => Some("null"@),
    }
}

/// The JSON literal of each field of `header`, or `None` where one of the
/// fields cannot be written as JSON.
pub open spec fn literals_of(header: KernelRequestHeaderView) -> Option<HeaderLiteralsView> {
    let username = literal_or_null(header.username);
    let session = json_quoted(header.session_id);
    let msg_id = json_quoted(header.message_id);
    let msg_type = json_quoted(header.message_type.spec_wire_name());
    let date = literal_or_null(header.date);
    let version = json_quoted(header.version);
    if username is Some && session is Some && msg_id is Some && msg_type is Some && date is Some
        && version is Some {
        Some(
            HeaderLiteralsView {
                username: username->0,
                session: session->0,
                msg_id: msg_id->0,
                msg_type: msg_type->0,
                date: date->0,
                version: version->0,
            },
        )
    } else {
        None
    }
}

/// The JSON object of a header with these literals.
pub open spec fn framed_header(l: HeaderLiteralsView) -> Seq<char> {
    "{\"username\":"@ + l.username + ",\"session\":"@ + l.session + ",\"msg_id\":"@ + l.msg_id
        + ",\"msg_type\":"@ + l.msg_type + ",\"date\":"@ + l.date + ",\"version\":"@ + l.version
        + "}"@
}

/// The JSON literal of a truth value.
pub open spec fn bool_literal(b: bool) -> Seq<char> {
    if b {
        "true"@
    } else {
        "false"@
    }
}

/// The JSON object of a request: its header, its parent header, empty
/// metadata, and the code with the silent flag as content.
pub open spec fn framed_request(
    header: HeaderLiteralsView,
    parent_header: HeaderLiteralsView,
    code: Seq<char>,
    silent: bool,
) -> Seq<char> {
    "{\"header\":"@ + framed_header(header) + ",\"parent_header\":"@ + framed_header(
        parent_header,
    ) + ",\"metadata\":{},\"content\":{\"code\":"@ + code + ",\"silent\":"@ + bool_literal(silent)
        + "}}"@
}

/// The text of `request` on the wire, or `None` where one of its strings
/// cannot be written as JSON.
pub open spec fn request_json(request: KernelCodeRequestView) -> Option<Seq<char>> {
    let header = literals_of(request.header);
    let parent_header = literals_of(request.parent_header);
    let code = json_quoted(request.content.code);
    if header is Some && parent_header is Some && code is Some {
        Some(framed_request(header->0, parent_header->0, code->0, request.content.silent))
    } else {
        None
    }
}

/// Writes the JSON object of a header with these literals.
pub fn frame_header(literals: &HeaderLiterals) -> (r: String)
    ensures
        r@ == framed_header(literals@),
{
    let mut text = String::from_str("{\"username\":");
    text.append(literals.username.as_str());
    text.append(",\"session\":");
    text.append(literals.session.as_str());
    text.append(",\"msg_id\":");
    text.append(literals.msg_id.as_str());
    text.append(",\"msg_type\":");
    text.append(literals.msg_type.as_str());
    text.append(",\"date\":");
    text.append(literals.date.as_str());
    text.append(",\"version\":");
    text.append(literals.version.as_str());
    text.append("}");
    text
}

/// Writes the JSON object of a request; `code` is the JSON literal of the
/// code.
pub fn frame_request(
    header: &HeaderLiterals,
    parent_header: &HeaderLiterals,
    code: &str,
    silent: bool,
) -> (r: String)
    ensures
        r@ == framed_request(header@, parent_header@, code@, silent),
{
    let mut text = String::from_str("{\"header\":");
    text.append(frame_header(header).as_str());
    text.append(",\"parent_header\":");
    text.append(frame_header(parent_header).as_str());
    text.append(",\"metadata\":{},\"content\":{\"code\":");
    text.append(code);
    text.append(",\"silent\":");
    text.append(if silent { "true" } else { "false" });
    text.append("}}");
    text
}

/// The JSON literal of `text`, or of `null` where there is none.
fn quote_optional(text: &Option<String>) -> (r: Result<String, JupyterApiError>)
    ensures
        r matches Ok(literal) ==> literal_or_null(optional_view(*text)) == Some(literal@),
        r matches Err(e) ==> e is JsonError && literal_or_null(optional_view(*text)) is None,
{
    match text {
        Some(s) => quote_text(s.as_str()),
        None => Ok(String::from_str("null")),
    }
}

/// The JSON literal of `text`.
fn quote_text(text: &str) -> (r: Result<String, JupyterApiError>)
    ensures
        r matches Ok(literal) ==> json_quoted(text@) == Some(literal@),
        r matches Err(e) ==> e is JsonError && json_quoted(text@) is None,
{
    match quote(text) {
        Ok(literal) => Ok(literal),
        Err(e) => Err(JupyterApiError::JsonError(e)),
    }
}

impl KernelRequestHeader {
    /// The JSON literal of each field. It fails exactly where one of the
    /// fields cannot be written as JSON.
    pub fn literals(&self) -> (r: Result<HeaderLiterals, JupyterApiError>)
        ensures
            r matches Ok(literals) ==> literals_of(self@) == Some(literals@),
            r matches Err(e) ==> e is JsonError && literals_of(self@) is None,
    {
        let username = quote_optional(&self.username)?;
        let session = quote_text(self.session_id.as_str())?;
        let msg_id = quote_text(self.message_id.as_str())?;
        let msg_type = quote_text(self.message_type.wire_name())?;
        let date = quote_optional(&self.date)?;
        let version = quote_text(self.version.as_str())?;
        Ok(HeaderLiterals { username, session, msg_id, msg_type, date, version })
    }
}

impl KernelCodeRequest {
    /// The text of the request on the wire. It fails exactly where one of
    /// the request's strings cannot be written as JSON.
    pub fn to_json(&self) -> (r: Result<String, JupyterApiError>)
        ensures
            r matches Ok(text) ==> request_json(self@) == Some(text@),
            r matches Err(e) ==> e is JsonError && request_json(self@) is None,
    {
        let header = self.header.literals()?;
        let parent_header = self.parent_header.literals()?;
        let code = quote_text(self.content.code.as_str())?;
        Ok(frame_request(&header, &parent_header, code.as_str(), self.content.silent))
    }
}

} // verus!
