//! The messages of the execution protocol: their kinds, and the inbound
//! envelope with its decoding.

use vstd::prelude::*;
use crate::client::error::JupyterApiError;
use crate::client::json::array_field;
use crate::client::json::array_member;
use crate::client::json::malformed;
use crate::client::json::members_of;
use crate::client::json::object_field;
use crate::client::json::object_member;
use crate::client::json::optional_field;
use crate::client::json::optional_member;
use crate::client::json::parse_node;
use crate::client::json::text_field;
use crate::client::json::text_member;
use crate::client::json::JsonNode;
use crate::client::json::Members;
use crate::client::text::same_text;

pub use crate::client::kernel::content::Content;
pub use crate::client::kernel::content::DisplayDataContent;
pub use crate::client::kernel::content::ErrorContent;
pub use crate::client::kernel::content::ExecuteInputContent;
pub use crate::client::kernel::content::ExecuteReplyContent;
pub use crate::client::kernel::content::ExecuteResultContent;
pub use crate::client::kernel::content::StatusContent;
pub use crate::client::kernel::content::StreamContent;
pub use crate::client::kernel::request::frame_header;
pub use crate::client::kernel::request::frame_request;
pub use crate::client::kernel::request::request_json;
pub use crate::client::kernel::request::HeaderLiterals;
pub use crate::client::kernel::request::KernelCodeContent;
pub use crate::client::kernel::request::KernelCodeRequest;
pub use crate::client::kernel::request::KernelRequestHeader;

verus! {

/// The kinds of message that an execution exchanges.
#[derive(Debug, Clone, Copy, PartialEq, Eq, Structural)]
pub enum MessageType {
    KernelInfoRequest,
    KernelInfoReply,
    ExecuteRequest,
    ExecuteInput,
    ExecuteReply,
    ExecuteResult,
    Stream,
    DisplayData,
    Error,
    Status,
}

impl MessageType {
    /// The name of the kind on the wire.
    pub open spec fn spec_wire_name(self) -> Seq<char> {
        match self {
            MessageType::KernelInfoRequest => "kernel_info_request"@,
            MessageType::KernelInfoReply => "kernel_info_reply"@,
            MessageType::ExecuteRequest => "execute_request"@,
            MessageType::ExecuteInput => "execute_input"@,
            MessageType::ExecuteReply => "execute_reply"@,
            MessageType::ExecuteResult => "execute_result"@,
            MessageType::Stream => "stream"@,
            MessageType::DisplayData => "display_data"@,
            MessageType::Error => "error"@,
            MessageType::Status => "status"@,
        }
    }

    /// The name of the kind in a failure's message.
    pub open spec fn spec_name(self) -> Seq<char> {
        match self {
            MessageType::KernelInfoRequest => "KernelInfoRequest"@,
            MessageType::KernelInfoReply => "KernelInfoReply"@,
            MessageType::ExecuteRequest => "ExecuteRequest"@,
            MessageType::ExecuteInput => "ExecuteInput"@,
            MessageType::ExecuteReply => "ExecuteReply"@,
            MessageType::ExecuteResult => "ExecuteResult"@,
            MessageType::Stream => "Stream"@,
            MessageType::DisplayData => "DisplayData"@,
            MessageType::Error => "Error"@,
            MessageType::Status => "Status"@,
        }
    }

    /// The kind that goes by `name` on the wire.
    pub open spec fn named(name: Seq<char>) -> Option<MessageType> {
        if name == "kernel_info_request"@ {
            Some(MessageType::KernelInfoRequest)
        } else if name == "kernel_info_reply"@ {
            Some(MessageType::KernelInfoReply)
        } else if name == "execute_request"@ {
            Some(MessageType::ExecuteRequest)
        } else if name == "execute_input"@ {
            Some(MessageType::ExecuteInput)
        } else if name == "execute_reply"@ {
            Some(MessageType::ExecuteReply)
        } else if name == "execute_result"@ {
            Some(MessageType::ExecuteResult)
        } else if name == "stream"@ {
            Some(MessageType::Stream)
        } else if name == "display_data"@ {
            Some(MessageType::DisplayData)
        } else if name == "error"@ {
            Some(MessageType::Error)
        } else if name == "status"@ {
            Some(MessageType::Status)
        } else {
            None
        }
    }

    /// The name of the kind on the wire.
    pub fn wire_name(&self) -> (r: &'static str)
        ensures
            r@ == self.spec_wire_name(),
    {
        match self {
            MessageType::KernelInfoRequest => "kernel_info_request",
            MessageType::KernelInfoReply => "kernel_info_reply",
            MessageType::ExecuteRequest => "execute_request",
            MessageType::ExecuteInput => "execute_input",
            MessageType::ExecuteReply => "execute_reply",
            MessageType::ExecuteResult => "execute_result",
            MessageType::Stream => "stream",
            MessageType::DisplayData => "display_data",
            MessageType::Error => "error",
            MessageType::Status => "status",
        }
    }

    /// The name of the kind in a failure's message.
    pub fn name(&self) -> (r: &'static str)
        ensures
            r@ == self.spec_name(),
    {
        match self {
            MessageType::KernelInfoRequest => "KernelInfoRequest",
            MessageType::KernelInfoReply => "KernelInfoReply",
            MessageType::ExecuteRequest => "ExecuteRequest",
            MessageType::ExecuteInput => "ExecuteInput",
            MessageType::ExecuteReply => "ExecuteReply",
            MessageType::ExecuteResult => "ExecuteResult",
            MessageType::Stream => "Stream",
            MessageType::DisplayData => "DisplayData",
            MessageType::Error => "Error",
            MessageType::Status => "Status",
        }
    }

    /// The kind that goes by `name` on the wire, if there is one.
    pub fn from_wire_name(name: &str) -> (r: Option<MessageType>)
        ensures
            r == MessageType::named(name@),
    {
        if same_text(name, "kernel_info_request") {
            Some(MessageType::KernelInfoRequest)
        } else if same_text(name, "kernel_info_reply") {
            Some(MessageType::KernelInfoReply)
        } else if same_text(name, "execute_request") {
            Some(MessageType::ExecuteRequest)
        } else if same_text(name, "execute_input") {
            Some(MessageType::ExecuteInput)
        } else if same_text(name, "execute_reply") {
            Some(MessageType::ExecuteReply)
        } else if same_text(name, "execute_result") {
            Some(MessageType::ExecuteResult)
        } else if same_text(name, "stream") {
            Some(MessageType::Stream)
        } else if same_text(name, "display_data") {
            Some(MessageType::DisplayData)
        } else if same_text(name, "error") {
            Some(MessageType::Error)
        } else if same_text(name, "status") {
            Some(MessageType::Status)
        } else {
            None
        }
    }
}

/// Every kind is found again by its name on the wire.
pub proof fn lemma_wire_name_round_trip(kind: MessageType)
    ensures
        MessageType::named(kind.spec_wire_name()) == Some(kind),
{
    reveal_strlit("kernel_info_request");
    reveal_strlit("kernel_info_reply");
    reveal_strlit("execute_request");
    reveal_strlit("execute_input");
    reveal_strlit("execute_reply");
    reveal_strlit("execute_result");
    reveal_strlit("stream");
    reveal_strlit("display_data");
    reveal_strlit("error");
    reveal_strlit("status");
    assert("kernel_info_request"@.len() == 19);
    assert("kernel_info_reply"@.len() == 17);
    assert("execute_request"@.len() == 15);
    assert("execute_input"@.len() == 13);
    assert("execute_reply"@.len() == 13);
    assert("execute_result"@.len() == 14);
    assert("stream"@.len() == 6);
    assert("display_data"@.len() == 12);
    assert("error"@.len() == 5);
    assert("status"@.len() == 6);
    assert("execute_input"@[8] == 'i' && "execute_reply"@[8] == 'r');
    assert("stream"@[2] == 'r' && "status"@[2] == 'a');
}

/// The kind under `key`: a string that names one.
pub open spec fn kind_field(members: Members, key: Seq<char>) -> Option<MessageType> {
    match text_field(members, key) {
        Some(name) => MessageType::named(name),
        None => None,
    }
}

/// The kind under `key`, or the failure where there is none.
pub fn kind_member(members: &Vec<(String, String)>, key: &str) -> (r: Result<
    MessageType,
    JupyterApiError,
>)
    ensures
        r matches Ok(kind) ==> kind_field(members.deep_view(), key@) == Some(kind),
        r matches Err(e) ==> e is JsonError && kind_field(members.deep_view(), key@) is None,
{
    let name = text_member(members, key)?;
    match MessageType::from_wire_name(name.as_str()) {
        Some(kind) => Ok(kind),
        None => Err(malformed(key)),
    }
}

/// The header of an inbound message.
#[derive(Debug, Clone, PartialEq)]
pub struct Header {
    pub username: String,
    pub session: String,
    pub msg_type: MessageType,
    pub version: String,
    pub msg_id: String,
    pub date: String,
}

/// The mathematical value of a [`Header`].
pub struct HeaderView {
    pub username: Seq<char>,
    pub session: Seq<char>,
    pub msg_type: MessageType,
    pub version: Seq<char>,
    pub msg_id: Seq<char>,
    pub date: Seq<char>,
}

impl View for Header {
    type V = HeaderView;

    open spec fn view(&self) -> HeaderView {
        HeaderView {
            username: self.username@,
            session: self.session@,
            msg_type: self.msg_type,
            version: self.version@,
            msg_id: self.msg_id@,
            date: self.date@,
        }
    }
}

/// The header that an object of these members is: a string under each of
/// `username`, `session`, `version`, `msg_id` and `date`, and a kind under
/// `msg_type`. Other members do not matter.
pub open spec fn header_of(members: Members) -> Option<HeaderView> {
    let username = text_field(members, "username"@);
    let session = text_field(members, "session"@);
    let msg_type = kind_field(members, "msg_type"@);
    let version = text_field(members, "version"@);
    let msg_id = text_field(members, "msg_id"@);
    let date = text_field(members, "date"@);
    if username is Some && session is Some && msg_type is Some && version is Some && msg_id
        is Some && date is Some {
        Some(
            HeaderView {
                username: username->0,
                session: session->0,
                msg_type: msg_type->0,
                version: version->0,
                msg_id: msg_id->0,
                date: date->0,
            },
        )
    } else {
        None
    }
}

impl Header {
    /// Reads a header from the members of its object.
    pub fn from_members(members: &Vec<(String, String)>) -> (r: Result<Header, JupyterApiError>)
        ensures
            r matches Ok(header) ==> header_of(members.deep_view()) == Some(header@),
            r matches Err(e) ==> e is JsonError && header_of(members.deep_view()) is None,
    {
        let username = text_member(members, "username")?;
        let session = text_member(members, "session")?;
        let msg_type = kind_member(members, "msg_type")?;
        let version = text_member(members, "version")?;
        let msg_id = text_member(members, "msg_id")?;
        let date = text_member(members, "date")?;
        Ok(Header { username, session, msg_type, version, msg_id, date })
    }
}

/// The header of the request that an inbound message answers.
#[derive(Debug, Clone, PartialEq)]
pub struct ParentHeader {
    pub username: String,
    pub session: String,
    pub msg_type: MessageType,
    pub version: String,
    /// The message id of the request.
    pub msg_id: String,
}

/// The mathematical value of a [`ParentHeader`].
pub struct ParentHeaderView {
    pub username: Seq<char>,
    pub session: Seq<char>,
    pub msg_type: MessageType,
    pub version: Seq<char>,
    pub msg_id: Seq<char>,
}

impl View for ParentHeader {
    type V = ParentHeaderView;

    open spec fn view(&self) -> ParentHeaderView {
        ParentHeaderView {
            username: self.username@,
            session: self.session@,
            msg_type: self.msg_type,
            version: self.version@,
            msg_id: self.msg_id@,
        }
    }
}

/// The parent header that an object of these members is: a string under
/// each of `username`, `session`, `version` and `msg_id`, and a kind under
/// `msg_type`.
pub open spec fn parent_header_of(members: Members) -> Option<ParentHeaderView> {
    let username = text_field(members, "username"@);
    let session = text_field(members, "session"@);
    let msg_type = kind_field(members, "msg_type"@);
    let version = text_field(members, "version"@);
    let msg_id = text_field(members, "msg_id"@);
    if username is Some && session is Some && msg_type is Some && version is Some && msg_id
        is Some {
        Some(
            ParentHeaderView {
                username: username->0,
                session: session->0,
                msg_type: msg_type->0,
                version: version->0,
                msg_id: msg_id->0,
            },
        )
    } else {
        None
    }
}

impl ParentHeader {
    /// Reads a parent header from the members of its object.
    pub fn from_members(members: &Vec<(String, String)>) -> (r: Result<
        ParentHeader,
        JupyterApiError,
    >)
        ensures
            r matches Ok(header) ==> parent_header_of(members.deep_view()) == Some(header@),
            r matches Err(e) ==> e is JsonError && parent_header_of(members.deep_view()) is None,
    {
        let username = text_member(members, "username")?;
        let session = text_member(members, "session")?;
        let msg_type = kind_member(members, "msg_type")?;
        let version = text_member(members, "version")?;
        let msg_id = text_member(members, "msg_id")?;
        Ok(ParentHeader { username, session, msg_type, version, msg_id })
    }
}

/// The metadata of an inbound message; nothing of it is read.
#[derive(Debug, Clone, PartialEq)]
pub struct Metadata {}

/// An inbound message. Its content stays JSON text until somebody asks for
/// it under a kind.
#[derive(Debug, Clone, PartialEq)]
pub struct KernelResponse {
    pub header: Header,
    pub msg_id: String,
    pub msg_type: MessageType,
    pub parent_header: ParentHeader,
    pub metadata: Metadata,
    /// The JSON text of the content, where there is one.
    pub content: Option<String>,
    /// The JSON text of each buffer.
    pub buffers: Vec<String>,
    pub channel: String,
}

/// The mathematical value of a [`KernelResponse`].
pub struct KernelResponseView {
    pub header: HeaderView,
    pub msg_id: Seq<char>,
    pub msg_type: MessageType,
    pub parent_header: ParentHeaderView,
    pub content: Option<Seq<char>>,
    pub buffers: Seq<Seq<char>>,
    pub channel: Seq<char>,
}

/// The characters of an optional text.
pub open spec fn optional_view(text: Option<String>) -> Option<Seq<char>> {
    match text {
        Some(s) => Some(s@),
        None => None,
    }
}

impl View for KernelResponse {
    type V = KernelResponseView;

    open spec fn view(&self) -> KernelResponseView {
        KernelResponseView {
            header: self.header@,
            msg_id: self.msg_id@,
            msg_type: self.msg_type,
            parent_header: self.parent_header@,
            content: optional_view(self.content),
            buffers: self.buffers.deep_view(),
            channel: self.channel@,
        }
    }
}

/// The header in the object under `key`.
pub open spec fn header_field(members: Members, key: Seq<char>) -> Option<HeaderView> {
    match object_field(members, key) {
        Some(inner) => header_of(inner),
        None => None,
    }
}

/// The parent header in the object under `key`.
pub open spec fn parent_header_field(
    members: Members,
    key: Seq<char>,
) -> Option<ParentHeaderView> {
    match object_field(members, key) {
        Some(inner) => parent_header_of(inner),
        None => None,
    }
}

/// The message that an envelope of these members is. It takes a header
/// under `header`, a string under `msg_id`, a kind under `msg_type`, a
/// parent header under `parent_header`, an object under `metadata`, an array
/// under `buffers` and a string under `channel`. The content is whatever
/// stands under `content`, unless that is missing or `null`.
pub open spec fn response_of(members: Members) -> Option<KernelResponseView> {
    let header = header_field(members, "header"@);
    let msg_id = text_field(members, "msg_id"@);
    let msg_type = kind_field(members, "msg_type"@);
    let parent_header = parent_header_field(members, "parent_header"@);
    let metadata = object_field(members, "metadata"@);
    let buffers = array_field(members, "buffers"@);
    let channel = text_field(members, "channel"@);
    if header is Some && msg_id is Some && msg_type is Some && parent_header is Some && metadata
        is Some && buffers is Some && channel is Some {
        Some(
            KernelResponseView {
                header: header->0,
                msg_id: msg_id->0,
                msg_type: msg_type->0,
                parent_header: parent_header->0,
                content: optional_field(members, "content"@),
                buffers: buffers->0,
                channel: channel->0,
            },
        )
    } else {
        None
    }
}

/// The message that a frame of this text is, or `None` where the text is
/// not the JSON text of an envelope.
pub open spec fn decoded(text: Seq<char>) -> Option<KernelResponseView> {
    match members_of(text) {
        Some(members) => response_of(members),
        None => None,
    }
}

impl KernelResponse {
    /// Reads a message from the members of its envelope.
    pub fn from_members(members: &Vec<(String, String)>) -> (r: Result<
        KernelResponse,
        JupyterApiError,
    >)
        ensures
            r matches Ok(message) ==> response_of(members.deep_view()) == Some(message@),
            r matches Err(e) ==> e is JsonError && response_of(members.deep_view()) is None,
    {
        let header_members = object_member(members, "header")?;
        let header = Header::from_members(&header_members)?;
        let msg_id = text_member(members, "msg_id")?;
        let msg_type = kind_member(members, "msg_type")?;
        let parent_members = object_member(members, "parent_header")?;
        let parent_header = ParentHeader::from_members(&parent_members)?;
        let _ = object_member(members, "metadata")?;
        let content = optional_member(members, "content");
        let buffers = array_member(members, "buffers")?;
        let channel = text_member(members, "channel")?;
        Ok(
            KernelResponse {
                header,
                msg_id,
                msg_type,
                parent_header,
                metadata: Metadata {},
                content,
                buffers,
                channel,
            },
        )
    }

    /// Decodes the text of one frame. A text that is not JSON, or not an
    /// envelope of a known kind, is a failure.
    pub fn decode(text: &str) -> (r: Result<KernelResponse, JupyterApiError>)
        ensures
            r matches Ok(message) ==> decoded(text@) == Some(message@),
            r matches Err(e) ==> e is JsonError && decoded(text@) is None,
    {
        match parse_node(text) {
            Ok(JsonNode::Object(members)) => KernelResponse::from_members(&members),
            Ok(_) => Err(malformed("envelope")),
            Err(e) => Err(JupyterApiError::JsonError(e)),
        }
    }
}

} // verus!
