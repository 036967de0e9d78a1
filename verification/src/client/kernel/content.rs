//! The content that each kind of message carries, decoded when somebody
//! asks for it.

use vstd::prelude::*;
use vstd::string::*;
use crate::client::error::JupyterApiError;
use crate::client::json::array_field;
use crate::client::json::array_member;
use crate::client::json::integer_field;
use crate::client::json::integer_member;
use crate::client::json::is_null;
use crate::client::json::malformed;
use crate::client::json::members_of;
use crate::client::json::object_field;
use crate::client::json::object_member;
use crate::client::json::read_members;
use crate::client::json::read_null;
use crate::client::json::read_texts;
use crate::client::json::text_field;
use crate::client::json::text_member;
use crate::client::json::texts_of;
use crate::client::json::Members;
use crate::client::kernel::types::KernelResponse;
use crate::client::kernel::types::MessageType;
use crate::client::types::data_of;
use crate::client::types::Data;
use crate::client::types::DataView;

verus! {

/// The rendered output in the object under `key`.
pub open spec fn data_field(members: Members, key: Seq<char>) -> Option<DataView> {
    match object_field(members, key) {
        Some(inner) => data_of(inner),
        None => None,
    }
}

/// The strings in the array under `key`.
pub open spec fn texts_field(members: Members, key: Seq<char>) -> Option<Seq<Seq<char>>> {
    match array_field(members, key) {
        Some(items) => texts_of(items),
        None => None,
    }
}

/// The rendered output in the object under `key`, or the failure where
/// there is none.
pub fn data_member(members: &Vec<(String, String)>, key: &str) -> (r: Result<Data, JupyterApiError>)
    ensures
        r matches Ok(data) ==> data_field(members.deep_view(), key@) == Some(data@),
        r matches Err(e) ==> e is JsonError && data_field(members.deep_view(), key@) is None,
{
    let inner = object_member(members, key)?;
    Data::from_members(&inner)
}

/// The strings in the array under `key`, or the failure where there is
/// none.
pub fn texts_member(members: &Vec<(String, String)>, key: &str) -> (r: Result<
    Vec<String>,
    JupyterApiError,
>)
    ensures
        r matches Ok(texts) ==> texts_field(members.deep_view(), key@) == Some(
            texts.deep_view(),
        ),
        r matches Err(e) ==> e is JsonError && texts_field(members.deep_view(), key@) is None,
{
    let items = array_member(members, key)?;
    match read_texts(&items) {
        Some(texts) => Ok(texts),
        None => Err(malformed(key)),
    }
}

/// The content of the echo of the submitted code.
#[derive(Debug, Clone, PartialEq)]
pub struct ExecuteInputContent {
    pub status: String,
    pub execution_count: i64,
}

/// The mathematical value of a [`ExecuteInputContent`].
pub struct ExecuteInputContentView {
    pub status: Seq<char>,
    pub execution_count: i64,
}

impl View for ExecuteInputContent {
    type V = ExecuteInputContentView;

    open spec fn view(&self) -> ExecuteInputContentView {
        ExecuteInputContentView {
            status: self.status@,
            execution_count: self.execution_count,
        }
    }
}

/// The content that an object of these members is: a string under `status`
/// and an integer under `execution_count`. Other members do not matter.
pub open spec fn execute_input_of(members: Members) -> Option<ExecuteInputContentView> {
    let status = text_field(members, "status"@);
    let execution_count = integer_field(members, "execution_count"@);
    if status is Some && execution_count is Some {
        Some(ExecuteInputContentView { status: status->0, execution_count: execution_count->0 })
    } else {
        None
    }
}

impl ExecuteInputContent {
    /// Reads the content from the members of its object.
    pub fn from_members(members: &Vec<(String, String)>) -> (r: Result<Self, JupyterApiError>)
        ensures
            r matches Ok(content) ==> execute_input_of(members.deep_view()) == Some(content@),
            r matches Err(e) ==> e is JsonError && execute_input_of(members.deep_view()) is None,
    {
        let status = text_member(members, "status")?;
        let execution_count = integer_member(members, "execution_count")?;
        Ok(ExecuteInputContent { status, execution_count })
    }
}

/// The content of the acknowledgment that an execution is complete.
#[derive(Debug, Clone, PartialEq)]
pub struct ExecuteReplyContent {
    pub status: String,
    pub execution_count: i64,
}

/// The mathematical value of a [`ExecuteReplyContent`].
pub struct ExecuteReplyContentView {
    pub status: Seq<char>,
    pub execution_count: i64,
}

impl View for ExecuteReplyContent {
    type V = ExecuteReplyContentView;

    open spec fn view(&self) -> ExecuteReplyContentView {
        ExecuteReplyContentView {
            status: self.status@,
            execution_count: self.execution_count,
        }
    }
}

/// The content that an object of these members is: a string under `status`
/// and an integer under `execution_count`. Other members do not matter.
pub open spec fn execute_reply_of(members: Members) -> Option<ExecuteReplyContentView> {
    let status = text_field(members, "status"@);
    let execution_count = integer_field(members, "execution_count"@);
    if status is Some && execution_count is Some {
        Some(ExecuteReplyContentView { status: status->0, execution_count: execution_count->0 })
    } else {
        None
    }
}

impl ExecuteReplyContent {
    /// Reads the content from the members of its object.
    pub fn from_members(members: &Vec<(String, String)>) -> (r: Result<Self, JupyterApiError>)
        ensures
            r matches Ok(content) ==> execute_reply_of(members.deep_view()) == Some(content@),
            r matches Err(e) ==> e is JsonError && execute_reply_of(members.deep_view()) is None,
    {
        let status = text_member(members, "status")?;
        let execution_count = integer_member(members, "execution_count")?;
        Ok(ExecuteReplyContent { status, execution_count })
    }
}

/// The content of the value of an execution.
#[derive(Debug, Clone, PartialEq)]
pub struct ExecuteResultContent {
    pub execution_count: i64,
    pub data: Data,
}

/// The mathematical value of a [`ExecuteResultContent`].
pub struct ExecuteResultContentView {
    pub execution_count: i64,
    pub data: DataView,
}

impl View for ExecuteResultContent {
    type V = ExecuteResultContentView;

    open spec fn view(&self) -> ExecuteResultContentView {
        ExecuteResultContentView {
            execution_count: self.execution_count,
            data: self.data@,
        }
    }
}

/// The content that an object of these members is: an integer under
/// `execution_count` and rendered output under `data`. Other members do not
/// matter.
pub open spec fn execute_result_of(members: Members) -> Option<ExecuteResultContentView> {
    let execution_count = integer_field(members, "execution_count"@);
    let data = data_field(members, "data"@);
    if execution_count is Some && data is Some {
        Some(ExecuteResultContentView { execution_count: execution_count->0, data: data->0 })
    } else {
        None
    }
}

impl ExecuteResultContent {
    /// Reads the content from the members of its object.
    pub fn from_members(members: &Vec<(String, String)>) -> (r: Result<Self, JupyterApiError>)
        ensures
            r matches Ok(content) ==> execute_result_of(members.deep_view()) == Some(content@),
            r matches Err(e) ==> e is JsonError && execute_result_of(members.deep_view()) is None,
    {
        let execution_count = integer_member(members, "execution_count")?;
        let data = data_member(members, "data")?;
        Ok(ExecuteResultContent { execution_count, data })
    }
}

/// The content of the state of the kernel.
#[derive(Debug, Clone, PartialEq)]
pub struct StatusContent {
    pub execution_state: String,
}

/// The mathematical value of a [`StatusContent`].
pub struct StatusContentView {
    pub execution_state: Seq<char>,
}

impl View for StatusContent {
    type V = StatusContentView;

    open spec fn view(&self) -> StatusContentView {
        StatusContentView {
            execution_state: self.execution_state@,
        }
    }
}

/// The content that an object of these members is: a string under
/// `execution_state`. Other members do not matter.
pub open spec fn status_of(members: Members) -> Option<StatusContentView> {
    let execution_state = text_field(members, "execution_state"@);
    if execution_state is Some {
        Some(StatusContentView { execution_state: execution_state->0 })
    } else {
        None
    }
}

impl StatusContent {
    /// Reads the content from the members of its object.
    pub fn from_members(members: &Vec<(String, String)>) -> (r: Result<Self, JupyterApiError>)
        ensures
            r matches Ok(content) ==> status_of(members.deep_view()) == Some(content@),
            r matches Err(e) ==> e is JsonError && status_of(members.deep_view()) is None,
    {
        let execution_state = text_member(members, "execution_state")?;
        Ok(StatusContent { execution_state })
    }
}

/// The content of a failed execution.
#[derive(Debug, Clone, PartialEq)]
pub struct ErrorContent {
    pub ename: String,
    pub evalue: String,
    pub traceback: Vec<String>,
}

/// The mathematical value of a [`ErrorContent`].
pub struct ErrorContentView {
    pub ename: Seq<char>,
    pub evalue: Seq<char>,
    pub traceback: Seq<Seq<char>>,
}

impl View for ErrorContent {
    type V = ErrorContentView;

    open spec fn view(&self) -> ErrorContentView {
        ErrorContentView {
            ename: self.ename@,
            evalue: self.evalue@,
            traceback: self.traceback.deep_view(),
        }
    }
}

/// The content that an object of these members is: a string under `ename`,
/// a string under `evalue` and an array of strings under `traceback`. Other
/// members do not matter.
pub open spec fn error_of(members: Members) -> Option<ErrorContentView> {
    let ename = text_field(members, "ename"@);
    let evalue = text_field(members, "evalue"@);
    let traceback = texts_field(members, "traceback"@);
    if ename is Some && evalue is Some && traceback is Some {
        Some(ErrorContentView { ename: ename->0, evalue: evalue->0, traceback: traceback->0 })
    } else {
        None
    }
}

impl ErrorContent {
    /// Reads the content from the members of its object.
    pub fn from_members(members: &Vec<(String, String)>) -> (r: Result<Self, JupyterApiError>)
        ensures
            r matches Ok(content) ==> error_of(members.deep_view()) == Some(content@),
            r matches Err(e) ==> e is JsonError && error_of(members.deep_view()) is None,
    {
        let ename = text_member(members, "ename")?;
        let evalue = text_member(members, "evalue")?;
        let traceback = texts_member(members, "traceback")?;
        Ok(ErrorContent { ename, evalue, traceback })
    }
}

/// The content of a fragment of textual output.
#[derive(Debug, Clone, PartialEq)]
pub struct StreamContent {
    pub name: String,
    pub text: String,
}

/// The mathematical value of a [`StreamContent`].
pub struct StreamContentView {
    pub name: Seq<char>,
    pub text: Seq<char>,
}

impl View for StreamContent {
    type V = StreamContentView;

    open spec fn view(&self) -> StreamContentView {
        StreamContentView {
            name: self.name@,
            text: self.text@,
        }
    }
}

/// The content that an object of these members is: a string under `name`
/// and a string under `text`. Other members do not matter.
pub open spec fn stream_of(members: Members) -> Option<StreamContentView> {
    let name = text_field(members, "name"@);
    let text = text_field(members, "text"@);
    if name is Some && text is Some {
        Some(StreamContentView { name: name->0, text: text->0 })
    } else {
        None
    }
}

impl StreamContent {
    /// Reads the content from the members of its object.
    pub fn from_members(members: &Vec<(String, String)>) -> (r: Result<Self, JupyterApiError>)
        ensures
            r matches Ok(content) ==> stream_of(members.deep_view()) == Some(content@),
            r matches Err(e) ==> e is JsonError && stream_of(members.deep_view()) is None,
    {
        let name = text_member(members, "name")?;
        let text = text_member(members, "text")?;
        Ok(StreamContent { name, text })
    }
}

/// The content of a rendered object that stands by itself.
#[derive(Debug, Clone, PartialEq)]
pub struct DisplayDataContent {
    pub data: Data,
}

/// The mathematical value of a [`DisplayDataContent`].
pub struct DisplayDataContentView {
    pub data: DataView,
}

impl View for DisplayDataContent {
    type V = DisplayDataContentView;

    open spec fn view(&self) -> DisplayDataContentView {
        DisplayDataContentView {
            data: self.data@,
        }
    }
}

/// The content that an object of these members is: rendered output under
/// `data`. Other members do not matter.
pub open spec fn display_data_of(members: Members) -> Option<DisplayDataContentView> {
    let data = data_field(members, "data"@);
    if data is Some {
        Some(DisplayDataContentView { data: data->0 })
    } else {
        None
    }
}

impl DisplayDataContent {
    /// Reads the content from the members of its object.
    pub fn from_members(members: &Vec<(String, String)>) -> (r: Result<Self, JupyterApiError>)
        ensures
            r matches Ok(content) ==> display_data_of(members.deep_view()) == Some(content@),
            r matches Err(e) ==> e is JsonError && display_data_of(members.deep_view()) is None,
    {
        let data = data_member(members, "data")?;
        Ok(DisplayDataContent { data })
    }
}

/// The content of a message, under the kind that the message declares.
#[derive(Debug, Clone, PartialEq)]
pub enum Content {
    ExecuteResultContent(ExecuteResultContent),
    StatusContent(StatusContent),
    ErrorContent(ErrorContent),
    ExecuteReplyContent(ExecuteReplyContent),
    ExecuteInputContent(ExecuteInputContent),
    StreamContent(StreamContent),
    DisplayDataContent(DisplayDataContent),
}

/// The mathematical value of a [`Content`].
pub enum ContentView {
    ExecuteResultContent(ExecuteResultContentView),
    StatusContent(StatusContentView),
    ErrorContent(ErrorContentView),
    ExecuteReplyContent(ExecuteReplyContentView),
    ExecuteInputContent(ExecuteInputContentView),
    StreamContent(StreamContentView),
    DisplayDataContent(DisplayDataContentView),
}

impl View for Content {
    type V = ContentView;

    open spec fn view(&self) -> ContentView {
        match self {
            Content::ExecuteResultContent(c) => ContentView::ExecuteResultContent(c@),
            Content::StatusContent(c) => ContentView::StatusContent(c@),
            Content::ErrorContent(c) => ContentView::ErrorContent(c@),
            Content::ExecuteReplyContent(c) => ContentView::ExecuteReplyContent(c@),
            Content::ExecuteInputContent(c) => ContentView::ExecuteInputContent(c@),
            Content::StreamContent(c) => ContentView::StreamContent(c@),
            Content::DisplayDataContent(c) => ContentView::DisplayDataContent(c@),
        }
    }
}

/// Why a content cannot be had.
pub enum ContentFault {
    /// The message declares another kind than the one asked for, or a kind
    /// without content.
    Kind,
    /// The content is not of the shape that the kind implies.
    Shape,
}

/// A content that may be missing, or the fault that keeps it from being
/// had.
pub type Lazy<V> = Result<Option<V>, ContentFault>;

/// Whether `r` is what `expected` asks for: the same content, or the
/// failure that stands for the fault. A fault of kind names the kind that
/// the message declares.
pub open spec fn content_result_is<C: View>(
    r: Result<Option<C>, JupyterApiError>,
    expected: Lazy<C::V>,
    declared: MessageType,
) -> bool {
    match expected {
        Ok(Some(v)) => r matches Ok(Some(c)) && c@ == v,
        Ok(None) => r matches Ok(None),
        Err(ContentFault::Kind) => r matches Err(JupyterApiError::InvalidMessageType(name))
            && name@ == declared.spec_name(),
        Err(ContentFault::Shape) => r matches Err(JupyterApiError::JsonError(_)),
    }
}

/// The content read as `shape` says, where there are members to read.
pub open spec fn shaped<V>(
    members: Lazy<Members>,
    shape: spec_fn(Members) -> Option<V>,
) -> Lazy<V> {
    match members {
        Err(fault) => Err(fault),
        Ok(None) => Ok(None),
        Ok(Some(m)) => match shape(m) {
            Some(v) => Ok(Some(v)),
            None => Err(ContentFault::Shape),
        },
    }
}

/// `content`, put under a variant.
pub open spec fn under<V>(
    content: Lazy<V>,
    variant: spec_fn(V) -> ContentView,
) -> Lazy<ContentView> {
    match content {
        Err(fault) => Err(fault),
        Ok(None) => Ok(None),
        Ok(Some(v)) => Ok(Some(variant(v))),
    }
}

impl KernelResponse {
    /// The members of the content, asked for under the kind `asked`: a
    /// fault of kind where the message declares another kind; nothing where
    /// it has no content or `null`; a fault of shape where the content is not
    /// an object.
    pub open spec fn spec_content_members(&self, asked: MessageType) -> Lazy<Members> {
        if self.msg_type != asked {
            Err(ContentFault::Kind)
        } else {
            match self.content {
                None => Ok(None),
                Some(raw) => if is_null(raw@) {
                    Ok(None)
                } else {
                    match members_of(raw@) {
                        Some(members) => Ok(Some(members)),
                        None => Err(ContentFault::Shape),
                    }
                },
            }
        }
    }

    fn content_members(&self, asked: MessageType) -> (r: Result<
        Option<Vec<(String, String)>>,
        JupyterApiError,
    >)
        ensures
            match self.spec_content_members(asked) {
                Ok(Some(v)) => r matches Ok(Some(members)) && members.deep_view() == v,
                Ok(None) => r matches Ok(None),
                Err(ContentFault::Kind) => r matches Err(JupyterApiError::InvalidMessageType(name))
                    && name@ == self.msg_type.spec_name(),
                Err(ContentFault::Shape) => r matches Err(JupyterApiError::JsonError(_)),
            },
    {
        if self.msg_type != asked {
            return Err(JupyterApiError::InvalidMessageType(String::from_str(self.msg_type.name())));
        }
        match &self.content {
            None => Ok(None),
            Some(raw) => {
                if read_null(raw.as_str()) {
                    Ok(None)
                } else {
                    match read_members(raw.as_str()) {
                        Some(members) => Ok(Some(members)),
                        None => Err(malformed("content")),
                    }
                }
            },
        }
    }

    /// What [`KernelResponse::as_execute_result_content`] returns.
    pub open spec fn spec_execute_result_content(&self) -> Lazy<ExecuteResultContentView> {
        shaped(self.spec_content_members(MessageType::ExecuteResult), |m| execute_result_of(m))
    }

    /// The content as that of kind `execute_result`.
    pub fn as_execute_result_content(&self) -> (r: Result<
        Option<ExecuteResultContent>,
        JupyterApiError,
    >)
        ensures
            content_result_is(r, self.spec_execute_result_content(), self.msg_type),
    {
        match self.content_members(MessageType::ExecuteResult)? {
            Some(members) => Ok(Some(ExecuteResultContent::from_members(&members)?)),
            None => Ok(None),
        }
    }

    /// What [`KernelResponse::as_status_content`] returns.
    pub open spec fn spec_status_content(&self) -> Lazy<StatusContentView> {
        shaped(self.spec_content_members(MessageType::Status), |m| status_of(m))
    }

    /// The content as that of kind `status`.
    pub fn as_status_content(&self) -> (r: Result<Option<StatusContent>, JupyterApiError>)
        ensures
            content_result_is(r, self.spec_status_content(), self.msg_type),
    {
        match self.content_members(MessageType::Status)? {
            Some(members) => Ok(Some(StatusContent::from_members(&members)?)),
            None => Ok(None),
        }
    }

    /// What [`KernelResponse::as_error_content`] returns.
    pub open spec fn spec_error_content(&self) -> Lazy<ErrorContentView> {
        shaped(self.spec_content_members(MessageType::Error), |m| error_of(m))
    }

    /// The content as that of kind `error`.
    pub fn as_error_content(&self) -> (r: Result<Option<ErrorContent>, JupyterApiError>)
        ensures
            content_result_is(r, self.spec_error_content(), self.msg_type),
    {
        match self.content_members(MessageType::Error)? {
            Some(members) => Ok(Some(ErrorContent::from_members(&members)?)),
            None => Ok(None),
        }
    }

    /// What [`KernelResponse::as_execute_reply_content`] returns.
    pub open spec fn spec_execute_reply_content(&self) -> Lazy<ExecuteReplyContentView> {
        shaped(self.spec_content_members(MessageType::ExecuteReply), |m| execute_reply_of(m))
    }

    /// The content as that of kind `execute_reply`.
    pub fn as_execute_reply_content(&self) -> (r: Result<
        Option<ExecuteReplyContent>,
        JupyterApiError,
    >)
        ensures
            content_result_is(r, self.spec_execute_reply_content(), self.msg_type),
    {
        match self.content_members(MessageType::ExecuteReply)? {
            Some(members) => Ok(Some(ExecuteReplyContent::from_members(&members)?)),
            None => Ok(None),
        }
    }

    /// What [`KernelResponse::as_execute_input_content`] returns.
    pub open spec fn spec_execute_input_content(&self) -> Lazy<ExecuteInputContentView> {
        shaped(self.spec_content_members(MessageType::ExecuteInput), |m| execute_input_of(m))
    }

    /// The content as that of kind `execute_input`.
    pub fn as_execute_input_content(&self) -> (r: Result<
        Option<ExecuteInputContent>,
        JupyterApiError,
    >)
        ensures
            content_result_is(r, self.spec_execute_input_content(), self.msg_type),
    {
        match self.content_members(MessageType::ExecuteInput)? {
            Some(members) => Ok(Some(ExecuteInputContent::from_members(&members)?)),
            None => Ok(None),
        }
    }

    /// What [`KernelResponse::as_stream_content`] returns.
    pub open spec fn spec_stream_content(&self) -> Lazy<StreamContentView> {
        shaped(self.spec_content_members(MessageType::Stream), |m| stream_of(m))
    }

    /// The content as that of kind `stream`.
    pub fn as_stream_content(&self) -> (r: Result<Option<StreamContent>, JupyterApiError>)
        ensures
            content_result_is(r, self.spec_stream_content(), self.msg_type),
    {
        match self.content_members(MessageType::Stream)? {
            Some(members) => Ok(Some(StreamContent::from_members(&members)?)),
            None => Ok(None),
        }
    }

    /// What [`KernelResponse::as_display_data_content`] returns.
    pub open spec fn spec_display_data_content(&self) -> Lazy<DisplayDataContentView> {
        shaped(self.spec_content_members(MessageType::DisplayData), |m| display_data_of(m))
    }

    /// The content as that of kind `display_data`.
    pub fn as_display_data_content(&self) -> (r: Result<
        Option<DisplayDataContent>,
        JupyterApiError,
    >)
        ensures
            content_result_is(r, self.spec_display_data_content(), self.msg_type),
    {
        match self.content_members(MessageType::DisplayData)? {
            Some(members) => Ok(Some(DisplayDataContent::from_members(&members)?)),
            None => Ok(None),
        }
    }

    /// The content under the kind that the message declares; a fault of
    /// kind where that kind has no content.
    pub open spec fn spec_content(&self) -> Lazy<ContentView> {
        match self.msg_type {
            MessageType::ExecuteResult => under(
                self.spec_execute_result_content(),
                |c| ContentView::ExecuteResultContent(c),
            ),
            MessageType::Status => under(
                self.spec_status_content(),
                |c| ContentView::StatusContent(c),
            ),
            MessageType::Error => under(
                self.spec_error_content(),
                |c| ContentView::ErrorContent(c),
            ),
            MessageType::ExecuteReply => under(
                self.spec_execute_reply_content(),
                |c| ContentView::ExecuteReplyContent(c),
            ),
            MessageType::ExecuteInput => under(
                self.spec_execute_input_content(),
                |c| ContentView::ExecuteInputContent(c),
            ),
            MessageType::Stream => under(
                self.spec_stream_content(),
                |c| ContentView::StreamContent(c),
            ),
            MessageType::DisplayData => under(
                self.spec_display_data_content(),
                |c| ContentView::DisplayDataContent(c),
            ),
            _ => Err(ContentFault::Kind),
        }
    }

    /// The content, decoded under the kind that the message declares.
    pub fn as_content(&self) -> (r: Result<Option<Content>, JupyterApiError>)
        ensures
            content_result_is(r, self.spec_content(), self.msg_type),
    {
        match self.msg_type {
            MessageType::ExecuteResult => match self.as_execute_result_content()? {
                Some(c) => Ok(Some(Content::ExecuteResultContent(c))),
                None => Ok(None),
            },
            MessageType::Status => match self.as_status_content()? {
                Some(c) => Ok(Some(Content::StatusContent(c))),
                None => Ok(None),
            },
            MessageType::Error => match self.as_error_content()? {
                Some(c) => Ok(Some(Content::ErrorContent(c))),
                None => Ok(None),
            },
            MessageType::ExecuteReply => match self.as_execute_reply_content()? {
                Some(c) => Ok(Some(Content::ExecuteReplyContent(c))),
                None => Ok(None),
            },
            MessageType::ExecuteInput => match self.as_execute_input_content()? {
                Some(c) => Ok(Some(Content::ExecuteInputContent(c))),
                None => Ok(None),
            },
            MessageType::Stream => match self.as_stream_content()? {
                Some(c) => Ok(Some(Content::StreamContent(c))),
                None => Ok(None),
            },
            MessageType::DisplayData => match self.as_display_data_content()? {
                Some(c) => Ok(Some(Content::DisplayDataContent(c))),
                None => Ok(None),
            },
            kind => Err(JupyterApiError::InvalidMessageType(String::from_str(kind.name()))),
        }
    }
}

} // verus!
