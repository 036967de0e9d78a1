//! The execution protocol: which messages answer a request, and when the
//! answer is complete.

pub mod content;
pub mod request;
pub mod session;
pub mod timeline;
pub mod trace;
pub mod types;

use vstd::prelude::*;
use vstd::string::*;
use crate::client::error::JupyterApiError;
use crate::client::kernel::session::opening;
use crate::client::kernel::session::opening_frames;
use crate::client::kernel::session::started;
use crate::client::kernel::session::Execution;
use crate::client::kernel::session::Frame;
use crate::client::kernel::types::request_json;
use crate::client::kernel::types::KernelCodeRequest;
use crate::client::kernel::types::KernelResponse;
use crate::client::kernel::types::MessageType;
use crate::client::parse_scheme;
use crate::client::url_scheme;

verus! {

/// The idle window, in milliseconds, that the default policy waits for a
/// successor of a relevant message.
pub const DEFAULT_WAIT_SUCCESSION_RESULT_MILLI_SEC: u64 = 100;

/// What a policy answers to a message that matters.
#[derive(Debug)]
pub enum WaitResultResponse {
    /// The message is the whole answer: stop at once.
    KernelResponse(KernelResponse),
    /// More may follow: wait this many milliseconds from now, in place of
    /// any wait that was pending.
    WaitSuccession(u64),
}

/// A policy that decides, message by message, whether enough has arrived to
/// answer the caller. Its state is known by its view, and both operations
/// are functions of that state.
pub trait WaitResult: View + Sized {
    /// The state after `message`, and the answer to it.
    spec fn spec_check(state: Self::V, message: KernelResponse) -> (
        Self::V,
        Option<WaitResultResponse>,
    );

    /// What is remembered once the idle window has passed: a single result,
    /// a sequence of results, both or neither.
    spec fn spec_latest_result(state: Self::V) -> (
        Option<KernelResponse>,
        Option<Seq<KernelResponse>>,
    );

    /// Takes one message in. `None` means that it does not matter.
    fn check(&mut self, message: KernelResponse) -> (r: Option<WaitResultResponse>)
        ensures
            (final(self)@, r) == Self::spec_check(old(self)@, message),
    ;

    /// Hands over what was remembered.
    fn latest_result(self) -> (r: (Option<KernelResponse>, Option<Vec<KernelResponse>>))
        ensures
            (r.0, sequence_of(r.1)) == Self::spec_latest_result(self@),
    ;
}

/// The elements of an optional vector.
pub open spec fn sequence_of(v: Option<Vec<KernelResponse>>) -> Option<Seq<KernelResponse>> {
    match v {
        Some(v) => Some(v@),
        None => None,
    }
}

/// The answer to one execution.
#[derive(Debug)]
pub enum CompositeKernelResponses {
    SingleResponse(KernelResponse),
    /// Several messages, in the order of their arrival.
    MultipleResponse(Vec<KernelResponse>),
}

/// The mathematical value of a [`CompositeKernelResponses`].
pub enum Outcome {
    Single(KernelResponse),
    Multiple(Seq<KernelResponse>),
}

impl View for CompositeKernelResponses {
    type V = Outcome;

    open spec fn view(&self) -> Outcome {
        match self {
            CompositeKernelResponses::SingleResponse(m) => Outcome::Single(*m),
            CompositeKernelResponses::MultipleResponse(ms) => Outcome::Multiple(ms@),
        }
    }
}

/// The answer made of what a policy remembered: the single result alone,
/// the sequence alone, or the sequence with the single result behind it.
/// `None` where it remembered nothing.
pub open spec fn outcome_of(
    latest: (Option<KernelResponse>, Option<Seq<KernelResponse>>),
) -> Option<Outcome> {
    match latest {
        (None, None) => None,
        (Some(single), None) => Some(Outcome::Single(single)),
        (None, Some(stream)) => Some(Outcome::Multiple(stream)),
        (Some(single), Some(stream)) => Some(Outcome::Multiple(stream.push(single))),
    }
}

/// Makes the answer of what a policy remembered, or fails with
/// `KernelResponseTimeout` where it remembered nothing.
pub fn compose(latest: (Option<KernelResponse>, Option<Vec<KernelResponse>>)) -> (r: Result<
    CompositeKernelResponses,
    JupyterApiError,
>)
    ensures
        match outcome_of((latest.0, sequence_of(latest.1))) {
            Some(outcome) => r matches Ok(answer) && answer@ == outcome,
            None => r matches Err(JupyterApiError::KernelResponseTimeout),
        },
{
    match latest {
        (None, None) => Err(JupyterApiError::KernelResponseTimeout),
        (Some(single), None) => Ok(CompositeKernelResponses::SingleResponse(single)),
        (None, Some(stream)) => Ok(CompositeKernelResponses::MultipleResponse(stream)),
        (Some(single), Some(stream)) => {
            let mut all = stream;
            all.push(single);
            Ok(CompositeKernelResponses::MultipleResponse(all))
        },
    }
}

/// What the default policy remembers.
pub struct AggregationState {
    /// The result to answer with: the latest execute-result, or else the
    /// first execute-reply.
    pub primary: Option<KernelResponse>,
    /// The stream fragments, in the order of their arrival.
    pub fragments: Seq<KernelResponse>,
    /// The idle window in milliseconds.
    pub window: u64,
}

/// How far an aggregation has come.
pub enum Phase {
    /// Nothing relevant was seen.
    Waiting,
    /// Something relevant was seen, and more may follow.
    Accumulating,
    /// The answer is made, and nothing more is taken in.
    Settled,
}

impl AggregationState {
    /// The state before any message.
    pub open spec fn initial(window: u64) -> AggregationState {
        AggregationState { primary: None, fragments: Seq::empty(), window }
    }

    /// How far the aggregation has come that remembers this.
    pub open spec fn phase(self) -> Phase {
        if self.primary is None && self.fragments.len() == 0 {
            Phase::Waiting
        } else {
            Phase::Accumulating
        }
    }
}

/// The default policy: it remembers a primary result and the stream
/// fragments, and stops at once on an error or on display data.
pub struct WaitResultAndDisplayData {
    inner_latest_result: Option<KernelResponse>,
    inner_stream_result: Vec<KernelResponse>,
    succession_millis: u64,
}

impl View for WaitResultAndDisplayData {
    type V = AggregationState;

    closed spec fn view(&self) -> AggregationState {
        AggregationState {
            primary: self.inner_latest_result,
            fragments: self.inner_stream_result@,
            window: self.succession_millis,
        }
    }
}

impl Default for WaitResultAndDisplayData {
    fn default() -> (r: Self)
        ensures
            r@ == AggregationState::initial(DEFAULT_WAIT_SUCCESSION_RESULT_MILLI_SEC),
    {
        Self {
            inner_latest_result: None,
            inner_stream_result: Vec::new(),
            succession_millis: DEFAULT_WAIT_SUCCESSION_RESULT_MILLI_SEC,
        }
    }
}

impl WaitResultAndDisplayData {
    /// A policy with an idle window of `succession_millis` milliseconds.
    pub fn with_window(succession_millis: u64) -> (r: Self)
        ensures
            r@ == AggregationState::initial(succession_millis),
    {
        Self {
            inner_latest_result: None,
            inner_stream_result: Vec::new(),
            succession_millis,
        }
    }
}

impl WaitResult for WaitResultAndDisplayData {
    open spec fn spec_check(state: AggregationState, message: KernelResponse) -> (
        AggregationState,
        Option<WaitResultResponse>,
    ) {
        match message.msg_type {
            MessageType::ExecuteResult => (
                AggregationState { primary: Some(message), ..state },
                Some(WaitResultResponse::WaitSuccession(state.window)),
            ),
            MessageType::Stream => (
                AggregationState { fragments: state.fragments.push(message), ..state },
                Some(WaitResultResponse::WaitSuccession(state.window)),
            ),
            MessageType::ExecuteReply => (
                if state.primary is None {
                    AggregationState { primary: Some(message), ..state }
                } else {
                    state
                },
                Some(WaitResultResponse::WaitSuccession(state.window)),
            ),
            MessageType::DisplayData | MessageType::Error => (
                state,
                Some(WaitResultResponse::KernelResponse(message)),
            ),
            _ => (state, None),
        }
    }

    open spec fn spec_latest_result(state: AggregationState) -> (
        Option<KernelResponse>,
        Option<Seq<KernelResponse>>,
    ) {
        if state.fragments.len() == 1 && (state.primary matches Some(p) ==> p.msg_type
            == MessageType::ExecuteReply) {
            (Some(state.fragments[0]), None)
        } else if state.fragments.len() == 0 {
            (state.primary, None)
        } else {
            (state.primary, Some(state.fragments))
        }
    }

    fn check(&mut self, message: KernelResponse) -> (r: Option<WaitResultResponse>) {
        match message.msg_type {
            MessageType::ExecuteResult => {
                self.inner_latest_result = Some(message);
                Some(WaitResultResponse::WaitSuccession(self.succession_millis))
            },
            MessageType::Stream => {
                self.inner_stream_result.push(message);
                Some(WaitResultResponse::WaitSuccession(self.succession_millis))
            },
            MessageType::ExecuteReply => {
                if self.inner_latest_result.is_none() {
                    self.inner_latest_result = Some(message);
                }
                Some(WaitResultResponse::WaitSuccession(self.succession_millis))
            },
            MessageType::DisplayData | MessageType::Error => Some(
                WaitResultResponse::KernelResponse(message),
            ),
            _ => None,
        }
    }

    fn latest_result(self) -> (r: (Option<KernelResponse>, Option<Vec<KernelResponse>>)) {
        let latest = self.inner_latest_result;
        let mut stream = self.inner_stream_result;
        if stream.len() == 1 {
            let reply_only = match &latest {
                Some(primary) => primary.msg_type == MessageType::ExecuteReply,
                None => true,
            };
            if reply_only {
                let fragment = stream.remove(0);
                return (Some(fragment), None);
            }
        }
        if stream.len() == 0 {
            (latest, None)
        } else {
            (latest, Some(stream))
        }
    }
}

/// The client for executions on one kernel.
pub struct KernelApiClient {
    url: String,
}

/// The address of the execution channel of the kernel `kernel_id` at
/// `host`.
pub open spec fn channels_url(host: Seq<char>, kernel_id: Seq<char>, secure: bool) -> Seq<char> {
    (if secure {
        "wss"@
    } else {
        "ws"@
    }) + "://"@ + host + "/api/kernels/"@ + kernel_id + "/channels"@
}

impl View for KernelApiClient {
    type V = Seq<char>;

    /// The address that the client connects to.
    closed spec fn view(&self) -> Seq<char> {
        self.url@
    }
}

impl KernelApiClient {
    /// The client for executions on the kernel `kernel_id` at the host
    /// `url_without_protocol`, over `wss` where `secure` and over `ws`
    /// otherwise.
    pub fn new(url_without_protocol: &str, kernel_id: &str, secure: bool) -> (r: Self)
        ensures
            r@ == channels_url(url_without_protocol@, kernel_id@, secure),
    {
        let mut url = String::from_str(if secure { "wss" } else { "ws" });
        url.append("://");
        url.append(url_without_protocol);
        url.append("/api/kernels/");
        url.append(kernel_id);
        url.append("/channels");
        Self { url }
    }

    /// The address that the client connects to.
    pub fn url(&self) -> (r: &str)
        ensures
            r@ == self@,
    {
        self.url.as_str()
    }

    /// Prepares the execution of `request` at `now` under the default
    /// policy: see [`KernelApiClient::begin`].
    pub fn run_code(
        &self,
        request: &KernelCodeRequest,
        now: u64,
        timeout_millis: Option<u64>,
    ) -> (r: Result<(Execution<WaitResultAndDisplayData>, Vec<Frame>), JupyterApiError>)
        ensures
            url_scheme(self@) is None ==> r matches Err(JupyterApiError::UrlParseError(_)),
            url_scheme(self@) is Some && request_json(request@) is None ==> r matches Err(
                JupyterApiError::JsonError(_),
            ),
            url_scheme(self@) is Some ==> (request_json(request@) matches Some(text) ==> (
            r matches Ok((execution, frames)) && execution@ == started(
                AggregationState::initial(DEFAULT_WAIT_SUCCESSION_RESULT_MILLI_SEC),
                request@.header.message_id,
                now,
                timeout_millis,
            ) && frames.deep_view() == opening(text))),
    {
        self.begin(request, WaitResultAndDisplayData::default(), now, timeout_millis)
    }

    /// Prepares the execution of `request` at `now` under the policy
    /// `wait_result`: the state of the execution, and the frames to send
    /// once the connection to [`KernelApiClient::url`] is open. It fails
    /// exactly where that address is no URL, or where the request cannot be
    /// written as JSON.
    pub fn begin<F: WaitResult>(
        &self,
        request: &KernelCodeRequest,
        wait_result: F,
        now: u64,
        timeout_millis: Option<u64>,
    ) -> (r: Result<(Execution<F>, Vec<Frame>), JupyterApiError>)
        ensures
            url_scheme(self@) is None ==> r matches Err(JupyterApiError::UrlParseError(_)),
            url_scheme(self@) is Some && request_json(request@) is None ==> r matches Err(
                JupyterApiError::JsonError(_),
            ),
            url_scheme(self@) is Some ==> (request_json(request@) matches Some(text) ==> (
            r matches Ok((execution, frames)) && execution@ == started(
                wait_result@,
                request@.header.message_id,
                now,
                timeout_millis,
            ) && frames.deep_view() == opening(text))),
    {
        match parse_scheme(self.url.as_str()) {
            Ok(_) => {},
            Err(e) => {
                return Err(JupyterApiError::UrlParseError(e));
            },
        }
        let text = request.to_json()?;
        let request_id = request.header().message_id().clone();
        Ok((Execution::start(wait_result, request_id, now, timeout_millis), opening_frames(text)))
    }
}

} // verus!
