//! One execution as a state machine: the caller owns the connection and
//! the clock, and hands in what happens; the machine says what to do next.
//!
//! Time is a count of milliseconds on a clock of the caller's choosing.

use vstd::prelude::*;
use crate::client::error::JupyterApiError;
use crate::client::kernel::compose;
use crate::client::kernel::outcome_of;
use crate::client::kernel::types::decoded;
use crate::client::kernel::types::KernelResponse;
use crate::client::kernel::CompositeKernelResponses;
use crate::client::kernel::Outcome;
use crate::client::kernel::WaitResult;
use crate::client::kernel::WaitResultResponse;
use crate::client::text::same_text;

verus! {

/// The overall deadline of an execution, in seconds, where the caller names
/// none.
pub const DEFAULT_TIMEOUT_SEC: u64 = 120;

/// A frame of the duplex connection.
#[derive(Debug, Clone, PartialEq)]
pub enum Frame {
    /// A data frame: the JSON text of one message.
    Text(String),
    Binary(Vec<u8>),
    /// A liveness probe.
    Ping(Vec<u8>),
    /// The reply to a liveness probe.
    Pong(Vec<u8>),
    Close,
    /// Any other frame.
    Other,
}

/// The mathematical value of a [`Frame`].
pub enum FrameView {
    Text(Seq<char>),
    Binary(Seq<u8>),
    Ping(Seq<u8>),
    Pong(Seq<u8>),
    Close,
    Other,
}

impl DeepView for Frame {
    type V = FrameView;

    open spec fn deep_view(&self) -> FrameView {
        self@
    }
}

impl View for Frame {
    type V = FrameView;

    open spec fn view(&self) -> FrameView {
        match self {
            Frame::Text(text) => FrameView::Text(text@),
            Frame::Binary(body) => FrameView::Binary(body@),
            Frame::Ping(body) => FrameView::Ping(body@),
            Frame::Pong(body) => FrameView::Pong(body@),
            Frame::Close => FrameView::Close,
            Frame::Other => FrameView::Other,
        }
    }
}

/// The frames that open an execution, in the order to send them: a
/// liveness probe with the body `ping`, without which the server routes no
/// message to the connection, then the request.
pub open spec fn opening(request: Seq<char>) -> Seq<FrameView> {
    seq![FrameView::Ping(seq![112u8, 105u8, 110u8, 103u8]), FrameView::Text(request)]
}

/// Makes the frames that open an execution; `request` is the text of the
/// request.
pub fn opening_frames(request: String) -> (r: Vec<Frame>)
    ensures
        r.deep_view() == opening(request@),
{
    let mut probe: Vec<u8> = Vec::new();
    probe.push(112u8);
    probe.push(105u8);
    probe.push(110u8);
    probe.push(103u8);
    let mut frames: Vec<Frame> = Vec::new();
    frames.push(Frame::Ping(probe));
    frames.push(Frame::Text(request));
    assert(frames.deep_view() =~= opening(request@)) by {
        assert(frames[0]@ == FrameView::Ping(seq![112u8, 105u8, 110u8, 103u8])) by {
            assert(probe@ =~= seq![112u8, 105u8, 110u8, 103u8]);
        }
        assert(frames.deep_view()[0] == frames[0]@);
        assert(frames.deep_view()[1] == frames[1]@);
    }
    frames
}

/// An execution under way: the policy that aggregates its messages, the
/// message id of its request, and its two timers.
pub struct Execution<F> {
    policy: F,
    request_id: String,
    deadline_at: u64,
    settle_at: Option<u64>,
}

/// The mathematical value of a [`Execution`].
pub struct ExecutionView<S> {
    /// The state of the policy.
    pub policy: S,
    /// The message id of the request; only answers to it are taken in.
    pub request_id: Seq<char>,
    /// When the overall deadline passes.
    pub deadline_at: u64,
    /// When the idle window passes; `None` while it is not armed.
    pub settle_at: Option<u64>,
}

impl<F: WaitResult> View for Execution<F> {
    type V = ExecutionView<F::V>;

    closed spec fn view(&self) -> ExecutionView<F::V> {
        ExecutionView {
            policy: self.policy@,
            request_id: self.request_id@,
            deadline_at: self.deadline_at,
            settle_at: self.settle_at,
        }
    }
}

/// How an execution fails by itself.
pub enum Failure {
    /// The overall deadline passed.
    Timeout,
    /// The idle window passed with nothing to answer with.
    NoResponse,
    /// The server closed the channel.
    ConnectionClosed,
    /// A data frame was not a message.
    Decode,
}

/// What follows an event.
pub enum Progress<F> {
    /// The execution goes on; `reply` is a frame to send first.
    Pending { execution: Execution<F>, reply: Option<Frame> },
    /// The execution is over and the connection is to be closed.
    Finished(Result<CompositeKernelResponses, JupyterApiError>),
}

/// The mathematical value of a [`Progress`].
pub enum ProgressView<S> {
    Pending { execution: ExecutionView<S>, reply: Option<FrameView> },
    Answered(Outcome),
    Failed(Failure),
}

/// The variant of `JupyterApiError` that reports `failure`.
pub open spec fn reports(error: JupyterApiError, failure: Failure) -> bool {
    match failure {
        Failure::Timeout => error is KernelMessageTimeout,
        Failure::NoResponse => error is KernelResponseTimeout,
        Failure::ConnectionClosed => error is KernelConnectionClosed,
        Failure::Decode => error is JsonError,
    }
}

/// Whether `progress` is what `expected` says.
pub open spec fn progress_is<F: WaitResult>(
    progress: Progress<F>,
    expected: ProgressView<F::V>,
) -> bool {
    match expected {
        ProgressView::Pending { execution, reply } => progress matches Progress::Pending {
            execution: e,
            reply: r,
        } && e@ == execution && match reply {
            Some(frame) => r matches Some(f) && f@ == frame,
            None => r is None,
        },
        ProgressView::Answered(outcome) => progress matches Progress::Finished(Ok(answer))
            && answer@ == outcome,
        ProgressView::Failed(failure) => progress matches Progress::Finished(Err(error))
            && reports(error, failure),
    }
}

/// The time `millis` after `now`, or the end of time where that is beyond
/// it.
pub open spec fn after(now: u64, millis: u64) -> u64 {
    now.saturating_add(millis)
}

/// The overall deadline in milliseconds: the caller's, or the default.
pub open spec fn deadline_millis(timeout_millis: Option<u64>) -> u64 {
    match timeout_millis {
        Some(millis) => millis,
        None => (DEFAULT_TIMEOUT_SEC * 1000) as u64,
    }
}

/// An execution that starts at `now`: the deadline set, the idle window not
/// armed.
pub open spec fn started<S>(
    policy: S,
    request_id: Seq<char>,
    now: u64,
    timeout_millis: Option<u64>,
) -> ExecutionView<S> {
    ExecutionView {
        policy,
        request_id,
        deadline_at: after(now, deadline_millis(timeout_millis)),
        settle_at: None,
    }
}

/// What follows a decoded message at `now`. A message that does not answer
/// the request changes nothing. Otherwise the policy takes it in: where it
/// ignores the message, nothing else changes; where it asks for an idle
/// window, that window starts at `now` in place of any earlier one; where
/// it takes the message for the answer, the execution is over.
pub open spec fn after_message<F: WaitResult>(
    state: ExecutionView<F::V>,
    now: u64,
    message: KernelResponse,
) -> ProgressView<F::V> {
    if message.parent_header.msg_id@ != state.request_id {
        ProgressView::Pending { execution: state, reply: None }
    } else {
        let (policy, answer) = F::spec_check(state.policy, message);
        match answer {
            None => ProgressView::Pending {
                execution: ExecutionView { policy, ..state },
                reply: None,
            },
            Some(WaitResultResponse::WaitSuccession(millis)) => ProgressView::Pending {
                execution: ExecutionView { policy, settle_at: Some(after(now, millis)), ..state },
                reply: None,
            },
            Some(WaitResultResponse::KernelResponse(single)) => ProgressView::Answered(
                Outcome::Single(single),
            ),
        }
    }
}

/// What follows a frame that is not a data frame: a probe is answered with
/// its own body, a close frame ends the execution, and any other frame
/// changes nothing.
pub open spec fn after_control_frame<S>(state: ExecutionView<S>, frame: FrameView) -> ProgressView<
    S,
> {
    match frame {
        FrameView::Ping(body) => ProgressView::Pending {
            execution: state,
            reply: Some(FrameView::Pong(body)),
        },
        FrameView::Close => ProgressView::Failed(Failure::ConnectionClosed),
        _ => ProgressView::Pending { execution: state, reply: None },
    }
}

/// Whether the idle window is the timer to serve at `now`: it has passed,
/// and the deadline has not, or passed later.
pub open spec fn settle_due<S>(state: ExecutionView<S>, now: u64) -> bool {
    state.settle_at matches Some(at) && at <= now && (now < state.deadline_at || at
        < state.deadline_at)
}

/// What follows a look at the clock. The timer that passed first is
/// served, the deadline where both passed together: the deadline ends the
/// execution with a timeout; the idle window ends it with what the policy
/// remembers, or with no response where that is nothing.
pub open spec fn after_tick<F: WaitResult>(state: ExecutionView<F::V>, now: u64) -> ProgressView<
    F::V,
> {
    if settle_due(state, now) {
        match outcome_of(F::spec_latest_result(state.policy)) {
            Some(outcome) => ProgressView::Answered(outcome),
            None => ProgressView::Failed(Failure::NoResponse),
        }
    } else if state.deadline_at <= now {
        ProgressView::Failed(Failure::Timeout)
    } else {
        ProgressView::Pending { execution: state, reply: None }
    }
}

/// The milliseconds from `now` until the next timer passes; 0 where one
/// has passed.
pub open spec fn until_next_timer<S>(state: ExecutionView<S>, now: u64) -> u64 {
    let next = match state.settle_at {
        Some(at) if at < state.deadline_at => at,
        _ => state.deadline_at,
    };
    if next <= now {
        0
    } else {
        (next - now) as u64
    }
}

impl<F: WaitResult> Execution<F> {
    /// Starts an execution at `now` for the request with the message id
    /// `request_id`.
    pub fn start(policy: F, request_id: String, now: u64, timeout_millis: Option<u64>) -> (r:
        Self)
        ensures
            r@ == started(policy@, request_id@, now, timeout_millis),
    {
        let millis = match timeout_millis {
            Some(millis) => millis,
            None => DEFAULT_TIMEOUT_SEC * 1000,
        };
        Execution { policy, request_id, deadline_at: now.saturating_add(millis), settle_at: None }
    }

    /// The message id of the request.
    pub fn request_id(&self) -> (r: &str)
        ensures
            r@ == self@.request_id,
    {
        self.request_id.as_str()
    }

    /// When the overall deadline passes.
    pub fn deadline_at(&self) -> (r: u64)
        ensures
            r == self@.deadline_at,
    {
        self.deadline_at
    }

    /// When the idle window passes, while it is armed.
    pub fn settle_at(&self) -> (r: Option<u64>)
        ensures
            r == self@.settle_at,
    {
        self.settle_at
    }

    /// How long the caller may wait for a frame before it looks at the
    /// clock again.
    pub fn wait_millis(&self, now: u64) -> (r: u64)
        ensures
            r == until_next_timer(self@, now),
    {
        let next = match self.settle_at {
            Some(at) if at < self.deadline_at => at,
            _ => self.deadline_at,
        };
        if next <= now {
            0
        } else {
            next - now
        }
    }

    /// Serves the timers at `now`.
    pub fn on_tick(self, now: u64) -> (r: Progress<F>)
        ensures
            progress_is(r, after_tick::<F>(self@, now)),
    {
        let settle_due = match self.settle_at {
            Some(at) => at <= now && (now < self.deadline_at || at < self.deadline_at),
            None => false,
        };
        if settle_due {
            Progress::Finished(compose(self.policy.latest_result()))
        } else if self.deadline_at <= now {
            Progress::Finished(Err(JupyterApiError::KernelMessageTimeout))
        } else {
            Progress::Pending { execution: self, reply: None }
        }
    }

    /// Takes in a decoded message at `now`.
    pub fn on_message(self, now: u64, message: KernelResponse) -> (r: Progress<F>)
        ensures
            progress_is(r, after_message::<F>(self@, now, message)),
    {
        let mut execution = self;
        if !same_text(message.parent_header.msg_id.as_str(), execution.request_id.as_str()) {
            return Progress::Pending { execution, reply: None };
        }
        match execution.policy.check(message) {
            None => Progress::Pending { execution, reply: None },
            Some(WaitResultResponse::WaitSuccession(millis)) => {
                execution.settle_at = Some(now.saturating_add(millis));
                Progress::Pending { execution, reply: None }
            },
            Some(WaitResultResponse::KernelResponse(single)) => Progress::Finished(
                Ok(CompositeKernelResponses::SingleResponse(single)),
            ),
        }
    }

    /// Ends the execution because a frame could not be received; `detail`
    /// says why.
    pub fn on_receive_error(self, detail: String) -> (r: Progress<F>)
        ensures
            r matches Progress::Finished(Err(JupyterApiError::KernelMessageError(d))) && d
                == detail,
    {
        Progress::Finished(Err(JupyterApiError::KernelMessageError(detail)))
    }

    /// Takes in a frame at `now`. The text of a data frame is decoded: where
    /// it is no message the execution fails, and otherwise the message is
    /// taken in as [`Execution::on_message`] does.
    pub fn on_frame(self, now: u64, frame: Frame) -> (r: Progress<F>)
        ensures
            match frame {
                Frame::Text(text) => match decoded(text@) {
                    Some(view) => exists|message: KernelResponse|
                        message@ == view && #[trigger] progress_is(
                            r,
                            after_message::<F>(self@, now, message),
                        ),
                    None => progress_is(r, ProgressView::<F::V>::Failed(Failure::Decode)),
                },
                _ => progress_is(r, after_control_frame(self@, frame@)),
            },
    {
        match frame {
            Frame::Text(text) => match KernelResponse::decode(text.as_str()) {
                Ok(message) => {
                    let r = self.on_message(now, message);
                    assert(progress_is(r, after_message::<F>(self@, now, message)));
                    r
                },
                Err(e) => Progress::Finished(Err(e)),
            },
            Frame::Ping(body) => Progress::Pending {
                execution: self,
                reply: Some(Frame::Pong(body)),
            },
            Frame::Close => Progress::Finished(Err(JupyterApiError::KernelConnectionClosed)),
            _ => Progress::Pending { execution: self, reply: None },
        }
    }
}

} // verus!
