//! What an execution under the default policy comes to over time.

use vstd::prelude::*;
use crate::client::kernel::session::after;
use crate::client::kernel::session::after_message;
use crate::client::kernel::session::after_tick;
use crate::client::kernel::session::settle_due;
use crate::client::kernel::session::started;
use crate::client::kernel::session::ExecutionView;
use crate::client::kernel::session::Failure;
use crate::client::kernel::session::ProgressView;
use crate::client::kernel::trace::answer;
use crate::client::kernel::trace::feed;
use crate::client::kernel::trace::is_quiet;
use crate::client::kernel::trace::is_relevant;
use crate::client::kernel::trace::is_terminal;
use crate::client::kernel::trace::lemma_feed_last;
use crate::client::kernel::trace::lemma_no_response_only_while_waiting;
use crate::client::kernel::trace::lemma_settle_is_latest_result;
use crate::client::kernel::trace::lemma_single_execute_result;
use crate::client::kernel::trace::settle;
use crate::client::kernel::trace::Trace;
use crate::client::kernel::types::KernelResponse;
use crate::client::kernel::types::MessageType;
use crate::client::kernel::AggregationState;
use crate::client::kernel::Outcome;
use crate::client::kernel::WaitResult;
use crate::client::kernel::WaitResultAndDisplayData;

verus! {

/// Something that happens to an execution.
pub enum Occurrence {
    /// The caller looks at the clock.
    Tick,
    /// A message arrives.
    Message(KernelResponse),
}

/// An occurrence and the time at which it happens.
pub struct Moment {
    pub at: u64,
    pub what: Occurrence,
}

/// What one moment makes of an execution under the default policy.
pub open spec fn step(state: ExecutionView<AggregationState>, moment: Moment) -> ProgressView<
    AggregationState,
> {
    match moment.what {
        Occurrence::Tick => after_tick::<WaitResultAndDisplayData>(state, moment.at),
        Occurrence::Message(message) => after_message::<WaitResultAndDisplayData>(
            state,
            moment.at,
            message,
        ),
    }
}

/// What `moments`, one after the other, make of an execution under the
/// default policy; nothing happens to an execution that is over.
pub open spec fn run(state: ExecutionView<AggregationState>, moments: Seq<Moment>) -> ProgressView<
    AggregationState,
>
    decreases moments.len(),
{
    if moments.len() == 0 {
        ProgressView::Pending { execution: state, reply: None }
    } else {
        match step(state, moments[0]) {
            ProgressView::Pending { execution, .. } => run(execution, moments.drop_first()),
            over => over,
        }
    }
}

/// Whether `message` is one that an execution in `state` takes in and the
/// default policy does not ignore.
pub open spec fn matters(state: ExecutionView<AggregationState>, message: KernelResponse) -> bool {
    message.parent_header.msg_id@ == state.request_id && is_relevant(message.msg_type)
}

/// While the idle window is armed, the policy remembers something.
pub open spec fn armed_with_something(state: ExecutionView<AggregationState>) -> bool {
    state.settle_at is Some ==> state.policy.phase() is Accumulating
}

/// Whether the caller looks at the clock at or after `deadline` at one of
/// these moments.
pub open spec fn has_late_tick(deadline: u64, moments: Seq<Moment>) -> bool {
    exists|i: int|
        0 <= i < moments.len() && #[trigger] moments[i].what is Tick && deadline <= moments[i].at
}

/// A look at the clock at or after the deadline that is not the first
/// moment is among the moments behind the first; and where there is none
/// among them all, there is none behind the first.
proof fn lemma_late_tick_behind_first(deadline: u64, moments: Seq<Moment>)
    requires
        moments.len() > 0,
    ensures
        has_late_tick(deadline, moments) && !(moments[0].what is Tick && deadline
            <= moments[0].at) ==> has_late_tick(deadline, moments.drop_first()),
        !has_late_tick(deadline, moments) ==> !has_late_tick(deadline, moments.drop_first()),
{
    let rest = moments.drop_first();
    if has_late_tick(deadline, moments) && !(moments[0].what is Tick && deadline
        <= moments[0].at) {
        let i = choose|i: int|
            0 <= i < moments.len() && #[trigger] moments[i].what is Tick && deadline
                <= moments[i].at;
        assert(rest[i - 1] == moments[i]);
    }
    if has_late_tick(deadline, rest) {
        let i = choose|i: int|
            0 <= i < rest.len() && #[trigger] rest[i].what is Tick && deadline <= rest[i].at;
        assert(moments[i + 1] == rest[i]);
    }
}

/// As long as no message that matters arrives, an execution whose idle
/// window is not armed stays as it is until the caller looks at the clock at
/// or after the deadline, and then fails with a timeout.
pub proof fn lemma_timeout_without_relevant_message(
    state: ExecutionView<AggregationState>,
    moments: Seq<Moment>,
)
    requires
        state.settle_at is None,
        forall|i: int|
            0 <= i < moments.len() ==> (#[trigger] moments[i].what matches Occurrence::Message(m)
                ==> !matters(state, m)),
    ensures
        run(state, moments) == if has_late_tick(state.deadline_at, moments) {
            ProgressView::<AggregationState>::Failed(Failure::Timeout)
        } else {
            ProgressView::Pending { execution: state, reply: None }
        },
    decreases moments.len(),
{
    if moments.len() > 0 {
        let rest = moments.drop_first();
        assert forall|i: int| 0 <= i < rest.len() implies (#[trigger] rest[i].what matches
        Occurrence::Message(m) ==> !matters(state, m)) by {
            assert(rest[i] == moments[i + 1]);
        }
        lemma_timeout_without_relevant_message(state, rest);
        lemma_late_tick_behind_first(state.deadline_at, moments);
        match moments[0].what {
            Occurrence::Tick => {},
            Occurrence::Message(m) => {
                lemma_no_response_only_while_waiting(state.policy, m);
            },
        }
    }
}

/// An execution that starts has its idle window unarmed; whatever happens
/// to an execution under the default policy, its idle window is armed only
/// while the policy remembers something, so that it never ends with no
/// response: once a message that matters arrived, the idle window ends the
/// execution with an answer.
pub proof fn lemma_idle_window_answers(
    state: ExecutionView<AggregationState>,
    moments: Seq<Moment>,
)
    requires
        armed_with_something(state),
    ensures
        run(state, moments) != ProgressView::<AggregationState>::Failed(Failure::NoResponse),
        run(state, moments) matches ProgressView::Pending { execution, .. }
            ==> armed_with_something(execution),
    decreases moments.len(),
{
    if moments.len() > 0 {
        match moments[0].what {
            Occurrence::Tick => {
                lemma_settle_is_latest_result(state.policy);
                lemma_no_response_only_while_waiting(state.policy, arbitrary());
            },
            Occurrence::Message(m) => {
                lemma_no_response_only_while_waiting(state.policy, m);
            },
        }
        match step(state, moments[0]) {
            ProgressView::Pending { execution, .. } => {
                lemma_idle_window_answers(execution, moments.drop_first());
            },
            _ => {},
        }
    }
}

/// The execution in `state` once the policy has taken in `message` at the
/// time `at` and asked for its idle window.
pub open spec fn armed(
    state: ExecutionView<AggregationState>,
    at: u64,
    message: KernelResponse,
) -> ExecutionView<AggregationState> {
    ExecutionView {
        policy: WaitResultAndDisplayData::spec_check(state.policy, message).0,
        settle_at: Some(after(at, state.policy.window)),
        ..state
    }
}

/// A message that matters and is no answer by itself arms the idle window
/// for the policy's window from its arrival. Until that window or the
/// deadline passes, a look at the clock changes nothing; once the window has
/// passed, and before the deadline or ahead of it, the look ends the
/// execution with what [`settle`] says of all that was remembered.
pub proof fn lemma_answer_waits_for_idle_window(
    state: ExecutionView<AggregationState>,
    at: u64,
    message: KernelResponse,
    now: u64,
)
    requires
        matters(state, message),
        !is_terminal(message.msg_type),
    ensures
        after_message::<WaitResultAndDisplayData>(state, at, message) == (ProgressView::Pending {
            execution: armed(state, at, message),
            reply: None,
        }),
        settle(armed(state, at, message).policy) is Some,
        now < after(at, state.policy.window) && now < state.deadline_at ==> after_tick::<
            WaitResultAndDisplayData,
        >(armed(state, at, message), now) == (ProgressView::Pending {
            execution: armed(state, at, message),
            reply: None,
        }),
        settle_due(armed(state, at, message), now) ==> after_tick::<WaitResultAndDisplayData>(
            armed(state, at, message),
            now,
        ) == ProgressView::<AggregationState>::Answered(
            settle(armed(state, at, message).policy)->0,
        ),
{
    lemma_no_response_only_while_waiting(state.policy, message);
    let next = WaitResultAndDisplayData::spec_check(state.policy, message).0;
    lemma_settle_is_latest_result(next);
    lemma_no_response_only_while_waiting(next, message);
}

/// Messages that arrive one after the other, each at its time.
pub open spec fn arrivals(times: Seq<u64>, messages: Seq<KernelResponse>) -> Seq<Moment>
    recommends
        times.len() == messages.len(),
{
    Seq::new(
        messages.len(),
        |i: int| Moment { at: times[i], what: Occurrence::Message(messages[i]) },
    )
}

/// When the idle window passes after these arrivals: the policy's window
/// after the last message that the policy does not ignore, or `settle_at`
/// where it ignores them all.
pub open spec fn rearmed(
    settle_at: Option<u64>,
    window: u64,
    times: Seq<u64>,
    messages: Seq<KernelResponse>,
) -> Option<u64>
    recommends
        times.len() == messages.len(),
    decreases messages.len(),
{
    if messages.len() == 0 {
        settle_at
    } else if is_relevant(messages.last().msg_type) {
        Some(after(times[messages.len() - 1], window))
    } else {
        rearmed(settle_at, window, times.drop_last(), messages.drop_last())
    }
}

/// Running two sequences of moments one after the other is running the
/// second from where the first left the execution, unless the first ended
/// it.
pub proof fn lemma_run_concat(
    state: ExecutionView<AggregationState>,
    first: Seq<Moment>,
    second: Seq<Moment>,
)
    ensures
        run(state, first + second) == match run(state, first) {
            ProgressView::Pending { execution, .. } => run(execution, second),
            over => over,
        },
    decreases first.len(),
{
    if first.len() == 0 {
        assert(first + second =~= second);
    } else {
        assert((first + second)[0] == first[0]);
        assert((first + second).drop_first() =~= first.drop_first() + second);
        match step(state, first[0]) {
            ProgressView::Pending { execution, .. } => {
                lemma_run_concat(execution, first.drop_first(), second);
            },
            _ => {},
        }
    }
}

/// Whether each of `messages` answers the request with the message id
/// `request_id`.
pub open spec fn all_answer(messages: Seq<KernelResponse>, request_id: Seq<char>) -> bool {
    forall|i: int|
        0 <= i < messages.len() ==> (#[trigger] messages[i]).parent_header.msg_id@ == request_id
}

/// Running moments with one more behind them is running the moments and
/// then, where the execution still goes on, taking that one step.
pub proof fn lemma_run_last(
    state: ExecutionView<AggregationState>,
    moments: Seq<Moment>,
    last: Moment,
)
    ensures
        run(state, moments.push(last)) == match run(state, moments) {
            ProgressView::Pending { execution, .. } => match step(execution, last) {
                ProgressView::Pending { execution: next, .. } => ProgressView::Pending {
                    execution: next,
                    reply: None,
                },
                over => over,
            },
            over => over,
        },
{
    let one = seq![last];
    assert(moments.push(last) =~= moments + one);
    lemma_run_concat(state, moments, one);
    assert(one.drop_first() =~= Seq::<Moment>::empty());
    match run(state, moments) {
        ProgressView::Pending { execution, .. } => {
            match step(execution, one[0]) {
                ProgressView::Pending { execution: next, .. } => {
                    assert(run(next, one.drop_first()) == (ProgressView::Pending {
                        execution: next,
                        reply: None,
                    }));
                },
                _ => {},
            }
        },
        _ => {},
    }
}

/// An execution that takes in answers to its request, and is not asked for
/// the time in between, does with them what [`feed`] says: it ends with the
/// first message that is an answer by itself, and otherwise goes on with
/// what the policy remembers of them all, its idle window armed as
/// [`rearmed`] says and its deadline as it was.
pub proof fn lemma_run_follows_feed(
    state: ExecutionView<AggregationState>,
    times: Seq<u64>,
    messages: Seq<KernelResponse>,
)
    requires
        times.len() == messages.len(),
        all_answer(messages, state.request_id),
    ensures
        run(state, arrivals(times, messages)) == match feed(state.policy, messages) {
            Trace::Closed(message) => ProgressView::Answered(Outcome::Single(message)),
            Trace::Open(end) => ProgressView::Pending {
                execution: ExecutionView {
                    policy: end,
                    settle_at: rearmed(state.settle_at, state.policy.window, times, messages),
                    ..state
                },
                reply: None,
            },
        },
        feed(state.policy, messages) matches Trace::Open(end) ==> end.window
            == state.policy.window,
    decreases messages.len(),
{
    if messages.len() > 0 {
        let n = messages.len() - 1;
        let earlier = messages.drop_last();
        let moment = Moment { at: times[n], what: Occurrence::Message(messages[n]) };
        assert(arrivals(times, messages) =~= arrivals(times.drop_last(), earlier).push(moment));
        assert(all_answer(earlier, state.request_id)) by {
            assert forall|i: int| 0 <= i < earlier.len() implies (
            #[trigger] earlier[i]).parent_header.msg_id@ == state.request_id by {
                assert(earlier[i] == messages[i]);
            }
        }
        lemma_run_follows_feed(state, times.drop_last(), earlier);
        lemma_feed_last(state.policy, messages);
        lemma_run_last(state, arrivals(times.drop_last(), earlier), moment);
        match feed(state.policy, earlier) {
            Trace::Open(middle) => {
                lemma_no_response_only_while_waiting(middle, messages[n]);
            },
            Trace::Closed(_) => {},
        }
    } else {
        assert(arrivals(times, messages) =~= Seq::<Moment>::empty());
    }
}

/// The execution in `state` after arrivals that did not end it.
pub open spec fn after_arrivals(
    state: ExecutionView<AggregationState>,
    times: Seq<u64>,
    messages: Seq<KernelResponse>,
) -> ExecutionView<AggregationState>
    recommends
        times.len() == messages.len(),
        feed(state.policy, messages) is Open,
{
    ExecutionView {
        policy: feed(state.policy, messages)->Open_0,
        settle_at: rearmed(state.settle_at, state.policy.window, times, messages),
        ..state
    }
}

/// An execution answers the answers to its request as [`answer`] says. A
/// message that is an answer by itself ends it on arrival. Otherwise it
/// goes on through all of them, and a look at the clock that finds the idle
/// window passed, before the deadline or ahead of it, ends it with the
/// answer made of what the policy remembers, or with no response where that
/// is nothing.
pub proof fn lemma_execution_answers(
    state: ExecutionView<AggregationState>,
    times: Seq<u64>,
    messages: Seq<KernelResponse>,
    now: u64,
)
    requires
        times.len() == messages.len(),
        all_answer(messages, state.request_id),
    ensures
        feed(state.policy, messages) matches Trace::Closed(message) ==> run(
            state,
            arrivals(times, messages),
        ) == ProgressView::<AggregationState>::Answered(Outcome::Single(message)),
        feed(state.policy, messages) is Open ==> run(state, arrivals(times, messages)) == (
        ProgressView::Pending { execution: after_arrivals(state, times, messages), reply: None }),
        feed(state.policy, messages) is Open && settle_due(
            after_arrivals(state, times, messages),
            now,
        ) ==> run(state, arrivals(times, messages).push(Moment { at: now, what: Occurrence::Tick }))
            == match answer(state.policy, messages) {
            Some(outcome) => ProgressView::<AggregationState>::Answered(outcome),
            None => ProgressView::<AggregationState>::Failed(Failure::NoResponse),
        },
{
    lemma_run_follows_feed(state, times, messages);
    lemma_run_last(state, arrivals(times, messages), Moment { at: now, what: Occurrence::Tick });
    match run(state, arrivals(times, messages)) {
        ProgressView::Pending { execution, .. } => {
            lemma_settle_is_latest_result(execution.policy);
        },
        _ => {},
    }
}


/// Where the answers to a request hold exactly one execute-result, and
/// beside it no stream fragment, no error and no display data, an execution
/// that starts from nothing goes on through all of them with its idle window
/// armed, and the look at the clock that finds the window passed, before the
/// deadline or ahead of it, ends it with that execute-result alone.
pub proof fn lemma_execution_answers_single_result(
    state: ExecutionView<AggregationState>,
    times: Seq<u64>,
    messages: Seq<KernelResponse>,
    at: int,
    now: u64,
)
    requires
        state.policy == AggregationState::initial(state.policy.window),
        times.len() == messages.len(),
        all_answer(messages, state.request_id),
        0 <= at < messages.len(),
        messages[at].msg_type == MessageType::ExecuteResult,
        forall|j: int|
            0 <= j < messages.len() && j != at ==> is_quiet(#[trigger] messages[j].msg_type),
    ensures
        run(state, arrivals(times, messages)) == (ProgressView::Pending {
            execution: after_arrivals(state, times, messages),
            reply: None,
        }),
        after_arrivals(state, times, messages).settle_at is Some,
        settle_due(after_arrivals(state, times, messages), now) ==> run(
            state,
            arrivals(times, messages).push(Moment { at: now, what: Occurrence::Tick }),
        ) == ProgressView::<AggregationState>::Answered(Outcome::Single(messages[at])),
{
    lemma_single_execute_result(state.policy.window, messages, at);
    lemma_execution_answers(state, times, messages, now);
    lemma_rearmed_by_relevant(state.settle_at, state.policy.window, times, messages, at);
}

/// After arrivals among which the policy does not ignore one, the idle
/// window is armed.
pub proof fn lemma_rearmed_by_relevant(
    settle_at: Option<u64>,
    window: u64,
    times: Seq<u64>,
    messages: Seq<KernelResponse>,
    at: int,
)
    requires
        times.len() == messages.len(),
        0 <= at < messages.len(),
        is_relevant(messages[at].msg_type),
    ensures
        rearmed(settle_at, window, times, messages) is Some,
    decreases messages.len(),
{
    if !is_relevant(messages.last().msg_type) {
        assert(messages.drop_last()[at] == messages[at]);
        lemma_rearmed_by_relevant(settle_at, window, times.drop_last(), messages.drop_last(), at);
    }
}

/// An execution that has just started satisfies what
/// [`lemma_idle_window_answers`] asks for.
pub proof fn lemma_started_unarmed(
    window: u64,
    request_id: Seq<char>,
    now: u64,
    timeout_millis: Option<u64>,
)
    ensures
        armed_with_something(
            started(AggregationState::initial(window), request_id, now, timeout_millis),
        ),
{
}

} // verus!
