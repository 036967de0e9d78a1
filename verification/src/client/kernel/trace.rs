//! What the default policy answers to a whole sequence of messages.

use vstd::prelude::*;
use crate::client::kernel::outcome_of;
use crate::client::kernel::types::KernelResponse;
use crate::client::kernel::types::MessageType;
use crate::client::kernel::AggregationState;
use crate::client::kernel::Outcome;
use crate::client::kernel::Phase;
use crate::client::kernel::WaitResult;
use crate::client::kernel::WaitResultAndDisplayData;
use crate::client::kernel::WaitResultResponse;

verus! {

/// Where an aggregation stands after some messages.
pub enum Trace {
    /// No message has ended it yet.
    Open(AggregationState),
    /// This message ended it; nothing after it was looked at.
    Closed(KernelResponse),
}

impl Trace {
    /// How far the aggregation has come.
    pub open spec fn phase(self) -> Phase {
        match self {
            Trace::Open(state) => state.phase(),
            Trace::Closed(_) => Phase::Settled,
        }
    }
}

/// An error or display data: a message that is an answer by itself.
pub open spec fn is_terminal(kind: MessageType) -> bool {
    kind == MessageType::Error || kind == MessageType::DisplayData
}

/// A message that the default policy does not ignore.
pub open spec fn is_relevant(kind: MessageType) -> bool {
    kind == MessageType::ExecuteResult || kind == MessageType::Stream || kind
        == MessageType::ExecuteReply || is_terminal(kind)
}

/// The answer once the idle window has passed in `state`: nothing where
/// nothing was remembered; the primary result alone where no fragment came;
/// a lone fragment alone where the primary result is missing or just an
/// execute-reply; else the fragments in their order, the primary result
/// last.
pub open spec fn settle(state: AggregationState) -> Option<Outcome> {
    if state.fragments.len() == 0 {
        match state.primary {
            Some(primary) => Some(Outcome::Single(primary)),
            None => None,
        }
    } else if state.fragments.len() == 1 && (state.primary matches Some(primary)
        ==> primary.msg_type == MessageType::ExecuteReply) {
        Some(Outcome::Single(state.fragments[0]))
    } else {
        match state.primary {
            Some(primary) => Some(Outcome::Multiple(state.fragments.push(primary))),
            None => Some(Outcome::Multiple(state.fragments)),
        }
    }
}

/// Feeds `messages` to the default policy in order, from `state`, stopping
/// at the first message that the policy takes for the whole answer.
pub open spec fn feed(state: AggregationState, messages: Seq<KernelResponse>) -> Trace
    decreases messages.len(),
{
    if messages.len() == 0 {
        Trace::Open(state)
    } else {
        let (next, answer) = WaitResultAndDisplayData::spec_check(state, messages[0]);
        match answer {
            Some(WaitResultResponse::KernelResponse(message)) => Trace::Closed(message),
            _ => feed(next, messages.drop_first()),
        }
    }
}

/// The answer to `messages` when the idle window passes after the last of
/// them, or `None` where there is nothing to answer with.
pub open spec fn answer(state: AggregationState, messages: Seq<KernelResponse>) -> Option<Outcome> {
    match feed(state, messages) {
        Trace::Closed(message) => Some(Outcome::Single(message)),
        Trace::Open(end) => settle(end),
    }
}

/// The default policy's memory, made into an answer, is what [`settle`]
/// says.
pub proof fn lemma_settle_is_latest_result(state: AggregationState)
    ensures
        outcome_of(WaitResultAndDisplayData::spec_latest_result(state)) == settle(state),
{
}

/// Feeding two sequences one after the other is feeding the second from
/// where the first ended, unless the first was ended by a message.
pub proof fn lemma_feed_concat(
    state: AggregationState,
    first: Seq<KernelResponse>,
    second: Seq<KernelResponse>,
)
    ensures
        feed(state, first + second) == match feed(state, first) {
            Trace::Closed(message) => Trace::Closed(message),
            Trace::Open(middle) => feed(middle, second),
        },
    decreases first.len(),
{
    if first.len() == 0 {
        assert(first + second =~= second);
    } else {
        let (next, answer) = WaitResultAndDisplayData::spec_check(state, first[0]);
        assert((first + second)[0] == first[0]);
        assert((first + second).drop_first() =~= first.drop_first() + second);
        lemma_feed_concat(next, first.drop_first(), second);
    }
}

/// A kind that leaves the fragments and the latest execute-result as they
/// are: no execute-result, no stream fragment, no error and no display data.
pub open spec fn is_quiet(kind: MessageType) -> bool {
    !is_terminal(kind) && kind != MessageType::ExecuteResult && kind != MessageType::Stream
}

/// What quiet messages can make of `from`: the fragments and the window
/// stay, a primary result that is there stays, and one that was missing can
/// only be an execute-reply.
pub open spec fn follows_quietly(from: AggregationState, to: AggregationState) -> bool {
    &&& to.fragments == from.fragments
    &&& to.window == from.window
    &&& from.primary is Some ==> to.primary == from.primary
    &&& from.primary is None ==> (to.primary matches Some(p) ==> p.msg_type
        == MessageType::ExecuteReply)
}

/// Quiet messages end no aggregation, and leave it as [`follows_quietly`]
/// says.
pub proof fn lemma_feed_quiet(state: AggregationState, messages: Seq<KernelResponse>)
    requires
        forall|j: int| 0 <= j < messages.len() ==> is_quiet(#[trigger] messages[j].msg_type),
    ensures
        feed(state, messages) matches Trace::Open(end) && follows_quietly(state, end),
    decreases messages.len(),
{
    if messages.len() > 0 {
        let (next, answer) = WaitResultAndDisplayData::spec_check(state, messages[0]);
        assert(is_quiet(messages[0].msg_type));
        assert forall|j: int| 0 <= j < messages.drop_first().len() implies is_quiet(
            #[trigger] messages.drop_first()[j].msg_type,
        ) by {
            assert(messages.drop_first()[j] == messages[j + 1]);
        }
        lemma_feed_quiet(next, messages.drop_first());
    }
}

/// Where every message but one is quiet, and that one is no answer by
/// itself, feeding them all is feeding the quiet ones before it, taking it
/// in, and feeding the quiet ones after it. The result is the state in
/// which the one has just been taken in.
pub proof fn lemma_feed_around(
    state: AggregationState,
    messages: Seq<KernelResponse>,
    at: int,
) -> (taken: AggregationState)
    requires
        0 <= at < messages.len(),
        !is_terminal(messages[at].msg_type),
        forall|j: int|
            0 <= j < messages.len() && j != at ==> is_quiet(#[trigger] messages[j].msg_type),
    ensures
        feed(state, messages.subrange(0, at)) matches Trace::Open(middle) && follows_quietly(
            state,
            middle,
        ) && taken == WaitResultAndDisplayData::spec_check(middle, messages[at]).0,
        feed(state, messages) matches Trace::Open(end) && follows_quietly(taken, end),
{
    let before = messages.subrange(0, at);
    let after = messages.subrange(at + 1, messages.len() as int);
    let one = seq![messages[at]];
    assert(messages =~= before + (one + after));
    lemma_feed_quiet(state, before);
    lemma_feed_concat(state, before, one + after);
    let middle = feed(state, before)->Open_0;
    lemma_feed_concat(middle, one, after);
    assert(one.drop_first() =~= Seq::<KernelResponse>::empty());
    let (taken, _) = WaitResultAndDisplayData::spec_check(middle, messages[at]);
    assert(feed(middle, one) == feed(taken, one.drop_first()));
    assert(feed(middle, one) == Trace::Open(taken));
    lemma_feed_quiet(taken, after);
    taken
}

/// Where exactly one execute-result arrives, and beside it no stream
/// fragment, no error and no display data, the answer after the idle window
/// is that execute-result alone.
pub proof fn lemma_single_execute_result(
    window: u64,
    messages: Seq<KernelResponse>,
    at: int,
)
    requires
        0 <= at < messages.len(),
        messages[at].msg_type == MessageType::ExecuteResult,
        forall|j: int|
            0 <= j < messages.len() && j != at ==> is_quiet(#[trigger] messages[j].msg_type),
    ensures
        feed(AggregationState::initial(window), messages) is Open,
        answer(AggregationState::initial(window), messages) == Some(
            Outcome::Single(messages[at]),
        ),
{
    let taken = lemma_feed_around(AggregationState::initial(window), messages, at);
}

/// An error, or display data, before which no other such message came, is
/// the whole answer, whatever was remembered before it and whatever follows
/// it: the messages behind it are not looked at.
pub proof fn lemma_terminal_message_answers(
    state: AggregationState,
    messages: Seq<KernelResponse>,
    at: int,
)
    requires
        0 <= at < messages.len(),
        is_terminal(messages[at].msg_type),
        forall|j: int| 0 <= j < at ==> !is_terminal(#[trigger] messages[j].msg_type),
    ensures
        feed(state, messages) == Trace::Closed(messages[at]),
        feed(state, messages) == feed(state, messages.subrange(0, at + 1)),
        answer(state, messages) == Some(Outcome::Single(messages[at])),
    decreases at,
{
    let (next, reply) = WaitResultAndDisplayData::spec_check(state, messages[0]);
    let upto = messages.subrange(0, at + 1);
    assert(upto[0] == messages[0]);
    if at > 0 {
        assert(!is_terminal(messages[0].msg_type));
        let rest = messages.drop_first();
        assert(rest[at - 1] == messages[at]);
        assert forall|j: int| 0 <= j < at - 1 implies !is_terminal(
            #[trigger] rest[j].msg_type,
        ) by {
            assert(rest[j] == messages[j + 1]);
        }
        lemma_terminal_message_answers(next, rest, at - 1);
        assert(upto.drop_first() =~= rest.subrange(0, at));
    }
}

/// Where exactly one stream fragment arrives, and beside it no
/// execute-result, no error and no display data, the answer after the idle
/// window is that fragment alone: an execute-reply that came with it is
/// dropped.
pub proof fn lemma_single_fragment(window: u64, messages: Seq<KernelResponse>, at: int)
    requires
        0 <= at < messages.len(),
        messages[at].msg_type == MessageType::Stream,
        forall|j: int|
            0 <= j < messages.len() && j != at ==> is_quiet(#[trigger] messages[j].msg_type),
    ensures
        answer(AggregationState::initial(window), messages) == Some(
            Outcome::Single(messages[at]),
        ),
{
    let taken = lemma_feed_around(AggregationState::initial(window), messages, at);
    assert(taken.fragments =~= seq![messages[at]]);
}

/// The stream fragments among `messages`, in their order.
pub open spec fn fragments_of(messages: Seq<KernelResponse>) -> Seq<KernelResponse> {
    messages.filter(|m: KernelResponse| m.msg_type == MessageType::Stream)
}

/// Feeding a sequence with one more message behind it is feeding the
/// sequence and then taking that message in.
pub proof fn lemma_feed_last(state: AggregationState, messages: Seq<KernelResponse>)
    requires
        messages.len() > 0,
    ensures
        feed(state, messages) == match feed(state, messages.drop_last()) {
            Trace::Closed(message) => Trace::Closed(message),
            Trace::Open(middle) => match WaitResultAndDisplayData::spec_check(
                middle,
                messages.last(),
            ).1 {
                Some(WaitResultResponse::KernelResponse(message)) => Trace::Closed(message),
                _ => Trace::Open(
                    WaitResultAndDisplayData::spec_check(middle, messages.last()).0,
                ),
            },
        },
{
    let last = seq![messages.last()];
    assert(messages =~= messages.drop_last() + last);
    lemma_feed_concat(state, messages.drop_last(), last);
    assert(last.drop_first() =~= Seq::<KernelResponse>::empty());
    match feed(state, messages.drop_last()) {
        Trace::Open(middle) => {
            let next = WaitResultAndDisplayData::spec_check(middle, last[0]).0;
            assert(feed(next, last.drop_first()) == Trace::Open(next));
        },
        Trace::Closed(_) => {},
    }
}

/// Whether no message of the kind `kind` is among `messages`.
pub open spec fn none_of(messages: Seq<KernelResponse>, kind: MessageType) -> bool {
    forall|j: int| 0 <= j < messages.len() ==> (#[trigger] messages[j]).msg_type != kind
}

/// Whether no message that is an answer by itself is among `messages`.
pub open spec fn none_terminal(messages: Seq<KernelResponse>) -> bool {
    none_of(messages, MessageType::Error) && none_of(messages, MessageType::DisplayData)
}

/// A kind that is not among some messages is not among all but the last
/// of them.
proof fn lemma_none_of_earlier(messages: Seq<KernelResponse>, kind: MessageType)
    requires
        messages.len() > 0,
        none_of(messages, kind),
    ensures
        none_of(messages.drop_last(), kind),
        messages.last().msg_type != kind,
{
    assert forall|j: int| 0 <= j < messages.drop_last().len() implies (
    #[trigger] messages.drop_last()[j]).msg_type != kind by {
        assert(messages.drop_last()[j] == messages[j]);
    }
}

/// Where no error and no display data arrives, every stream fragment is
/// remembered, in the order of arrival, behind those remembered before; so
/// an answer of several messages holds the fragments in their order, and
/// the primary result last.
pub proof fn lemma_fragments_in_order(state: AggregationState, messages: Seq<KernelResponse>)
    requires
        none_terminal(messages),
    ensures
        feed(state, messages) is Open,
        feed(state, messages)->Open_0.fragments == state.fragments + fragments_of(messages),
        feed(state, messages)->Open_0.window == state.window,
        (state.fragments + fragments_of(messages)).len() >= 2 ==> answer(state, messages) == Some(
            Outcome::Multiple(
                match feed(state, messages)->Open_0.primary {
                    Some(primary) => (state.fragments + fragments_of(messages)).push(primary),
                    None => state.fragments + fragments_of(messages),
                },
            ),
        ),
    decreases messages.len(),
{
    reveal(Seq::filter);
    if messages.len() == 0 {
        assert(state.fragments + fragments_of(messages) =~= state.fragments);
    } else {
        lemma_none_of_earlier(messages, MessageType::Error);
        lemma_none_of_earlier(messages, MessageType::DisplayData);
        lemma_fragments_in_order(state, messages.drop_last());
        lemma_feed_last(state, messages);
        let middle = feed(state, messages.drop_last())->Open_0;
        let end = WaitResultAndDisplayData::spec_check(middle, messages.last()).0;
        assert(end.fragments =~= state.fragments + fragments_of(messages));
    }
}

/// Where no error and no display data arrives, the primary result is the
/// latest execute-result.
pub proof fn lemma_primary_is_latest_result(
    state: AggregationState,
    messages: Seq<KernelResponse>,
    at: int,
)
    requires
        none_terminal(messages),
        0 <= at < messages.len(),
        messages[at].msg_type == MessageType::ExecuteResult,
        none_of(messages.subrange(at + 1, messages.len() as int), MessageType::ExecuteResult),
    ensures
        feed(state, messages) matches Trace::Open(end) && end.primary == Some(messages[at]),
    decreases messages.len(),
{
    let earlier = messages.drop_last();
    lemma_none_of_earlier(messages, MessageType::Error);
    lemma_none_of_earlier(messages, MessageType::DisplayData);
    lemma_fragments_in_order(state, earlier);
    lemma_feed_last(state, messages);
    if at < messages.len() - 1 {
        let behind = messages.subrange(at + 1, messages.len() as int);
        lemma_none_of_earlier(behind, MessageType::ExecuteResult);
        assert(behind.last() == messages.last());
        assert(behind.drop_last() =~= earlier.subrange(at + 1, earlier.len() as int));
        assert(earlier[at] == messages[at]);
        lemma_primary_is_latest_result(state, earlier, at);
    }
}

/// Where no execute-result, no error and no display data arrives, and no
/// primary result was remembered before, the primary result is the first
/// execute-reply.
pub proof fn lemma_primary_is_first_reply(
    state: AggregationState,
    messages: Seq<KernelResponse>,
    at: int,
)
    requires
        state.primary is None,
        none_terminal(messages),
        none_of(messages, MessageType::ExecuteResult),
        0 <= at < messages.len(),
        messages[at].msg_type == MessageType::ExecuteReply,
        none_of(messages.subrange(0, at), MessageType::ExecuteReply),
    ensures
        feed(state, messages) matches Trace::Open(end) && end.primary == Some(messages[at]),
    decreases messages.len(),
{
    let earlier = messages.drop_last();
    lemma_none_of_earlier(messages, MessageType::Error);
    lemma_none_of_earlier(messages, MessageType::DisplayData);
    lemma_none_of_earlier(messages, MessageType::ExecuteResult);
    lemma_feed_last(state, messages);
    if at < messages.len() - 1 {
        assert(earlier[at] == messages[at]);
        assert(earlier.subrange(0, at) =~= messages.subrange(0, at));
        lemma_primary_is_first_reply(state, earlier, at);
    } else {
        assert(earlier =~= messages.subrange(0, at));
        lemma_no_primary_without_result_or_reply(state, earlier);
    }
}

/// Where neither an execute-result nor an execute-reply, and no error and
/// no display data, arrives, no primary result is remembered that was not
/// remembered before.
pub proof fn lemma_no_primary_without_result_or_reply(
    state: AggregationState,
    messages: Seq<KernelResponse>,
)
    requires
        state.primary is None,
        none_terminal(messages),
        none_of(messages, MessageType::ExecuteResult),
        none_of(messages, MessageType::ExecuteReply),
    ensures
        feed(state, messages) matches Trace::Open(end) && end.primary is None,
    decreases messages.len(),
{
    if messages.len() > 0 {
        lemma_none_of_earlier(messages, MessageType::Error);
        lemma_none_of_earlier(messages, MessageType::DisplayData);
        lemma_none_of_earlier(messages, MessageType::ExecuteResult);
        lemma_none_of_earlier(messages, MessageType::ExecuteReply);
        lemma_no_primary_without_result_or_reply(state, messages.drop_last());
        lemma_feed_last(state, messages);
    }
}

/// An execute-reply followed by one stream fragment is answered with the
/// fragment alone.
pub proof fn lemma_reply_then_fragment(
    window: u64,
    reply: KernelResponse,
    fragment: KernelResponse,
)
    requires
        reply.msg_type == MessageType::ExecuteReply,
        fragment.msg_type == MessageType::Stream,
    ensures
        answer(AggregationState::initial(window), seq![reply, fragment]) == Some(
            Outcome::Single(fragment),
        ),
{
    lemma_single_fragment(window, seq![reply, fragment], 1);
}

/// The idle window ends with nothing to answer exactly where nothing was
/// remembered. The default policy asks for the idle window only when it
/// remembers something, and never forgets.
pub proof fn lemma_no_response_only_while_waiting(
    state: AggregationState,
    message: KernelResponse,
)
    ensures
        settle(state) is None <==> state.phase() is Waiting,
        WaitResultAndDisplayData::spec_check(state, message).1 matches Some(
            WaitResultResponse::WaitSuccession(_),
        ) ==> WaitResultAndDisplayData::spec_check(state, message).0.phase() is Accumulating,
        state.phase() is Accumulating ==> WaitResultAndDisplayData::spec_check(
            state,
            message,
        ).0.phase() is Accumulating,
        !is_relevant(message.msg_type) <==> WaitResultAndDisplayData::spec_check(
            state,
            message,
        ).1 is None,
        !is_relevant(message.msg_type) ==> WaitResultAndDisplayData::spec_check(state, message).0
            == state,
{
}

} // verus!
