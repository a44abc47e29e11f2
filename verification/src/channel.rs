//! Receiving from Tokio's channels: the calls that need a channel's state, each
//! taking the receiving end and handing it back.
use crate::external::has_capacity;
use std::future::Future;
use std::pin::Pin;
use std::task::{Context, Poll, Waker};
use tokio::sync::{mpsc, oneshot};
use vstd::prelude::*;

verus! {

/// What a poll finds: nothing yet, or a value.
pub enum Progress<T> {
    /// Nothing yet. The waker that the poll was given will be woken.
    Pending,
    /// The value.
    Ready(T),
}

/// What a poll of a one-value channel finds.
#[verifier::reject_recursive_types(T)]
pub enum Resolution<T> {
    /// Nothing yet: the receiving end comes back. The waker that the poll was
    /// given will be woken.
    Pending(oneshot::Receiver<T>),
    /// The value, or the error that the sending end was dropped without one.
    Ready(Result<T, oneshot::error::RecvError>),
}

/// The receiving end has not given out its value: it is as the channel's
/// constructor made it.
pub open spec fn unresolved<T>(receiver: oneshot::Receiver<T>) -> bool {
    exists|sender: oneshot::Sender<T>|
        #[trigger] call_ensures(oneshot::channel::<T>, (), (sender, receiver))
}

/// `value` was sent, and taken, through the sending end that belongs to
/// `receiver`.
pub open spec fn was_sent<T>(receiver: oneshot::Receiver<T>, value: T) -> bool {
    forall|sender: oneshot::Sender<T>|
        #[trigger] call_ensures(oneshot::channel::<T>, (), (sender, receiver)) ==> exists|
            sent: Result<(), T>,
        | #[trigger] call_ensures(oneshot::Sender::<T>::send, (sender, value), sent) && sent is Ok
}

/// No value was, or will be, sent and taken through the sending end that belongs
/// to `receiver`.
pub open spec fn never_sent<T>(receiver: oneshot::Receiver<T>) -> bool {
    forall|sender: oneshot::Sender<T>, value: T, sent: Result<(), T>|
        #![trigger call_ensures(oneshot::channel::<T>, (), (sender, receiver)), call_ensures(oneshot::Sender::<T>::send, (sender, value), sent)]
        call_ensures(oneshot::channel::<T>, (), (sender, receiver)) && call_ensures(
            oneshot::Sender::<T>::send,
            (sender, value),
            sent,
        ) ==> sent is Err
}

/// What is known of the buffer's size before a call is known after it.
pub open spec fn keeps_capacity<T>(before: mpsc::Receiver<T>, after: mpsc::Receiver<T>) -> bool {
    forall|size: usize| has_capacity(before, size) ==> #[trigger] has_capacity(after, size)
}

/// `after` is what closing `before` may leave.
pub closed spec fn closes_into<T>(before: mpsc::Receiver<T>, after: mpsc::Receiver<T>) -> bool {
    call_ensures(close::<T>, (before,), after)
}

/// `tokio::sync::mpsc::Receiver::close`: no message can be sent from now on
/// but by a task that had already reserved its place. That shows with the
/// senders alone; of the receiver it is claimed that the buffer's size stays.
#[verifier::external_body]
fn close<T>(receiver: mpsc::Receiver<T>) -> (closed: mpsc::Receiver<T>)
    ensures
        keeps_capacity(receiver, closed),
{
    let mut receiver = receiver;
    receiver.close();
    receiver
}

/// `after` and `taken` are what one attempt to receive from `before` may give.
pub closed spec fn takes<T>(
    before: mpsc::Receiver<T>,
    after: mpsc::Receiver<T>,
    taken: Option<T>,
) -> bool {
    call_ensures(try_recv::<T>, (before,), (after, taken))
}

/// `tokio::sync::mpsc::Receiver::try_recv`: the next message, or `None` if
/// there is none now. Which of the two depends on the sending tasks, and nothing
/// is claimed of it. An attempt that finds none leaves the receiver as it was. The
/// buffer's size stays.
#[verifier::external_body]
fn try_recv<T>(receiver: mpsc::Receiver<T>) -> (attempt: (mpsc::Receiver<T>, Option<T>))
    ensures
        keeps_capacity(receiver, attempt.0),
        attempt.1 is None ==> attempt.0 == receiver,
{
    let mut receiver = receiver;
    let taken = receiver.try_recv().ok();
    (receiver, taken)
}

/// `messages` come out of `before`, in that order and with none between them, and
/// `after` is left.
pub open spec fn comes_out<T>(
    before: mpsc::Receiver<T>,
    messages: Seq<T>,
    after: mpsc::Receiver<T>,
) -> bool
    decreases messages.len(),
{
    if messages.len() == 0 {
        after == before
    } else {
        exists|middle: mpsc::Receiver<T>|
            #![trigger takes(before, middle, Some(messages[0]))]
            takes(before, middle, Some(messages[0])) && comes_out(
                middle,
                messages.drop_first(),
                after,
            )
    }
}

/// `message` is the first that comes out of `before`, whatever comes after it, and
/// `after` is `before` without that one message.
pub open spec fn foremost<T>(
    before: mpsc::Receiver<T>,
    message: T,
    after: mpsc::Receiver<T>,
) -> bool {
    &&& takes(before, after, Some(message))
    &&& forall|middle: mpsc::Receiver<T>, other: T| #[trigger]
        takes(before, middle, Some(other)) ==> middle == after && other == message
}

/// `poll` takes at most one message out of `before`, the foremost, and otherwise
/// leaves `after` as `before` was.
pub open spec fn takes_at_most_one<T>(
    before: mpsc::Receiver<T>,
    after: mpsc::Receiver<T>,
    progress: Progress<Option<T>>,
) -> bool {
    match progress {
        Progress::Ready(Some(message)) => foremost(before, message, after),
        _ => after == before,
    }
}

/// No message will come out of `receiver` any more.
pub open spec fn exhausted<T>(receiver: mpsc::Receiver<T>) -> bool {
    forall|after: mpsc::Receiver<T>, message: T| !#[trigger] takes(receiver, after, Some(message))
}

/// Receiving `count` messages in a row from `before`, and dropping them, may
/// leave `after`.
pub open spec fn discards<T>(
    before: mpsc::Receiver<T>,
    after: mpsc::Receiver<T>,
    count: nat,
) -> bool
    decreases count,
{
    if count == 0 {
        after == before
    } else {
        exists|middle: mpsc::Receiver<T>, message: T|
            #![trigger takes(middle, after, Some(message))]
            discards(before, middle, (count - 1) as nat) && takes(middle, after, Some(message))
    }
}

/// Messages that come out of `before`, and one more that comes out of what they
/// leave, come out together.
pub proof fn lemma_comes_out_push<T>(
    before: mpsc::Receiver<T>,
    messages: Seq<T>,
    middle: mpsc::Receiver<T>,
    message: T,
    after: mpsc::Receiver<T>,
)
    requires
        comes_out(before, messages, middle),
        takes(middle, after, Some(message)),
    ensures
        comes_out(before, messages.push(message), after),
    decreases messages.len(),
{
    let all = messages.push(message);
    if messages.len() == 0 {
        assert(takes(before, after, Some(all[0])));
        assert(all.drop_first() =~= Seq::<T>::empty());
        assert(comes_out(after, all.drop_first(), after));
    } else {
        let first = choose|first: mpsc::Receiver<T>|
            #![trigger takes(before, first, Some(messages[0]))]
            takes(before, first, Some(messages[0])) && comes_out(
                first,
                messages.drop_first(),
                middle,
            );
        lemma_comes_out_push(first, messages.drop_first(), middle, message, after);
        assert(all.drop_first() =~= messages.drop_first().push(message));
        assert(takes(before, first, Some(all[0])));
    }
}

/// What is dropped is what came out, no more and no fewer.
pub proof fn law_discards_what_comes_out<T>(
    before: mpsc::Receiver<T>,
    after: mpsc::Receiver<T>,
    count: nat,
)
    requires
        discards(before, after, count),
    ensures
        exists|messages: Seq<T>| #[trigger]
            comes_out(before, messages, after) && messages.len() == count,
    decreases count,
{
    if count == 0 {
        assert(comes_out(before, Seq::<T>::empty(), after));
    } else {
        let (middle, message) = choose|middle: mpsc::Receiver<T>, message: T|
            #![trigger takes(middle, after, Some(message))]
            discards(before, middle, (count - 1) as nat) && takes(middle, after, Some(message));
        law_discards_what_comes_out(before, middle, (count - 1) as nat);
        let messages = choose|messages: Seq<T>| #[trigger]
            comes_out(before, messages, middle) && messages.len() == count - 1;
        lemma_comes_out_push(before, messages, middle, message, after);
    }
}

/// The foremost message is the first of those that come out, and those left are
/// the others, in their order.
pub proof fn law_foremost_leaves_the_others<T>(
    before: mpsc::Receiver<T>,
    message: T,
    after: mpsc::Receiver<T>,
    messages: Seq<T>,
    end: mpsc::Receiver<T>,
)
    requires
        foremost(before, message, after),
        comes_out(before, messages, end),
        messages.len() > 0,
    ensures
        message == messages[0],
        comes_out(after, messages.drop_first(), end),
{
}

/// A channel that is let go of is closed first. Then messages come out of it
/// until none does, or until as many have come out as its buffer holds.
pub proof fn law_letting_go_leaves_nothing<T>(before: mpsc::Receiver<T>, size: usize)
    requires
        lets_go(Some(before)),
        has_capacity(before, size),
    ensures
        exists|
            closed: mpsc::Receiver<T>,
            messages: Seq<T>,
            last: mpsc::Receiver<T>,
        |
            {
                &&& #[trigger] closes_into(before, closed)
                &&& #[trigger] comes_out(closed, messages, last)
                &&& messages.len() < size ==> takes(last, last, None)
                &&& messages.len() <= size
            },
{
    let (after, count) = choose|after: mpsc::Receiver<T>, count: nat|
        {
            &&& #[trigger] empties(before, after, count)
            &&& forall|size: usize| #[trigger] has_capacity(before, size) ==> count <= size
        };
    let (closed, last) = choose|closed: mpsc::Receiver<T>, last: mpsc::Receiver<T>|
        #![trigger closes_into(before, closed), discards(closed, last, count)]
        {
            &&& closes_into(before, closed)
            &&& discards(closed, last, count)
            &&& {
                ||| takes(last, after, None)
                ||| after == last && full_at(before, count)
            }
        };
    law_discards_what_comes_out(closed, last, count);
    let messages = choose|messages: Seq<T>| #[trigger]
        comes_out(closed, messages, last) && messages.len() == count;
    assert(closes_into(before, closed) && comes_out(closed, messages, last));
    assert(messages.len() < size ==> takes(last, after, None) && after == last);
}

/// `max_capacity` may answer that the buffer of `receiver` holds `count`
/// messages.
pub open spec fn full_at<T>(receiver: mpsc::Receiver<T>, count: nat) -> bool {
    exists|answer: usize|
        #[trigger] call_ensures(mpsc::Receiver::<T>::max_capacity, (&receiver,), answer) && answer
            == count
}

/// `after` is `before` closed and emptied, `count` messages having been
/// dropped: the receiver was closed, that many messages came out, and then none
/// came, unless the buffer had been full.
pub open spec fn empties<T>(
    before: mpsc::Receiver<T>,
    after: mpsc::Receiver<T>,
    count: nat,
) -> bool {
    exists|closed: mpsc::Receiver<T>, last: mpsc::Receiver<T>|
        #![trigger closes_into(before, closed), discards(closed, last, count)]
        {
            &&& closes_into(before, closed)
            &&& discards(closed, last, count)
            &&& {
                ||| takes(last, after, None)
                ||| after == last && full_at(before, count)
            }
        }
}

/// If there is a `receiver`, it was closed and emptied, of no more messages than
/// its buffer holds.
pub open spec fn lets_go<T>(receiver: Option<mpsc::Receiver<T>>) -> bool {
    receiver matches Some(before) ==> exists|after: mpsc::Receiver<T>, count: nat|
        {
            &&& #[trigger] empties(before, after, count)
            &&& forall|size: usize| #[trigger] has_capacity(before, size) ==> count <= size
        }
}

/// Closes a channel and drops what its buffer holds.
///
/// A closed channel gets no message but from a sender that had reserved a place
/// in the buffer, so once as many have come out as the buffer holds there are no
/// more.
pub(crate) fn empty<T>(receiver: mpsc::Receiver<T>) -> (emptied: (mpsc::Receiver<T>, usize))
    ensures
        empties(receiver, emptied.0, emptied.1 as nat),
        forall|size: usize| #[trigger] has_capacity(receiver, size) ==> emptied.1 <= size,
        keeps_capacity(receiver, emptied.0),
{
    let limit: usize = receiver.max_capacity();
    let closed = close(receiver);
    let ghost start = closed;
    let mut current = closed;
    let ghost mut last = closed;
    let mut count: usize = 0;
    let mut more = true;
    while more && count < limit
        invariant
            count <= limit,
            discards(start, last, count as nat),
            more ==> current == last,
            !more ==> takes(last, current, None),
            keeps_capacity(receiver, current),
        decreases limit - count, if more { 1int } else { 0int },
    {
        let (next, taken) = try_recv(current);
        current = next;
        match taken {
            Some(_message) => {
                count = count + 1;
                proof {
                    assert(takes(last, current, Some(_message)));
                    last = current;
                }
            },
            None => {
                more = false;
            },
        }
    }
    assert(closes_into(receiver, start) && discards(start, last, count as nat));
    (current, count)
}

/// `after` and `progress` are what one poll of `before` may give.
pub closed spec fn receives<T>(
    before: mpsc::Receiver<T>,
    waker: Waker,
    after: mpsc::Receiver<T>,
    progress: Progress<Option<T>>,
) -> bool {
    call_ensures(poll_recv::<T>, (before, &waker), (after, progress))
}

/// `tokio::sync::mpsc::Receiver::poll_recv`: the next message, `None` once the
/// channel is closed and empty, or nothing yet. Which of these depends on the
/// sending tasks and on the budget that the runtime gives a task. A message that
/// it gives is the one that an attempt to receive would have given, the only one
/// that can come next, and is gone from the receiver; otherwise the receiver is
/// left as it was. Once it has answered `None`, no message comes any more. The
/// buffer's size stays.
#[verifier::external_body]
fn poll_recv<T>(receiver: mpsc::Receiver<T>, waker: &Waker) -> (poll: (
    mpsc::Receiver<T>,
    Progress<Option<T>>,
))
    ensures
        keeps_capacity(receiver, poll.0),
        takes_at_most_one(receiver, poll.0, poll.1),
        poll.1 == Progress::Ready(None::<T>) ==> exhausted(poll.0),
        exhausted(receiver) ==> exhausted(poll.0) && !(poll.1 matches Progress::Ready(Some(_))),
{
    let mut receiver = receiver;
    let progress = match receiver.poll_recv(&mut Context::from_waker(waker)) {
        Poll::Pending => Progress::Pending,
        Poll::Ready(message) => Progress::Ready(message),
    };
    (receiver, progress)
}

/// Polls for the next message.
pub(crate) fn receive<T>(receiver: mpsc::Receiver<T>, waker: &Waker) -> (poll: (
    mpsc::Receiver<T>,
    Progress<Option<T>>,
))
    ensures
        receives(receiver, *waker, poll.0, poll.1),
        keeps_capacity(receiver, poll.0),
        takes_at_most_one(receiver, poll.0, poll.1),
        poll.1 == Progress::Ready(None::<T>) ==> exhausted(poll.0),
        exhausted(receiver) ==> exhausted(poll.0) && !(poll.1 matches Progress::Ready(Some(_))),
{
    poll_recv(receiver, waker)
}

/// `resolution` is what one poll of `receiver` may give.
pub closed spec fn resolves<T>(
    receiver: oneshot::Receiver<T>,
    waker: Waker,
    resolution: Resolution<T>,
) -> bool {
    call_ensures(poll_oneshot::<T>, (receiver, &waker), resolution)
}

/// `poll` of `tokio::sync::oneshot::Receiver`: the value, the error that the
/// sending end was dropped without one, or nothing yet. Which of these depends
/// on the sending task and on the budget that the runtime gives a task: a poll
/// may find nothing though a value is there. A value that comes out is one that
/// was sent through the other end, and where the error comes out none ever is. A
/// poll that finds nothing leaves the receiver as it was. It panics on a receiver that has given out its value.
#[verifier::external_body]
fn poll_oneshot<T>(receiver: oneshot::Receiver<T>, waker: &Waker) -> (resolution: Resolution<T>)
    requires
        unresolved(receiver),
    ensures
        resolution matches Resolution::Pending(back) ==> back == receiver,
        resolution matches Resolution::Ready(Ok(value)) ==> was_sent(receiver, value),
        resolution matches Resolution::Ready(Err(_)) ==> never_sent(receiver),
{
    let mut receiver = receiver;
    match Pin::new(&mut receiver).poll(&mut Context::from_waker(waker)) {
        Poll::Pending => Resolution::Pending(receiver),
        Poll::Ready(result) => Resolution::Ready(result),
    }
}

/// Polls for the value of a one-value channel.
pub(crate) fn resolve<T>(receiver: oneshot::Receiver<T>, waker: &Waker) -> (resolution:
    Resolution<T>)
    requires
        unresolved(receiver),
    ensures
        resolves(receiver, *waker, resolution),
        resolution matches Resolution::Pending(back) ==> back == receiver,
        resolution matches Resolution::Ready(Ok(value)) ==> was_sent(receiver, value),
        resolution matches Resolution::Ready(Err(_)) ==> never_sent(receiver),
{
    poll_oneshot(receiver, waker)
}

/// `last` is what a last look at `receiver` may find: the receiver was closed, so
/// that nothing more can be sent to it, and its value, if it had one, was taken.
pub closed spec fn ends_with<T>(receiver: oneshot::Receiver<T>, last: Option<T>) -> bool {
    exists|closed: oneshot::Receiver<T>| #[trigger]
        call_ensures(close_oneshot::<T>, (receiver,), closed) && call_ensures(
            try_recv_oneshot::<T>,
            (closed,),
            last,
        )
}

/// `tokio::sync::oneshot::Receiver::close`: from now on every send through the
/// other end fails. That shows with the sender alone; the receiver is still the
/// same channel's, and a value that was sent before is still in it.
#[verifier::external_body]
fn close_oneshot<T>(receiver: oneshot::Receiver<T>) -> (closed: oneshot::Receiver<T>)
    ensures
        closed == receiver,
{
    let mut receiver = receiver;
    receiver.close();
    receiver
}

/// `tokio::sync::oneshot::Receiver::try_recv`: the value, or `None` if none was
/// sent. It does not miss a value that was sent before the call. A value that
/// comes out is one that was sent through the other end; whether one does
/// depends on the sending task. Where none comes out of a receiver that was closed
/// before, none is ever sent: the receiver is used up here, so it was closed
/// before this call or not at all.
#[verifier::external_body]
fn try_recv_oneshot<T>(receiver: oneshot::Receiver<T>) -> (value: Option<T>)
    ensures
        value matches Some(v) ==> was_sent(receiver, v),
        value is None && unresolved(receiver) && call_ensures(
            close_oneshot::<T>,
            (receiver,),
            receiver,
        ) ==> never_sent(receiver),
{
    let mut receiver = receiver;
    receiver.try_recv().ok()
}

/// Gives a one-value channel up, with what it holds.
pub(crate) fn last_look<T>(receiver: oneshot::Receiver<T>) -> (last: Option<T>)
    ensures
        ends_with(receiver, last),
        last matches Some(value) ==> was_sent(receiver, value),
        last is None && unresolved(receiver) ==> never_sent(receiver),
{
    let closed = close_oneshot(receiver);
    let ghost shut = closed;
    let last = try_recv_oneshot(closed);
    assert(call_ensures(close_oneshot::<T>, (receiver,), shut));
    last
}

/// Closing a receiver is one call of `close`, and an attempt to receive one call
/// of `try_recv`.
proof fn law_one_call_each<T>(
    before: mpsc::Receiver<T>,
    after: mpsc::Receiver<T>,
    taken: Option<T>,
)
    ensures
        closes_into(before, after) <==> call_ensures(close::<T>, (before,), after),
        takes(before, after, taken) <==> call_ensures(try_recv::<T>, (before,), (after, taken)),
        takes(before, after, None) ==> after == before,
{
}

/// A poll of a channel is one call of `poll_recv`: it takes at most one message.
proof fn law_one_poll<T>(
    before: mpsc::Receiver<T>,
    waker: Waker,
    after: mpsc::Receiver<T>,
    progress: Progress<Option<T>>,
)
    requires
        receives(before, waker, after, progress),
    ensures
        call_ensures(poll_recv::<T>, (before, &waker), (after, progress)),
        match progress {
            Progress::Ready(Some(message)) => {
                &&& call_ensures(try_recv::<T>, (before,), (after, Some(message)))
                &&& forall|middle: mpsc::Receiver<T>, other: T| #[trigger]
                    call_ensures(try_recv::<T>, (before,), (middle, Some(other))) ==> middle
                        == after && other == message
            },
            _ => after == before,
        },
{
    if let Progress::Ready(Some(message)) = progress {
        assert forall|middle: mpsc::Receiver<T>, other: T| #[trigger]
            call_ensures(
                try_recv::<T>,
                (before,),
                (middle, Some(other)),
            ) implies middle == after && other == message by {
            assert(takes(before, middle, Some(other)));
        }
    }
}

/// A poll of a one-value channel is one call of its `poll`. Its value, if it gives
/// one, was sent, and where it gives an error none ever is.
proof fn law_one_resolution<T>(
    receiver: oneshot::Receiver<T>,
    waker: Waker,
    resolution: Resolution<T>,
)
    requires
        resolves(receiver, waker, resolution),
    ensures
        call_ensures(poll_oneshot::<T>, (receiver, &waker), resolution),
        match resolution {
            Resolution::Pending(back) => back == receiver,
            Resolution::Ready(Ok(value)) => was_sent(receiver, value),
            Resolution::Ready(Err(_)) => never_sent(receiver),
        },
{
}

/// A last look is one call of `close` and then one of `try_recv`. It misses
/// nothing: what it finds was sent, and where it finds nothing none ever is.
proof fn law_last_look_misses_nothing<T>(
    receiver: oneshot::Receiver<T>,
    last: Option<T>,
)
    requires
        ends_with(receiver, last),
        unresolved(receiver),
    ensures
        call_ensures(close_oneshot::<T>, (receiver,), receiver),
        call_ensures(try_recv_oneshot::<T>, (receiver,), last),
        match last {
            Some(value) => was_sent(receiver, value),
            None => never_sent(receiver),
        },
{
}

} // verus!
