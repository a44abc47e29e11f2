//! What the library believes of Tokio and of the standard library.
//!
//! Tokio's types are opaque here, and a channel's ends are shared with other
//! tasks. So most results depend on what those tasks have done, and nothing is
//! claimed of them. `call_ensures(f, args, result)` says that in the run at hand a
//! call of `f` on `args` ends in `result`, or would end so if it were made then.
//! Nothing but a call shows it, so a contract that says it fixes which call was
//! made, on what, and what came of it.
//!
//! The receiver of a channel of many messages stands for the channel, for whether
//! it was closed, and for how much has come out of it: a call that changes none of
//! these leaves it the same. The messages of a run come out in one order.
use std::task::Waker;
use tokio::sync::{mpsc, oneshot, Notify};
use vstd::prelude::*;

verus! {

// The types of Tokio, and the waker, of which nothing is seen from here.

#[verifier::external_type_specification]
#[verifier::external_body]
#[verifier::reject_recursive_types(T)]
pub struct ExMpscSender<T>(mpsc::Sender<T>);

#[verifier::external_type_specification]
#[verifier::external_body]
#[verifier::reject_recursive_types(T)]
pub struct ExMpscReceiver<T>(mpsc::Receiver<T>);

#[verifier::external_type_specification]
#[verifier::external_body]
#[verifier::reject_recursive_types(T)]
pub struct ExMpscSendError<T>(mpsc::error::SendError<T>);

#[verifier::external_type_specification]
#[verifier::external_body]
#[verifier::reject_recursive_types(T)]
pub struct ExOneshotSender<T>(oneshot::Sender<T>);

#[verifier::external_type_specification]
#[verifier::external_body]
#[verifier::reject_recursive_types(T)]
pub struct ExOneshotReceiver<T>(oneshot::Receiver<T>);

#[verifier::external_type_specification]
#[verifier::external_body]
pub struct ExOneshotRecvError(oneshot::error::RecvError);

#[verifier::external_type_specification]
#[verifier::external_body]
pub struct ExNotify(Notify);

#[verifier::external_type_specification]
#[verifier::external_body]
pub struct ExWaker(Waker);

/// The channel behind `receiver` was made with a buffer of `size`: that is all
/// that `max_capacity` can answer.
pub open spec fn has_capacity<T>(receiver: mpsc::Receiver<T>, size: usize) -> bool {
    forall|answer: usize|
        #[trigger] call_ensures(mpsc::Receiver::<T>::max_capacity, (&receiver,), answer)
            ==> answer == size
}

/// `tokio::sync::mpsc::channel`: a bounded channel, whose buffer size
/// `max_capacity` gives back. It panics on a buffer of zero, and on one above
/// the most permits that Tokio's semaphore can hold (`usize::MAX >> 3`).
pub assume_specification<T>[ mpsc::channel::<T> ](buffer: usize) -> (ends: (
    mpsc::Sender<T>,
    mpsc::Receiver<T>,
))
    requires
        0 < buffer <= usize::MAX / 8,
    ensures
        has_capacity(ends.1, buffer),
;

/// `tokio::sync::mpsc::Sender::clone`: a sender is known by the channel it
/// feeds, and a clone feeds the same channel.
pub assume_specification<T>[ <mpsc::Sender<T> as Clone>::clone ](
    sender: &mpsc::Sender<T>,
) -> (copy: mpsc::Sender<T>)
    ensures
        copy == *sender,
;

/// `tokio::sync::mpsc::Receiver::max_capacity`: the buffer size that the
/// channel was made with. That size is tied to the receiver where the channel is
/// made, and kept by the calls that change the receiver.
pub assume_specification<T>[ mpsc::Receiver::<T>::max_capacity ](
    receiver: &mpsc::Receiver<T>,
) -> (capacity: usize)
;

/// `tokio::sync::oneshot::channel`: the two ends of a channel for one value.
/// Nothing is claimed but that one call gave both.
pub assume_specification<T>[ oneshot::channel::<T> ]() -> (ends: (
    oneshot::Sender<T>,
    oneshot::Receiver<T>,
))
;

/// `tokio::sync::oneshot::Sender::send`: a value that could not be sent comes
/// back. Whether it can be sent depends on the task that holds the other end.
pub assume_specification<T>[ oneshot::Sender::<T>::send ](
    sender: oneshot::Sender<T>,
    value: T,
) -> (sent: Result<(), T>)
    ensures
        sent matches Err(back) ==> back == value,
;

/// `tokio::sync::Notify::new`: a notifier. Nothing is claimed of it.
pub assume_specification[ Notify::new ]() -> (notify: Notify)
;

/// `tokio::sync::Notify::notify_one`: wakes one waiting task, or stores a
/// permit for the next one that waits. Neither shows in what the caller holds,
/// so nothing is claimed of it.
pub assume_specification[ Notify::notify_one ](notify: &Notify)
;

} // verus!
