//! What each call does, said of what goes in and what comes out.
//!
//! `call_ensures(f, args, result)` says that a call of `f` on `args` ended in
//! `result`. For a function that takes a `&mut`, the value before the call and the
//! one after it are given instead.
use crate::channel::{
    closes_into, comes_out, law_letting_go_leaves_nothing, never_sent, receives, resolves, takes,
    was_sent, Progress, Resolution,
};
use crate::count::{Gauge, Share};
use crate::external::has_capacity;
use crate::handle::{
    hands_over, queue_outcome, queued, result_of, JobError, PendingOutput, Reply, WorkerHandle,
};
use crate::pool::{handle_for, opens, staffed, wait_step, WorkerPool};
use crate::protocol::WaitStep;
use crate::work::{Task, Work, WorkerSlot};
use crate::worker::{
    Departure, Heard, Listening, Offering, Seat, Unheard, Worker, WorkerAction, WorkerGuard,
    Working,
};
use std::sync::atomic::{AtomicUsize, Ordering};
use std::task::Waker;
use tokio::sync::{mpsc, oneshot, Notify};
use vstd::prelude::*;

verus! {

/// A job's result is the very value that came back for it, of whatever type, and
/// there is an error only where the channel for it gave one.
pub proof fn law_value_received_is_the_result<T>(
    received: Result<T, oneshot::error::RecvError>,
    outcome: Result<T, JobError>,
)
    requires
        call_ensures(result_of::<T>, (received,), outcome),
    ensures
        forall|value: T| received == Ok::<T, oneshot::error::RecvError>(value) <==> outcome == Ok::<
            T,
            JobError,
        >(value),
        forall|error: oneshot::error::RecvError|
            received == Err::<T, oneshot::error::RecvError>(error) <==> outcome == Err::<
                T,
                JobError,
            >(JobError::NoReply(error)),
        received is Ok <==> outcome is Ok,
{
}

/// A job is queued exactly if its slot took it, whatever the job is.
pub proof fn law_queued_exactly_if_taken<T>(sent: Result<(), T>, outcome: Result<(), JobError>)
    requires
        call_ensures(queued::<T>, (sent,), outcome),
    ensures
        sent is Ok <==> outcome is Ok,
        sent is Err <==> outcome == Err::<(), JobError>(JobError::NotQueued),
{
}

/// Each error has its own words.
pub proof fn law_error_in_words(error: JobError, message: String)
    requires
        call_ensures(JobError::message, (&error,), message),
    ensures
        error is NotQueued ==> message@ == "failed to queue job"@,
        error is NoReply ==> message@ == "channel closed"@,
{
}

/// Where a slot is found there is a handle on that very slot, and there is none
/// where no slot is found.
pub proof fn law_slot_found_is_handed_out<W: Work>(
    found: Progress<Option<WorkerSlot<W>>>,
    got: Progress<Option<WorkerHandle<W>>>,
)
    requires
        call_ensures(handle_for::<W>, (found,), got),
    ensures
        match got {
            Progress::Pending => found is Pending,
            Progress::Ready(None) => found == Progress::Ready(None::<WorkerSlot<W>>),
            Progress::Ready(Some(handle)) => found == Progress::Ready(Some(handle@)),
        },
{
}

/// A job that is sent goes through the handle's slot, with no channel for its
/// output, and is queued exactly if the slot takes it.
pub proof fn law_send_goes_through_the_slot<W: Work>(
    handle: WorkerHandle<W>,
    job: W::Input,
    outcome: Result<(), JobError>,
)
    requires
        call_ensures(WorkerHandle::<W>::send, (handle, job), outcome),
    ensures
        exists|sent: Result<(), Task<W>>|
            {
                &&& #[trigger] call_ensures(
                    oneshot::Sender::<Task<W>>::send,
                    (handle@, (job, None)),
                    sent,
                )
                &&& sent is Ok <==> outcome is Ok
                &&& sent is Err <==> outcome == Err::<(), JobError>(JobError::NotQueued)
            },
{
    let sent = choose|sent: Result<(), Task<W>>| #[trigger]
        hands_over::<W>(handle@, (job, None), sent) && outcome
            == queue_outcome(sent);
    assert(call_ensures(oneshot::Sender::<Task<W>>::send, (handle@, (job, None)), sent));
}

/// A job that is run goes through the handle's slot with one end of a fresh
/// channel, and the other end is what its sender waits on. There is something to
/// wait on exactly if the slot takes the job.
pub proof fn law_run_goes_through_the_slot<W: Work>(
    handle: WorkerHandle<W>,
    job: W::Input,
    outcome: Result<PendingOutput<W>, JobError>,
)
    requires
        call_ensures(WorkerHandle::<W>::run, (handle, job), outcome),
    ensures
        exists|
            reply: oneshot::Sender<W::Output>,
            receiver: oneshot::Receiver<W::Output>,
            sent: Result<(), Task<W>>,
        |
            {
                &&& #[trigger] call_ensures(oneshot::channel::<W::Output>, (), (reply, receiver))
                &&& #[trigger] call_ensures(
                    oneshot::Sender::<Task<W>>::send,
                    (handle@, (job, Some(reply))),
                    sent,
                )
                &&& sent is Ok ==> outcome is Ok && outcome->Ok_0@ == receiver
                &&& sent is Err ==> outcome == Err::<PendingOutput<W>, JobError>(
                    JobError::NotQueued,
                )
            },
{
    let (reply, receiver, sent) = choose|
        reply: oneshot::Sender<W::Output>,
        receiver: oneshot::Receiver<W::Output>,
        sent: Result<(), Task<W>>,
    |
        {
            &&& #[trigger] call_ensures(oneshot::channel::<W::Output>, (), (reply, receiver))
            &&& #[trigger] hands_over::<W>(handle@, (job, Some(reply)), sent)
            &&& match queue_outcome(sent) {
                Ok(_) => outcome matches Ok(pending) && pending@ == receiver,
                Err(error) => outcome == Err::<PendingOutput<W>, JobError>(error),
            }
        };
    assert(call_ensures(oneshot::channel::<W::Output>, (), (reply, receiver)));
    assert(call_ensures(
        oneshot::Sender::<Task<W>>::send,
        (handle@, (job, Some(reply))),
        sent,
    ));
}

/// A look for an output gives an output that was sent back, or an error where none
/// ever is, or nothing yet, and then the channel is still there to look at.
pub proof fn law_look_for_output<W: Work>(
    pending: PendingOutput<W>,
    waker: Waker,
    reply: Reply<W>,
)
    requires
        call_ensures(PendingOutput::<W>::poll, (pending, &waker), reply),
    ensures
        match reply {
            Reply::Pending(still) => still@ == pending@,
            Reply::Ready(Ok(output)) => was_sent(pending@, output),
            Reply::Ready(Err(error)) => error is NoReply && never_sent(pending@),
        },
        exists|resolution: Resolution<W::Output>|
            {
                &&& #[trigger] resolves(pending@, waker, resolution)
                &&& match reply {
                    Reply::Pending(_) => resolution is Pending,
                    Reply::Ready(Ok(output)) => resolution == Resolution::Ready(
                        Ok::<W::Output, oneshot::error::RecvError>(output),
                    ),
                    Reply::Ready(Err(error)) => resolution == Resolution::Ready(
                        Err::<W::Output, oneshot::error::RecvError>(error->NoReply_0),
                    ),
                }
            },
{
}

/// The result of a job that was run is a value that was sent, and taken, through
/// the channel that went out with the job.
pub proof fn law_result_came_through_the_jobs_channel<W: Work>(
    handle: WorkerHandle<W>,
    job: W::Input,
    started: PendingOutput<W>,
    pending: PendingOutput<W>,
    waker: Waker,
    output: W::Output,
)
    requires
        call_ensures(WorkerHandle::<W>::run, (handle, job), Ok(started)),
        pending@ == started@,
        call_ensures(
            PendingOutput::<W>::poll,
            (pending, &waker),
            Reply::<W>::Ready(Ok::<W::Output, JobError>(output)),
        ),
    ensures
        exists|
            reply: oneshot::Sender<W::Output>,
            sent: Result<(), Task<W>>,
            back: Result<(), W::Output>,
        |
            {
                &&& #[trigger] call_ensures(
                    oneshot::Sender::<Task<W>>::send,
                    (handle@, (job, Some(reply))),
                    sent,
                )
                &&& #[trigger] call_ensures(
                    oneshot::Sender::<W::Output>::send,
                    (reply, output),
                    back,
                )
                &&& sent is Ok
                &&& back is Ok
            },
{
    law_run_goes_through_the_slot(handle, job, Ok(started));
    law_look_for_output(pending, waker, Reply::<W>::Ready(Ok::<W::Output, JobError>(output)));
    let (reply, receiver, sent) = choose|
        reply: oneshot::Sender<W::Output>,
        receiver: oneshot::Receiver<W::Output>,
        sent: Result<(), Task<W>>,
    |
        {
            &&& #[trigger] call_ensures(oneshot::channel::<W::Output>, (), (reply, receiver))
            &&& #[trigger] call_ensures(
                oneshot::Sender::<Task<W>>::send,
                (handle@, (job, Some(reply))),
                sent,
            )
            &&& sent is Ok ==> started@ == receiver
            &&& sent is Err ==> Ok::<PendingOutput<W>, JobError>(started) == Err::<
                PendingOutput<W>,
                JobError,
            >(JobError::NotQueued)
        };
    let back = choose|back: Result<(), W::Output>|
        #[trigger] call_ensures(oneshot::Sender::<W::Output>::send, (reply, output), back) && back
            is Ok;
    assert(call_ensures(oneshot::Sender::<W::Output>::send, (reply, output), back));
}

/// A look for a free worker takes at most one slot out of the channel, the foremost
/// of those that come out of it, and leaves the others in their order. Where it
/// gives no handle it takes none. It leaves the count and the notifier alone.
pub proof fn law_get_gives_out_the_foremost<W: Work, G: Gauge>(
    before: WorkerPool<W, G>,
    got: Progress<Option<WorkerHandle<W>>>,
    after: WorkerPool<W, G>,
    slots: Seq<WorkerSlot<W>>,
    end: mpsc::Receiver<WorkerSlot<W>>,
)
    requires
        exists|pool: &mut WorkerPool<W, G>, waker: Waker|
            {
                &&& *pool == before
                &&& *final(pool) == after
                &&& #[trigger] call_ensures(WorkerPool::<W, G>::get, (pool, &waker), got)
            },
        before@.receiver is Some ==> comes_out(before@.receiver->0, slots, end),
    ensures
        before@.receiver is None ==> {
            &&& after@ == before@
            &&& got == Progress::Ready(None::<WorkerHandle<W>>)
        },
        before@.receiver is Some ==> {
            &&& after@.receiver is Some
            &&& match got {
                Progress::Ready(Some(handle)) => slots.len() > 0 ==> {
                    &&& handle@ == slots[0]
                    &&& comes_out(after@.receiver->0, slots.drop_first(), end)
                },
                _ => after@.receiver == before@.receiver,
            }
        },
        forall|alive: usize| after@.size.reads(alive) <==> before@.size.reads(alive),
        after@.size == before@.size,
        after@.notify == before@.notify,
{
}

/// A look for a free worker is one poll of the channel: it has to wait exactly if
/// the poll does, finds none for good exactly if the poll does, and otherwise gives
/// a handle on the slot that came.
pub proof fn law_get_is_one_poll<W: Work, G: Gauge>(
    before: WorkerPool<W, G>,
    waker: Waker,
    got: Progress<Option<WorkerHandle<W>>>,
    after: WorkerPool<W, G>,
)
    requires
        exists|pool: &mut WorkerPool<W, G>|
            {
                &&& *pool == before
                &&& *final(pool) == after
                &&& #[trigger] call_ensures(WorkerPool::<W, G>::get, (pool, &waker), got)
            },
        before@.receiver is Some,
    ensures
        after@.receiver is Some,
        exists|found: Progress<Option<WorkerSlot<W>>>|
            {
                &&& #[trigger] receives(
                    before@.receiver->0,
                    waker,
                    after@.receiver->0,
                    found,
                )
                &&& match got {
                    Progress::Pending => found is Pending,
                    Progress::Ready(None) => found == Progress::Ready(None::<WorkerSlot<W>>),
                    Progress::Ready(Some(handle)) => found == Progress::Ready(Some(handle@)),
                }
            },
{
}

/// The slots of the handles among what looks for a free worker gave, in order.
pub open spec fn given_out<W: Work>(gots: Seq<Progress<Option<WorkerHandle<W>>>>) -> Seq<
    WorkerSlot<W>,
>
    decreases gots.len(),
{
    if gots.len() == 0 {
        Seq::empty()
    } else {
        let given = given_out(gots.drop_last());
        match gots.last() {
            Progress::Ready(Some(handle)) => given.push(handle@),
            _ => given,
        }
    }
}

/// Looks for a free worker, one after another, give out the foremost slots, each
/// once and in the order in which they come, and what is left is the others: none
/// is lost and none is passed over.
pub proof fn law_gets_lose_no_slot<W: Work, G: Gauge>(
    pools: Seq<WorkerPool<W, G>>,
    gots: Seq<Progress<Option<WorkerHandle<W>>>>,
    slots: Seq<WorkerSlot<W>>,
    end: mpsc::Receiver<WorkerSlot<W>>,
)
    requires
        pools.len() == gots.len() + 1,
        forall|i: int|
            #![trigger pools[i]]
            0 <= i < gots.len() ==> exists|pool: &mut WorkerPool<W, G>, waker: Waker|
                {
                    &&& *pool == pools[i]
                    &&& *final(pool) == pools[i + 1]
                    &&& #[trigger] call_ensures(WorkerPool::<W, G>::get, (pool, &waker), gots[i])
                },
        pools[0]@.receiver is Some,
        comes_out(pools[0]@.receiver->0, slots, end),
        given_out(gots).len() <= slots.len(),
    ensures
        pools.last()@.receiver is Some,
        given_out(gots) == slots.take(given_out(gots).len() as int),
        comes_out(
            pools.last()@.receiver->0,
            slots.skip(given_out(gots).len() as int),
            end,
        ),
        pools.last()@.size == pools[0]@.size,
    decreases gots.len(),
{
    if gots.len() == 0 {
        assert(slots.skip(0) =~= slots);
    } else {
        let earlier = gots.drop_last();
        let n = gots.len() - 1;
        let there = pools.drop_last();
        assert forall|i: int|
            #![trigger there[i]]
            0 <= i < earlier.len() implies exists|pool: &mut WorkerPool<W, G>, waker: Waker|
                {
                    &&& *pool == there[i]
                    &&& *final(pool) == there[i + 1]
                    &&& #[trigger] call_ensures(
                        WorkerPool::<W, G>::get,
                        (pool, &waker),
                        earlier[i],
                    )
                } by {
            assert(there[i] == pools[i] && earlier[i] == gots[i]);
            assert(there[i + 1] == pools[i + 1]);
        }
        law_gets_lose_no_slot(there, earlier, slots, end);
        let given = given_out(earlier).len() as int;
        let left = slots.skip(given);
        assert(pools[n] == there.last());
        let before = pools[n];
        let after = pools[n + 1];
        assert(before@.receiver is Some);
        law_get_gives_out_the_foremost(before, gots[n], after, left, end);
        if let Progress::Ready(Some(handle)) = gots[n] {
            assert(given_out(gots) =~= slots.take(given + 1));
            assert(left.drop_first() =~= slots.skip(given + 1));
        }
    }
}

/// A new pool has as many workers as it was asked for, and the number that its
/// count was opened at is theirs: all of them are counted, by that one count. They
/// send their slots into the pool's channel, which holds one of each, and tell the
/// pool's notifier.
pub proof fn law_new_pool_counts_its_workers<W: Work>(
    work: W,
    size: usize,
    made: (WorkerPool<W>, Vec<Worker<W>>),
)
    requires
        call_ensures(WorkerPool::<W>::new, (work, size), made),
    ensures
        made.1@.len() == size,
        call_ensures(AtomicUsize::new, (size,), *made.0@.size),
        forall|i: int|
            0 <= i < made.1@.len() ==> (#[trigger] made.1@[i])@.count == made.0@.size
                && made.1@[i]@.notify == made.0@.notify && call_ensures(
                W::clone,
                (&work,),
                made.1@[i]@.work,
            ),
        made.0@.receiver is Some,
        has_capacity(made.0@.receiver->0, size),
        exists|sender: mpsc::Sender<WorkerSlot<W>>|
            {
                &&& #[trigger] call_ensures(
                    mpsc::channel::<WorkerSlot<W>>,
                    (size,),
                    (sender, made.0@.receiver->0),
                )
                &&& forall|i: int|
                    0 <= i < made.1@.len() ==> (#[trigger] made.1@[i])@.sender == sender
            },
{
    let sender = choose|sender: mpsc::Sender<WorkerSlot<W>>| #[trigger]
        opens(made.0@, size, sender) && staffed(made.1@, made.0@, work, size, sender);
    assert(call_ensures(
        mpsc::channel::<WorkerSlot<W>>,
        (size,),
        (sender, made.0@.receiver->0),
    ));
}

/// The number of living workers is what the pool's own count is found at.
pub proof fn law_worker_count_is_the_count<W: Work>(pool: WorkerPool<W>, alive: usize)
    requires
        call_ensures(WorkerPool::<W>::worker_count, (&pool,), alive),
    ensures
        call_ensures(AtomicUsize::load, (&*pool@.size, Ordering::Acquire), alive),
{
}

/// A look at any count finds what that count may be read as.
pub proof fn law_worker_count_reads_any_count<W: Work, G: Gauge>(
    pool: WorkerPool<W, G>,
    alive: usize,
)
    requires
        call_ensures(WorkerPool::<W, G>::worker_count, (&pool,), alive),
    ensures
        pool@.size.reads(alive),
{
}

/// Draining leaves the count, whatever count it is, and the notifier alone: the
/// same numbers can be read from it before and after. It drops every slot that is
/// in the channel, which is closed first so that no more come.
pub proof fn law_drain_keeps_the_count<W: Work, G: Gauge>(
    before: WorkerPool<W, G>,
    size: usize,
    after: WorkerPool<W, G>,
)
    requires
        exists|pool: &mut WorkerPool<W, G>|
            {
                &&& *pool == before
                &&& *final(pool) == after
                &&& #[trigger] call_ensures(WorkerPool::<W, G>::drain, (pool,), ())
            },
    ensures
        after@.receiver is None,
        after@.size == before@.size,
        after@.notify == before@.notify,
        forall|alive: usize| after@.size.reads(alive) <==> before@.size.reads(alive),
        before@.receiver is Some && has_capacity(before@.receiver->0, size) ==> exists|
            closed: mpsc::Receiver<WorkerSlot<W>>,
            slots: Seq<WorkerSlot<W>>,
            last: mpsc::Receiver<WorkerSlot<W>>,
        |
            {
                &&& #[trigger] closes_into(before@.receiver->0, closed)
                &&& #[trigger] comes_out(closed, slots, last)
                &&& slots.len() < size ==> takes(last, last, None)
                &&& slots.len() <= size
            },
{
    if before@.receiver is Some && has_capacity(before@.receiver->0, size) {
        law_letting_go_leaves_nothing(before@.receiver->0, size);
    }
}

/// Closing a pool drains it and leaves its count alone, whatever count it is, so
/// that the wait which follows waits for the workers that were alive before. That
/// wait begins with registering.
pub proof fn law_close_keeps_the_count<W: Work, G: Gauge>(
    pool: WorkerPool<W, G>,
    size: usize,
    closing: (WorkerPool<W, G>, WaitStep),
)
    requires
        call_ensures(WorkerPool::<W, G>::close, (pool,), closing),
    ensures
        closing.0@.receiver is None,
        closing.0@.size == pool@.size,
        closing.0@.notify == pool@.notify,
        forall|alive: usize| closing.0@.size.reads(alive) <==> pool@.size.reads(alive),
        closing.1 == WaitStep::Register,
        pool@.receiver is Some && has_capacity(pool@.receiver->0, size) ==> exists|
            closed: mpsc::Receiver<WorkerSlot<W>>,
            slots: Seq<WorkerSlot<W>>,
            last: mpsc::Receiver<WorkerSlot<W>>,
        |
            {
                &&& #[trigger] closes_into(pool@.receiver->0, closed)
                &&& #[trigger] comes_out(closed, slots, last)
                &&& slots.len() < size ==> takes(last, last, None)
                &&& slots.len() <= size
            },
{
    if pool@.receiver is Some && has_capacity(pool@.receiver->0, size) {
        law_letting_go_leaves_nothing(pool@.receiver->0, size);
    }
}

/// A pool that is given up is drained, keeps its count, whatever count it is, and
/// tells how many workers that count is then found at, unless it is at zero.
pub proof fn law_abandon_tells_who_still_runs<W: Work, G: Gauge>(
    before: WorkerPool<W, G>,
    size: usize,
    running: Option<usize>,
    after: WorkerPool<W, G>,
)
    requires
        exists|pool: &mut WorkerPool<W, G>|
            {
                &&& *pool == before
                &&& *final(pool) == after
                &&& #[trigger] call_ensures(WorkerPool::<W, G>::abandon, (pool,), running)
            },
    ensures
        after@.receiver is None,
        after@.size == before@.size,
        after@.notify == before@.notify,
        match running {
            Some(alive) => alive > 0 && before@.size.reads(alive),
            None => before@.size.reads(0),
        },
        before@.receiver is Some && has_capacity(before@.receiver->0, size) ==> exists|
            closed: mpsc::Receiver<WorkerSlot<W>>,
            slots: Seq<WorkerSlot<W>>,
            last: mpsc::Receiver<WorkerSlot<W>>,
        |
            {
                &&& #[trigger] closes_into(before@.receiver->0, closed)
                &&& #[trigger] comes_out(closed, slots, last)
                &&& slots.len() < size ==> takes(last, last, None)
                &&& slots.len() <= size
            },
{
    if before@.receiver is Some && has_capacity(before@.receiver->0, size) {
        law_letting_go_leaves_nothing(before@.receiver->0, size);
    }
}

/// A wait is over exactly if it was, or if no worker is found alive after
/// registering. It sleeps only after registering, while a worker is alive, and
/// registers again after each sleep.
pub proof fn law_wait_step(done: WaitStep, alive: usize, next: WaitStep)
    requires
        call_ensures(wait_step, (done, alive), next),
    ensures
        next is Done <==> done is Done || done is Register && alive == 0,
        next is Sleep <==> done is Register && alive > 0,
        next is Register <==> done is Sleep,
{
}

/// A waiting task goes by the pool's own count: it stops after registering only if
/// that count can be read as zero, and sleeps only if it can be read as more.
pub proof fn law_wait_goes_by_the_count<W: Work, G: Gauge>(
    pool: WorkerPool<W, G>,
    done: WaitStep,
    next: WaitStep,
)
    requires
        call_ensures(WorkerPool::<W, G>::wait, (&pool, done), next),
    ensures
        done is Register && next is Done ==> pool@.size.reads(0),
        done is Register && next is Sleep ==> exists|alive: usize| #[trigger]
            pool@.size.reads(alive) && alive > 0,
        done is Register ==> next is Done || next is Sleep,
        done is Sleep ==> next is Register,
        done is Done ==> next is Done,
{
}

/// Where a count can only be read as one number, that is the number of living
/// workers, before a pool is closed and after, and the wait ends after registering
/// exactly if it is zero.
pub proof fn law_close_does_not_shorten_the_wait<W: Work, G: Gauge>(
    pool: WorkerPool<W, G>,
    number: usize,
    closing: (WorkerPool<W, G>, WaitStep),
    alive: usize,
    next: WaitStep,
)
    requires
        forall|alive: usize| #[trigger] pool@.size.reads(alive) ==> alive == number,
        call_ensures(WorkerPool::<W, G>::close, (pool,), closing),
        call_ensures(WorkerPool::<W, G>::worker_count, (&closing.0,), alive),
        call_ensures(WorkerPool::<W, G>::wait, (&closing.0, closing.1), next),
    ensures
        alive == number,
        next is Done <==> number == 0,
        next is Sleep <==> number > 0,
{
}

/// A look for a free worker that finds none for good is the last that can find
/// any: no slot comes out of the channel any more.
pub proof fn law_none_is_for_good<W: Work, G: Gauge>(
    before: WorkerPool<W, G>,
    after: WorkerPool<W, G>,
    got: Progress<Option<WorkerHandle<W>>>,
    later: WorkerPool<W, G>,
)
    requires
        exists|pool: &mut WorkerPool<W, G>, waker: Waker|
            {
                &&& *pool == before
                &&& *final(pool) == after
                &&& #[trigger] call_ensures(
                    WorkerPool::<W, G>::get,
                    (pool, &waker),
                    Progress::Ready(None::<WorkerHandle<W>>),
                )
            },
        exists|pool: &mut WorkerPool<W, G>, waker: Waker|
            {
                &&& *pool == after
                &&& *final(pool) == later
                &&& #[trigger] call_ensures(WorkerPool::<W, G>::get, (pool, &waker), got)
            },
    ensures
        !(got matches Progress::Ready(Some(_))),
        after@.receiver matches Some(receiver) ==> forall|
            slots: Seq<WorkerSlot<W>>,
            end: mpsc::Receiver<WorkerSlot<W>>,
        | #[trigger] comes_out(receiver, slots, end) ==> slots.len() == 0,
{
}

/// A worker starts with a guard on its own share of the count and on its notifier,
/// and by offering one end of a fresh slot, the other end of which it keeps.
pub proof fn law_worker_starts_by_offering<W: Work, H: Share>(
    worker: Worker<W, H>,
    started: (WorkerGuard<H>, WorkerAction<W>),
)
    requires
        call_ensures(Worker::<W, H>::run, (worker,), started),
    ensures
        started.0@.count == worker@.count,
        started.0@.notify == worker@.notify,
        started.1 matches WorkerAction::Offer(offering, slot) && {
            &&& call_ensures(oneshot::channel::<Task<W>>, (), (slot, offering@.job))
            &&& offering@.seat.work == worker@.work
            &&& offering@.seat.sender == worker@.sender
        },
{
}

/// A seated worker offers one end of a fresh slot and keeps the other.
pub proof fn law_offer_is_fresh<W: Work>(seat: Seat<W>, action: WorkerAction<W>)
    requires
        call_ensures(Seat::<W>::offer, (seat,), action),
    ensures
        action matches WorkerAction::Offer(offering, slot) && {
            &&& call_ensures(oneshot::channel::<Task<W>>, (), (slot, offering@.job))
            &&& offering@.seat.work == seat@.work
            &&& offering@.seat.sender == seat@.sender
        },
{
}

/// A task that a slot brought is run, with the job, the work and the channel for
/// the output just as they are. A slot that was dropped is followed by a fresh one.
pub proof fn law_task_found_is_run<W: Work>(
    seat: Seat<W>,
    result: Result<Task<W>, oneshot::error::RecvError>,
    action: WorkerAction<W>,
)
    requires
        call_ensures(Seat::<W>::resolved, (seat, result), action),
    ensures
        match result {
            Ok(task) => action matches WorkerAction::Execute(working, work, input) && {
                &&& input == task.0
                &&& working@.reply == task.1
                &&& work == seat@.work
                &&& working@.sender == seat@.sender
            },
            Err(_) => action matches WorkerAction::Offer(offering, slot) && {
                &&& call_ensures(oneshot::channel::<Task<W>>, (), (slot, offering@.job))
                &&& offering@.seat.work == seat@.work
                &&& offering@.seat.sender == seat@.sender
            },
        },
{
}

/// A worker that parts runs the task that it still has, and exits exactly if it has
/// none.
pub proof fn law_parting_runs_what_is_left<W: Work>(
    seat: Seat<W>,
    last: Option<Task<W>>,
    action: WorkerAction<W>,
)
    requires
        call_ensures(Seat::<W>::parting, (seat, last), action),
    ensures
        match last {
            Some(task) => action matches WorkerAction::Execute(working, work, input) && {
                &&& input == task.0
                &&& working@.reply == task.1
                &&& work == seat@.work
                &&& working@.sender == seat@.sender
            },
            None => action matches WorkerAction::Exit(left) && {
                &&& left@.work == seat@.work
                &&& left@.sender == seat@.sender
            },
        },
{
}

/// A worker listens on the slot that it offered if the pool's channel took it, and
/// exits exactly if the channel refused it.
pub proof fn law_offered_slot_is_listened_on<W: Work>(
    offering: Offering<W>,
    sent: Result<(), mpsc::error::SendError<WorkerSlot<W>>>,
    action: WorkerAction<W>,
)
    requires
        call_ensures(Offering::<W>::offered, (offering, sent), action),
    ensures
        match sent {
            Ok(_) => action matches WorkerAction::Listen(listening) && {
                &&& listening@.job == offering@.job
                &&& listening@.seat.work == offering@.seat.work
                &&& listening@.seat.sender == offering@.seat.sender
            },
            Err(_) => action matches WorkerAction::Exit(seat) && {
                &&& seat@.work == offering@.seat.work
                &&& seat@.sender == offering@.seat.sender
            },
        },
{
}

/// A look at a slot drops no task: a worker that runs a task runs one that was sent
/// to its slot, one that offers a fresh slot had one to which none ever is, and one
/// that heard nothing still has its slot. It does nothing else.
pub proof fn law_look_at_slot_drops_no_task<W: Work>(
    listening: Listening<W>,
    waker: Waker,
    heard: Heard<W>,
)
    requires
        call_ensures(Listening::<W>::poll, (listening, &waker), heard),
    ensures
        match heard {
            Heard::Resolved(WorkerAction::Execute(working, work, input)) => {
                &&& was_sent(listening@.job, (input, working@.reply))
                &&& work == listening@.seat.work
                &&& working@.sender == listening@.seat.sender
            },
            Heard::Resolved(WorkerAction::Offer(offering, slot)) => {
                &&& never_sent(listening@.job)
                &&& call_ensures(oneshot::channel::<Task<W>>, (), (slot, offering@.job))
                &&& offering@.seat == listening@.seat
            },
            Heard::Nothing(unheard) => unheard@ == listening@,
            Heard::Resolved(_) => false,
        },
        exists|resolution: Resolution<Task<W>>|
            {
                &&& #[trigger] resolves(listening@.job, waker, resolution)
                &&& resolution is Pending <==> heard is Nothing
            },
{
}

/// A worker that finds the pool's channel closed exits only if no task was, or will
/// be, taken by its slot, and otherwise runs the task that was.
pub proof fn law_exit_drops_no_task<W: Work>(unheard: Unheard<W>, action: WorkerAction<W>)
    requires
        call_ensures(Unheard::<W>::closed, (unheard,), action),
    ensures
        match action {
            WorkerAction::Execute(working, work, input) => {
                &&& was_sent(unheard@.job, (input, working@.reply))
                &&& work == unheard@.seat.work
                &&& working@.sender == unheard@.seat.sender
            },
            WorkerAction::Exit(seat) => {
                &&& never_sent(unheard@.job)
                &&& seat@ == unheard@.seat
            },
            _ => false,
        },
{
}

/// A worker that finds the pool's channel open goes on listening on the same slot.
pub proof fn law_open_channel_keeps_the_slot<W: Work>(unheard: Unheard<W>, listening: Listening<W>)
    requires
        call_ensures(Unheard::<W>::open, (unheard,), listening),
    ensures
        listening@.job == unheard@.job,
        listening@.seat.work == unheard@.seat.work,
        listening@.seat.sender == unheard@.seat.sender,
{
}

/// The output of a job is sent through the channel that came with it, whatever the
/// output is, and the worker offers a fresh slot with the work as the job left it.
pub proof fn law_output_is_sent<W: Work>(
    working: Working<W>,
    work: W,
    output: W::Output,
    action: WorkerAction<W>,
)
    requires
        call_ensures(Working::<W>::finished, (working, work, output), action),
    ensures
        working@.reply matches Some(reply) ==> exists|sent: Result<(), W::Output>|
            #[trigger] call_ensures(oneshot::Sender::<W::Output>::send, (reply, output), sent),
        action matches WorkerAction::Offer(offering, slot) && {
            &&& call_ensures(oneshot::channel::<Task<W>>, (), (slot, offering@.job))
            &&& offering@.seat.work == work
            &&& offering@.seat.sender == working@.sender
        },
{
}

/// A worker that leaves lowers its own count, whatever count it is, and its exit is
/// announced to its own notifier.
pub proof fn law_leaving_lowers_the_count<H: Share>(
    guard: WorkerGuard<H>,
    departure: Departure<H>,
)
    requires
        call_ensures(WorkerGuard::<H>::leave, (guard,), departure),
        call_ensures(Departure::<H>::announce, (departure,), ()),
    ensures
        guard@.count.lowers(departure@.before),
        departure@.count == guard@.count,
        call_ensures(Notify::notify_one, (&*guard@.notify,), ()),
{
}

/// Releasing a guard is leaving and then announcing that very exit.
pub proof fn law_release_leaves_then_announces<H: Share>(guard: WorkerGuard<H>)
    requires
        call_ensures(WorkerGuard::<H>::release, (guard,), ()),
    ensures
        exists|departure: Departure<H>|
            {
                &&& #[trigger] call_ensures(WorkerGuard::<H>::leave, (guard,), departure)
                &&& call_ensures(Departure::<H>::announce, (departure,), ())
                &&& guard@.count.lowers(departure@.before)
            },
        call_ensures(Notify::notify_one, (&*guard@.notify,), ()),
{
}

/// A worker of a pool is counted by that pool: what it lowers when it leaves, by
/// one, is the pool's own count, and whom it tells is the pool's own notifier.
pub proof fn law_worker_leaves_its_pools_count<W: Work>(
    work: W,
    size: usize,
    made: (WorkerPool<W>, Vec<Worker<W>>),
    i: int,
    started: (WorkerGuard, WorkerAction<W>),
    departure: Departure,
)
    requires
        call_ensures(WorkerPool::<W>::new, (work, size), made),
        0 <= i < made.1@.len(),
        call_ensures(Worker::<W>::run, (made.1@[i],), started),
        call_ensures(WorkerGuard::leave, (started.0,), departure),
        call_ensures(Departure::announce, (departure,), ()),
    ensures
        call_ensures(
            AtomicUsize::fetch_sub,
            (&*made.0@.size, 1usize, Ordering::Release),
            departure@.before,
        ),
        call_ensures(Notify::notify_one, (&*made.0@.notify,), ()),
{
    law_new_pool_counts_its_workers(work, size, made);
}

/// From a slot to its job and back: the task that a worker finds in the slot that
/// it offered is one that was handed over through that very slot and taken.
pub proof fn law_task_was_handed_over<W: Work>(
    seat: Seat<W>,
    offering: Offering<W>,
    slot: WorkerSlot<W>,
    listening: Listening<W>,
    waker: Waker,
    working: Working<W>,
    work: W,
    input: W::Input,
)
    requires
        call_ensures(Seat::<W>::offer, (seat,), WorkerAction::Offer(offering, slot)),
        listening@ == offering@,
        call_ensures(
            Listening::<W>::poll,
            (listening, &waker),
            Heard::Resolved(WorkerAction::Execute(working, work, input)),
        ),
    ensures
        exists|sent: Result<(), Task<W>>|
            #[trigger] call_ensures(
                oneshot::Sender::<Task<W>>::send,
                (slot, (input, working@.reply)),
                sent,
            ) && sent is Ok,
        work == seat@.work,
{
    law_offer_is_fresh(seat, WorkerAction::Offer(offering, slot));
    law_look_at_slot_drops_no_task(
        listening,
        waker,
        Heard::Resolved(WorkerAction::Execute(working, work, input)),
    );
}

/// A worker that exits leaves no task behind: every send to the slot that it offered
/// fails, so whoever tries is told that the job was not queued.
pub proof fn law_exit_leaves_no_task_behind<W: Work>(
    seat: Seat<W>,
    offering: Offering<W>,
    slot: WorkerSlot<W>,
    unheard: Unheard<W>,
    left: Seat<W>,
    task: Task<W>,
    sent: Result<(), Task<W>>,
    outcome: Result<(), JobError>,
)
    requires
        call_ensures(Seat::<W>::offer, (seat,), WorkerAction::Offer(offering, slot)),
        unheard@ == offering@,
        call_ensures(Unheard::<W>::closed, (unheard,), WorkerAction::Exit(left)),
        call_ensures(oneshot::Sender::<Task<W>>::send, (slot, task), sent),
        call_ensures(queued::<Task<W>>, (sent,), outcome),
    ensures
        sent is Err,
        outcome == Err::<(), JobError>(JobError::NotQueued),
{
    law_offer_is_fresh(seat, WorkerAction::Offer(offering, slot));
    law_exit_drops_no_task(unheard, WorkerAction::Exit(left));
}

/// A worker that offers a fresh slot leaves no task in the one before: every send to
/// that one fails.
pub proof fn law_fresh_slot_leaves_no_task_behind<W: Work>(
    seat: Seat<W>,
    offering: Offering<W>,
    slot: WorkerSlot<W>,
    listening: Listening<W>,
    waker: Waker,
    next: Offering<W>,
    fresh: WorkerSlot<W>,
    task: Task<W>,
    sent: Result<(), Task<W>>,
)
    requires
        call_ensures(Seat::<W>::offer, (seat,), WorkerAction::Offer(offering, slot)),
        listening@ == offering@,
        call_ensures(
            Listening::<W>::poll,
            (listening, &waker),
            Heard::Resolved(WorkerAction::Offer(next, fresh)),
        ),
        call_ensures(oneshot::Sender::<Task<W>>::send, (slot, task), sent),
    ensures
        sent is Err,
{
    law_offer_is_fresh(seat, WorkerAction::Offer(offering, slot));
    law_look_at_slot_drops_no_task(
        listening,
        waker,
        Heard::Resolved(WorkerAction::Offer(next, fresh)),
    );
}

/// Where a job that was run has no result, no output was, or will be, sent and taken
/// through the channel that went out with it.
pub proof fn law_no_reply_means_none_was_sent<W: Work>(
    handle: WorkerHandle<W>,
    job: W::Input,
    started: PendingOutput<W>,
    pending: PendingOutput<W>,
    waker: Waker,
    error: JobError,
)
    requires
        call_ensures(WorkerHandle::<W>::run, (handle, job), Ok(started)),
        pending@ == started@,
        call_ensures(
            PendingOutput::<W>::poll,
            (pending, &waker),
            Reply::<W>::Ready(Err::<W::Output, JobError>(error)),
        ),
    ensures
        error is NoReply,
        exists|reply: oneshot::Sender<W::Output>, sent: Result<(), Task<W>>|
            {
                &&& #[trigger] call_ensures(
                    oneshot::Sender::<Task<W>>::send,
                    (handle@, (job, Some(reply))),
                    sent,
                )
                &&& sent is Ok
                &&& forall|output: W::Output, back: Result<(), W::Output>| #[trigger]
                    call_ensures(oneshot::Sender::<W::Output>::send, (reply, output), back) ==> back
                        is Err
            },
{
    law_run_goes_through_the_slot(handle, job, Ok(started));
    law_look_for_output(pending, waker, Reply::<W>::Ready(Err::<W::Output, JobError>(error)));
    let (reply, receiver, sent) = choose|
        reply: oneshot::Sender<W::Output>,
        receiver: oneshot::Receiver<W::Output>,
        sent: Result<(), Task<W>>,
    |
        {
            &&& #[trigger] call_ensures(oneshot::channel::<W::Output>, (), (reply, receiver))
            &&& #[trigger] call_ensures(
                oneshot::Sender::<Task<W>>::send,
                (handle@, (job, Some(reply))),
                sent,
            )
            &&& sent is Ok ==> started@ == receiver
            &&& sent is Err ==> Ok::<PendingOutput<W>, JobError>(started) == Err::<
                PendingOutput<W>,
                JobError,
            >(JobError::NotQueued)
        };
    assert(call_ensures(
        oneshot::Sender::<Task<W>>::send,
        (handle@, (job, Some(reply))),
        sent,
    ));
}

} // verus!
