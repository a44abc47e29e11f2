//! The pool.
use crate::channel::{
    empties, empty, exhausted, foremost, keeps_capacity, lets_go, receive, receives,
    Progress,
};
pub use crate::count::reads;
use crate::count::{Gauge, Open, Share};
use crate::external::has_capacity;
use crate::handle::WorkerHandle;
use crate::protocol::{next_wait_step, WaitStep};
use crate::work::{Work, WorkerSlot};
use crate::worker::{Worker, WorkerView};
use std::sync::atomic::AtomicUsize;
use std::sync::Arc;
use std::task::Waker;
use tokio::sync::{mpsc, Notify};
use vstd::prelude::*;

verus! {

/// A pool of workers that can be configured to do certain "work" with
/// a fixed number of workers.
///
/// A pool that goes out of use is to be closed with [`WorkerPool::close`] and
/// waited for with [`WorkerPool::wait`], or given up with
/// [`WorkerPool::abandon`].
///
/// It is written for every count of workers, which it can look at and not change.
#[verifier::reject_recursive_types(W)]
#[verifier::reject_recursive_types(G)]
pub struct WorkerPool<W: Work, G: Gauge = Arc<AtomicUsize>> {
    receiver: Option<mpsc::Receiver<WorkerSlot<W>>>,
    notify: Arc<Notify>,
    size: G,
}

/// What a [`WorkerPool`] is made of.
#[verifier::reject_recursive_types(W)]
pub struct PoolView<W: Work, G = Arc<AtomicUsize>> {
    /// Where the workers' slots come in, until the pool is drained.
    pub receiver: Option<mpsc::Receiver<WorkerSlot<W>>>,
    /// Who is told that a worker has exited.
    pub notify: Arc<Notify>,
    /// The count of living workers.
    pub size: G,
}

impl<W: Work, G: Gauge> View for WorkerPool<W, G> {
    type V = PoolView<W, G>;

    closed spec fn view(&self) -> PoolView<W, G> {
        PoolView { receiver: self.receiver, notify: self.notify, size: self.size }
    }
}

/// `worker` is one of the workers of `pool`, does a clone of `work`, and sends
/// its slots through `sender`.
pub open spec fn staffs<W: Work, G: Open>(
    worker: WorkerView<W, G::Part>,
    pool: PoolView<W, G>,
    work: W,
    sender: mpsc::Sender<WorkerSlot<W>>,
) -> bool {
    &&& call_ensures(W::clone, (&work,), worker.work)
    &&& worker.sender == sender
    &&& worker.notify == pool.notify
    &&& pool.size.shared(worker.count)
}

/// `workers` are the `size` workers of `pool`, each with its own clone of `work`.
pub open spec fn staffed<W: Work, G: Open>(
    workers: Seq<Worker<W, G::Part>>,
    pool: PoolView<W, G>,
    work: W,
    size: usize,
    sender: mpsc::Sender<WorkerSlot<W>>,
) -> bool where G::Part: Share {
    &&& workers.len() == size
    &&& forall|i: int|
        #![trigger workers[i]]
        0 <= i < size ==> staffs(workers[i]@, pool, work, sender)
}

/// `pool` is as a pool of `size` workers starts out, its slots coming from
/// `sender`: its channel holds one slot of each worker, and its count was opened
/// at `size`.
pub open spec fn opens<W: Work, G: Open>(
    pool: PoolView<W, G>,
    size: usize,
    sender: mpsc::Sender<WorkerSlot<W>>,
) -> bool {
    &&& pool.receiver matches Some(receiver)
    &&& call_ensures(mpsc::channel::<WorkerSlot<W>>, (size,), (sender, receiver))
    &&& has_capacity(receiver, size)
    &&& call_ensures(Notify::new, (), *pool.notify)
    &&& pool.size.opened(size)
}

/// The handle, if any, that a poll for a slot leads to.
pub open spec fn leads_to<W: Work>(
    found: Progress<Option<WorkerSlot<W>>>,
    got: Progress<Option<WorkerHandle<W>>>,
) -> bool {
    match found {
        Progress::Pending => got is Pending,
        Progress::Ready(None) => got == Progress::Ready(None::<WorkerHandle<W>>),
        Progress::Ready(Some(slot)) => got matches Progress::Ready(Some(handle)) && handle@ == slot,
    }
}

/// Turns what a poll for a slot found into a handle.
pub fn handle_for<W: Work>(found: Progress<Option<WorkerSlot<W>>>) -> (got: Progress<
    Option<WorkerHandle<W>>,
>)
    ensures
        leads_to(found, got),
{
    match found {
        Progress::Pending => Progress::Pending,
        Progress::Ready(None) => Progress::Ready(None),
        Progress::Ready(Some(slot)) => Progress::Ready(Some(WorkerHandle::new(slot))),
    }
}

impl<W: Work, G: Gauge + Open> WorkerPool<W, G> where G::Part: Share {
    /// A new pool, and its `size` workers, on a count that it opens for them.
    pub(crate) fn found(work: W, size: usize) -> (made: (WorkerPool<W, G>, Vec<Worker<W, G::Part>>))
        requires
            0 < size <= usize::MAX / 8,
        ensures
            exists|sender: mpsc::Sender<WorkerSlot<W>>| #[trigger]
                opens(made.0@, size, sender) && staffed(made.1@, made.0@, work, size, sender),
    {
        let (sender, receiver) = mpsc::channel(size);
        let notify = Arc::new(Notify::new());
        let (count, parts) = G::open(size);
        let ghost all = parts@;
        let pool = WorkerPool {
            receiver: Some(receiver),
            notify: Arc::clone(&notify),
            size: count,
        };
        let mut parts = parts;
        let mut workers: Vec<Worker<W, G::Part>> = Vec::new();
        let mut hired: usize = 0;
        while hired < size
            invariant
                hired <= size,
                workers@.len() == hired,
                all.len() == size,
                parts@ == all.take(size - hired),
                forall|i: int| 0 <= i < size ==> pool@.size.shared(#[trigger] all[i]),
                notify == pool@.notify,
                forall|i: int|
                    #![trigger workers@[i]]
                    0 <= i < hired ==> staffs(workers@[i]@, pool@, work, sender),
            decreases size - hired,
        {
            if let Some(part) = parts.pop() {
                assert(part == all[size - hired - 1]);
                let worker = Worker::new(
                    work.clone(),
                    sender.clone(),
                    Arc::clone(&notify),
                    part,
                );
                assert(staffs(worker@, pool@, work, sender));
                workers.push(worker);
            }
            hired = hired + 1;
        }
        let made = (pool, workers);
        assert(opens(made.0@, size, sender) && staffed(made.1@, made.0@, work, size, sender));
        made
    }
}

impl<W: Work, G: Gauge> WorkerPool<W, G> {
    /// Polls for the first free worker.
    ///
    /// `Ready(None)` means that all workers have exited (e.g. due to panic or
    /// shutdown) or that the pool has been drained. No handle comes after it.
    pub fn get(&mut self, waker: &Waker) -> (got: Progress<Option<WorkerHandle<W>>>)
        ensures
            old(self)@.receiver is None ==> {
                &&& final(self)@ == old(self)@
                &&& got == Progress::Ready(None::<WorkerHandle<W>>)
            },
            old(self)@.receiver matches Some(before) ==> {
                &&& final(self)@.receiver matches Some(after)
                &&& keeps_capacity(before, after)
                &&& exists|found: Progress<Option<WorkerSlot<W>>>| #[trigger]
                    receives(before, *waker, after, found) && leads_to(found, got)
                &&& match got {
                    Progress::Ready(Some(handle)) => foremost(before, handle@, after),
                    _ => after == before,
                }
                &&& got == Progress::Ready(None::<WorkerHandle<W>>) ==> exhausted(after)
                &&& exhausted(before) ==> exhausted(after) && !(got matches Progress::Ready(
                    Some(_),
                ))
            },
            final(self)@.notify == old(self)@.notify,
            final(self)@.size == old(self)@.size,
    {
        match self.receiver.take() {
            None => Progress::Ready(None),
            Some(receiver) => {
                let (receiver, found) = receive(receiver, waker);
                let ghost seen = found;
                assert(receives(old(self)@.receiver->0, *waker, receiver, seen));
                self.receiver = Some(receiver);
                handle_for(found)
            },
        }
    }

    /// Returns the number of workers still alive (idle or busy).
    pub fn worker_count(&self) -> (alive: usize)
        ensures
            self@.size.reads(alive),
    {
        self.size.look()
    }

    /// Who is notified whenever a worker exits: what a task that waits registers
    /// with, and sleeps on.
    pub fn notifier(&self) -> (notifier: &Notify)
        ensures
            *notifier == *self@.notify,
    {
        &self.notify
    }

    /// Returns true if the pool has been drained (no longer accepting new work).
    pub fn is_drained(&self) -> (drained: bool)
        ensures
            drained == (self@.receiver is None),
    {
        self.receiver.is_none()
    }

    /// Stop accepting new work. Workers will finish their current job and exit.
    /// After draining, [`WorkerPool::get`] finds no worker.
    pub fn drain(&mut self)
        ensures
            old(self)@.receiver is None ==> final(self)@ == old(self)@,
            final(self)@.receiver is None,
            lets_go(old(self)@.receiver),
            final(self)@.notify == old(self)@.notify,
            final(self)@.size == old(self)@.size,
    {
        if let Some(receiver) = self.receiver.take() {
            // The buffered slots are dropped, not only the receiver: the
            // channel is kept alive by the workers' senders, and a worker whose
            // slot stayed in it would wait for ever.
            let (emptied, dropped) = empty(receiver);
            assert(empties(old(self)@.receiver->0, emptied, dropped as nat));
        }
    }

    /// The step that follows `done` in waiting until no worker is alive. The
    /// first step is [`WaitStep::Register`].
    pub fn wait(&self, done: WaitStep) -> (next: WaitStep)
        ensures
            exists|alive: usize| #[trigger]
                self@.size.reads(alive) && next == next_wait_step(done, alive as nat),
    {
        let alive: usize = self.worker_count();
        wait_step(done, alive)
    }

    /// Starts a graceful shutdown: drains the pool, and tells the first step of
    /// the wait that is to follow.
    pub fn close(self) -> (closing: (WorkerPool<W, G>, WaitStep))
        ensures
            closing.0@.receiver is None,
            lets_go(self@.receiver),
            closing.0@.notify == self@.notify,
            closing.0@.size == self@.size,
            closing.1 == WaitStep::Register,
    {
        let mut pool = self;
        pool.drain();
        (pool, WaitStep::Register)
    }

    /// Gives the pool up without waiting: drains it, and tells how many workers
    /// still run after that, if any do.
    pub fn abandon(&mut self) -> (running: Option<usize>)
        ensures
            final(self)@.receiver is None,
            lets_go(old(self)@.receiver),
            final(self)@.notify == old(self)@.notify,
            final(self)@.size == old(self)@.size,
            exists|alive: usize| #[trigger]
                call_ensures(WorkerPool::<W, G>::worker_count, (&*final(self),), alive) && old(
                    self,
                )@.size.reads(alive) && running == (if alive == 0 {
                    None
                } else {
                    Some(alive)
                }),
    {
        self.drain();
        let alive: usize = self.worker_count();
        if alive == 0 {
            None
        } else {
            Some(alive)
        }
    }
}

/// The step that follows `done` in waiting, `alive` workers being alive.
pub fn wait_step(done: WaitStep, alive: usize) -> (next: WaitStep)
    ensures
        next == next_wait_step(done, alive as nat),
{
    match done {
        WaitStep::Register => if alive == 0 {
            WaitStep::Done
        } else {
            WaitStep::Sleep
        },
        WaitStep::Sleep => WaitStep::Register,
        WaitStep::Done => WaitStep::Done,
    }
}

} // verus!
