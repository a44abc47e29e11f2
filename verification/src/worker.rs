//! The worker: its loop, taken one step at a time.
//!
//! A worker's loop alternates between what has to be awaited and what has to be
//! decided. Each [`WorkerAction`] says what to await next and holds the state
//! that takes the answer, so a worker cannot be answered out of turn.
use crate::channel::{
    ends_with, last_look, never_sent, resolve, resolves, unresolved, was_sent, Resolution,
};
pub use crate::count::lowers;
use crate::count::Share;
use crate::protocol::{next_stage, Event, Stage};
use crate::work::{Task, Work, WorkerSlot};
use std::sync::atomic::AtomicUsize;
use std::sync::Arc;
use std::task::Waker;
use tokio::sync::{mpsc, oneshot, Notify};
use vstd::prelude::*;

verus! {

/// A worker that has not started.
///
/// It is written for every count of workers, of which it has one share.
#[verifier::reject_recursive_types(W)]
#[verifier::reject_recursive_types(H)]
pub struct Worker<W: Work, H: Share = Arc<AtomicUsize>> {
    work: W,
    sender: mpsc::Sender<WorkerSlot<W>>,
    notify: Arc<Notify>,
    count: H,
}

/// What a [`Worker`] is made of.
#[verifier::reject_recursive_types(W)]
pub struct WorkerView<W: Work, H = Arc<AtomicUsize>> {
    /// The worker's own clone of the work.
    pub work: W,
    /// Where it sends its slots.
    pub sender: mpsc::Sender<WorkerSlot<W>>,
    /// Whom it tells that it has exited.
    pub notify: Arc<Notify>,
    /// The count of living workers.
    pub count: H,
}

/// A worker's place in the count of living workers.
///
/// It is to be released when the worker's task ends, in whatever way it ends.
#[verifier::reject_recursive_types(H)]
pub struct WorkerGuard<H: Share = Arc<AtomicUsize>> {
    count: H,
    notify: Arc<Notify>,
}

/// What a [`WorkerGuard`] is made of.
pub struct GuardView<H = Arc<AtomicUsize>> {
    /// The count of living workers.
    pub count: H,
    /// Whom to tell.
    pub notify: Arc<Notify>,
}

/// A worker's exit that is still to be announced.
///
/// It carries the count that was lowered for it, and what that stood at before:
/// only a worker that has left the count has one, so a task that is woken by the
/// announcement reads a count without that worker.
#[allow(dead_code)]
#[verifier::reject_recursive_types(H)]
pub struct Departure<H: Share = Arc<AtomicUsize>> {
    count: Ghost<H>,
    before: usize,
    notify: Arc<Notify>,
}

/// What a [`Departure`] is made of.
pub struct DepartureView<H = Arc<AtomicUsize>> {
    /// The count of living workers.
    pub count: H,
    /// What it stood at before the worker left it.
    pub before: usize,
    /// Whom to tell.
    pub notify: Arc<Notify>,
}

/// A running worker between two slots.
#[verifier::reject_recursive_types(W)]
pub struct Seat<W: Work> {
    sender: mpsc::Sender<WorkerSlot<W>>,
    work: W,
}

/// What a [`Seat`] is made of.
#[verifier::reject_recursive_types(W)]
pub struct SeatView<W: Work> {
    /// Where the worker sends its slots.
    pub sender: mpsc::Sender<WorkerSlot<W>>,
    /// The worker's own clone of the work, as its last job left it.
    pub work: W,
}

/// A worker whose slot is on its way to the pool.
#[verifier::reject_recursive_types(W)]
pub struct Offering<W: Work> {
    job: oneshot::Receiver<Task<W>>,
    seat: Seat<W>,
}

/// A worker whose slot is with the pool.
#[verifier::reject_recursive_types(W)]
pub struct Listening<W: Work> {
    job: oneshot::Receiver<Task<W>>,
    seat: Seat<W>,
}

/// A worker that has just found nothing in its slot.
#[verifier::reject_recursive_types(W)]
pub struct Unheard<W: Work> {
    job: oneshot::Receiver<Task<W>>,
    seat: Seat<W>,
}

/// What a worker with a slot is made of.
#[verifier::reject_recursive_types(W)]
pub struct SlotView<W: Work> {
    /// The end of the slot that the worker keeps.
    pub job: oneshot::Receiver<Task<W>>,
    /// The worker.
    pub seat: SeatView<W>,
}

/// A worker that runs a job.
#[verifier::reject_recursive_types(W)]
pub struct Working<W: Work> {
    reply: Option<oneshot::Sender<W::Output>>,
    sender: mpsc::Sender<WorkerSlot<W>>,
}

/// What a [`Working`] worker is made of.
#[verifier::reject_recursive_types(W)]
pub struct WorkingView<W: Work> {
    /// Where the job's output is to go, if anyone waits for it.
    pub reply: Option<oneshot::Sender<W::Output>>,
    /// Where the worker sends its slots.
    pub sender: mpsc::Sender<WorkerSlot<W>>,
}

/// What a worker does next.
#[verifier::reject_recursive_types(W)]
pub enum WorkerAction<W: Work> {
    /// Send the slot through the worker's sender and answer with
    /// [`Offering::offered`].
    Offer(Offering<W>, WorkerSlot<W>),
    /// Wait with [`Listening::poll`].
    Listen(Listening<W>),
    /// Run the job on the work and answer with [`Working::finished`].
    Execute(Working<W>, W, W::Input),
    /// Leave the loop. The seat is to be dropped once the worker's guard is
    /// released: a pool that finds every sender gone then finds the count at
    /// zero.
    Exit(Seat<W>),
}

/// What a look at a worker's slot brings.
#[verifier::reject_recursive_types(W)]
pub enum Heard<W: Work> {
    /// The slot has been used or dropped, and this is what follows.
    Resolved(WorkerAction<W>),
    /// Nothing yet.
    Nothing(Unheard<W>),
}

impl<W: Work, H: Share> View for Worker<W, H> {
    type V = WorkerView<W, H>;

    closed spec fn view(&self) -> WorkerView<W, H> {
        WorkerView { work: self.work, sender: self.sender, notify: self.notify, count: self.count }
    }
}

impl<H: Share> View for WorkerGuard<H> {
    type V = GuardView<H>;

    closed spec fn view(&self) -> GuardView<H> {
        GuardView { count: self.count, notify: self.notify }
    }
}

impl<H: Share> View for Departure<H> {
    type V = DepartureView<H>;

    closed spec fn view(&self) -> DepartureView<H> {
        DepartureView { count: self.count@, before: self.before, notify: self.notify }
    }
}

impl<W: Work> View for Seat<W> {
    type V = SeatView<W>;

    closed spec fn view(&self) -> SeatView<W> {
        SeatView { sender: self.sender, work: self.work }
    }
}

impl<W: Work> View for Offering<W> {
    type V = SlotView<W>;

    closed spec fn view(&self) -> SlotView<W> {
        SlotView { job: self.job, seat: self.seat@ }
    }
}

impl<W: Work> View for Listening<W> {
    type V = SlotView<W>;

    closed spec fn view(&self) -> SlotView<W> {
        SlotView { job: self.job, seat: self.seat@ }
    }
}

impl<W: Work> View for Unheard<W> {
    type V = SlotView<W>;

    closed spec fn view(&self) -> SlotView<W> {
        SlotView { job: self.job, seat: self.seat@ }
    }
}

impl<W: Work> View for Working<W> {
    type V = WorkingView<W>;

    closed spec fn view(&self) -> WorkingView<W> {
        WorkingView { reply: self.reply, sender: self.sender }
    }
}

impl<W: Work> WorkerAction<W> {
    /// The stage in which the worker awaits the answer.
    pub open spec fn stage(self) -> Stage {
        match self {
            WorkerAction::Offer(_, _) => Stage::Offering,
            WorkerAction::Listen(_) => Stage::Listening,
            WorkerAction::Execute(_, _, _) => Stage::Working,
            WorkerAction::Exit(_) => Stage::Leaving,
        }
    }

    /// A worker seated at `seat` makes a fresh slot, offers one end of it and
    /// keeps the other.
    pub open spec fn offers(self, seat: SeatView<W>) -> bool {
        self matches WorkerAction::Offer(offering, slot) && {
            &&& offering@.seat == seat
            &&& call_ensures(oneshot::channel::<Task<W>>, (), (slot, offering@.job))
        }
    }

    /// What follows for a worker seated at `seat` once its slot has resolved: it
    /// runs the task that came, with its own work, or offers another slot.
    pub open spec fn follows(
        self,
        seat: SeatView<W>,
        result: Result<Task<W>, oneshot::error::RecvError>,
    ) -> bool {
        match result {
            Ok(task) => self matches WorkerAction::Execute(working, work, input) && {
                &&& input == task.0
                &&& work == seat.work
                &&& working@ == (WorkingView::<W> { reply: task.1, sender: seat.sender })
            },
            Err(_) => self.offers(seat),
        }
    }
}

/// `output` was sent to whoever waits for it, if anyone does.
pub open spec fn replies<T>(reply: Option<oneshot::Sender<T>>, output: T) -> bool {
    reply matches Some(sender) ==> exists|sent: Result<(), T>|
        #[trigger] call_ensures(oneshot::Sender::<T>::send, (sender, output), sent)
}

impl<W: Work> Heard<W> {
    /// The stage that the look leaves the worker in.
    pub open spec fn stage(self) -> Stage {
        match self {
            Heard::Resolved(action) => action.stage(),
            Heard::Nothing(_) => Stage::Unheard,
        }
    }

    /// What a worker with the slot `slot` makes of what it found there.
    pub open spec fn tells(self, slot: SlotView<W>, found: Resolution<Task<W>>) -> bool {
        match found {
            Resolution::Pending(_) => {
                &&& self matches Heard::Nothing(unheard)
                &&& unheard@ == slot
                &&& next_stage(Stage::Listening, Event::NothingHeard) == Some(self.stage())
            },
            Resolution::Ready(result) => {
                &&& self matches Heard::Resolved(action)
                &&& action.follows(slot.seat, result)
                &&& next_stage(Stage::Listening, slot_event(result)) == Some(self.stage())
            },
        }
    }
}

/// What the outcome of a slot is to the worker that made it.
pub open spec fn slot_event<T>(result: Result<T, oneshot::error::RecvError>) -> Event {
    match result {
        Ok(_) => Event::TaskArrived,
        Err(_) => Event::SlotDropped,
    }
}

impl<W: Work> Offering<W> {
    #[verifier::type_invariant]
    spec fn wf(self) -> bool {
        unresolved(self.job)
    }
}

impl<W: Work> Listening<W> {
    #[verifier::type_invariant]
    spec fn wf(self) -> bool {
        unresolved(self.job)
    }
}

impl<W: Work> Unheard<W> {
    #[verifier::type_invariant]
    spec fn wf(self) -> bool {
        unresolved(self.job)
    }
}

impl<H: Share> WorkerGuard<H> {
    /// Takes the worker out of the count. That it did so is still to be
    /// announced.
    pub fn leave(self) -> (departure: Departure<H>)
        ensures
            self@.count.lowers(departure@.before),
            departure@.count == self@.count,
            departure@.notify == self@.notify,
    {
        let ghost count = self.count;
        let before: usize = self.count.lower();
        Departure { count: Ghost(count), before, notify: self.notify }
    }

    /// Takes the worker out of the count and then tells the pool.
    ///
    /// Dropping a guard does not release it: what runs a worker's task has to
    /// see to it that this is called when the task ends, by a panic too.
    pub fn release(self)
        ensures
            exists|before: usize| #[trigger] self@.count.lowers(before),
            call_ensures(Notify::notify_one, (&*self@.notify,), ()),
            exists|departure: Departure<H>| #[trigger]
                call_ensures(WorkerGuard::<H>::leave, (self,), departure) && call_ensures(
                    Departure::<H>::announce,
                    (departure,),
                    (),
                ),
    {
        let departure = self.leave();
        let ghost left = departure;
        assert(call_ensures(WorkerGuard::<H>::leave, (self,), left));
        departure.announce();
        assert(call_ensures(Departure::<H>::announce, (left,), ()));
    }
}

impl<H: Share> Departure<H> {
    #[verifier::type_invariant]
    spec fn wf(self) -> bool {
        self.count@.lowers(self.before)
    }

    /// Tells the pool that a worker has left the count.
    pub fn announce(self)
        ensures
            call_ensures(Notify::notify_one, (&*self@.notify,), ()),
    {
        // notify_one() stores a permit if no task waits yet, so a task that is
        // about to wait is woken too. notify_waiters() stores none.
        self.notify.notify_one();
    }
}

impl<W: Work, H: Share> Worker<W, H> {
    /// A worker that does `work`, sends its slots through `sender`, and is one
    /// of those that `count` counts.
    pub fn new(
        work: W,
        sender: mpsc::Sender<WorkerSlot<W>>,
        notify: Arc<Notify>,
        count: H,
    ) -> (worker: Self)
        ensures
            worker@ == (WorkerView { work, sender, notify, count }),
    {
        Worker { work, sender, notify, count }
    }

    /// Starts the worker: its guard, and its first action, which is to offer a
    /// slot.
    pub fn run(self) -> (started: (WorkerGuard<H>, WorkerAction<W>))
        ensures
            started.0@ == (GuardView { count: self@.count, notify: self@.notify }),
            started.1.offers(SeatView { sender: self@.sender, work: self@.work }),
    {
        let guard = WorkerGuard { count: self.count, notify: self.notify };
        let seat = Seat { sender: self.sender, work: self.work };
        (guard, seat.offer())
    }
}

impl<W: Work> Seat<W> {
    /// The top of the worker's loop: a fresh slot is to be offered.
    pub fn offer(self) -> (action: WorkerAction<W>)
        ensures
            action.offers(self@),
    {
        let (slot, job) = oneshot::channel();
        WorkerAction::Offer(Offering { job, seat: self }, slot)
    }

    /// What follows once the worker's slot has resolved.
    pub fn resolved(self, result: Result<Task<W>, oneshot::error::RecvError>) -> (action:
        WorkerAction<W>)
        ensures
            action.follows(self@, result),
            next_stage(Stage::Listening, slot_event(result)) == Some(action.stage()),
    {
        match result {
            Ok((input, reply)) => WorkerAction::Execute(
                Working { reply, sender: self.sender },
                self.work,
                input,
            ),
            Err(_) => self.offer(),
        }
    }

    /// What follows once the pool's channel is closed and the worker has looked
    /// at its slot for the last time: it runs the task that it found, or exits.
    pub fn parting(self, last: Option<Task<W>>) -> (action: WorkerAction<W>)
        ensures
            match last {
                Some(task) => action.follows(self@, Ok(task)),
                None => action matches WorkerAction::Exit(seat) && seat@ == self@,
            },
    {
        match last {
            Some(task) => self.resolved(Ok(task)),
            None => WorkerAction::Exit(self),
        }
    }
}

impl<W: Work> Offering<W> {
    /// Where the slot is to be sent.
    pub fn sender(&self) -> (sender: &mpsc::Sender<WorkerSlot<W>>)
        ensures
            *sender == self@.seat.sender,
    {
        &self.seat.sender
    }

    /// Takes the outcome of sending the slot: the worker listens on it, or exits
    /// if the pool's channel is closed.
    pub fn offered(self, sent: Result<(), mpsc::error::SendError<WorkerSlot<W>>>) -> (action:
        WorkerAction<W>)
        ensures
            sent is Ok ==> (action matches WorkerAction::Listen(listening) && listening@ == self@),
            sent is Err ==> (action matches WorkerAction::Exit(seat) && seat@ == self@.seat),
            sent is Ok ==> next_stage(Stage::Reserved, Event::SlotAccepted) == Some(
                action.stage(),
            ),
            sent is Err ==> next_stage(Stage::Offering, Event::SlotRefused) == Some(
                action.stage(),
            ),
    {
        proof {
            use_type_invariant(&self);
        }
        match sent {
            Ok(_) => WorkerAction::Listen(Listening { job: self.job, seat: self.seat }),
            Err(_) => WorkerAction::Exit(self.seat),
        }
    }
}

impl<W: Work> Listening<W> {
    /// Where the worker's slots go. When that channel closes, a worker that
    /// hears nothing exits.
    pub fn sender(&self) -> (sender: &mpsc::Sender<WorkerSlot<W>>)
        ensures
            *sender == self@.seat.sender,
    {
        &self.seat.sender
    }

    /// Looks at the slot.
    ///
    /// The runtime may cut the look short, and a task may come right after it, so
    /// that nothing was heard does not mean that the slot is empty:
    /// [`Unheard::closed`] looks once more.
    pub fn poll(self, waker: &Waker) -> (heard: Heard<W>)
        ensures
            exists|resolution: Resolution<Task<W>>|
                #![trigger resolves(self@.job, *waker, resolution)]
                {
                    &&& resolves(self@.job, *waker, resolution)
                    &&& heard.tells(self@, resolution)
                    &&& resolution matches Resolution::Ready(Ok(task)) ==> was_sent(
                        self@.job,
                        task,
                    )
                    &&& resolution matches Resolution::Ready(Err(_)) ==> never_sent(self@.job)
                },
    {
        proof {
            use_type_invariant(&self);
        }
        let resolution = resolve(self.job, waker);
        let ghost found = resolution;
        let heard = match resolution {
            Resolution::Pending(job) => Heard::Nothing(Unheard { job, seat: self.seat }),
            Resolution::Ready(result) => Heard::Resolved(self.seat.resolved(result)),
        };
        assert(resolves(self@.job, *waker, found));
        heard
    }
}

impl<W: Work> Unheard<W> {
    /// The pool's channel is closed: the worker exits, unless a last look at its
    /// slot finds a task. From that look on, a task sent to the slot is refused,
    /// so that one that was taken is run, whether or not the pool shuts down.
    pub fn closed(self) -> (action: WorkerAction<W>)
        ensures
            exists|last: Option<Task<W>>| #[trigger]
                ends_with(self@.job, last) && match last {
                    Some(task) => {
                        &&& action.follows(self@.seat, Ok(task))
                        &&& was_sent(self@.job, task)
                        &&& next_stage(Stage::Unheard, Event::TaskFoundLate) == Some(
                            action.stage(),
                        )
                    },
                    None => {
                        &&& action matches WorkerAction::Exit(seat)
                        &&& seat@ == self@.seat
                        &&& never_sent(self@.job)
                        &&& next_stage(Stage::Unheard, Event::ChannelClosed) == Some(
                            action.stage(),
                        )
                    },
                },
    {
        proof {
            use_type_invariant(&self);
        }
        let last = last_look(self.job);
        let ghost found = last;
        let action = self.seat.parting(last);
        assert(ends_with(self@.job, found));
        action
    }

    /// The pool's channel is open: the worker goes on listening.
    pub fn open(self) -> (listening: Listening<W>)
        ensures
            listening@ == self@,
    {
        proof {
            use_type_invariant(&self);
        }
        Listening { job: self.job, seat: self.seat }
    }
}

impl<W: Work> Working<W> {
    /// Takes the work back with the output of its job. The output goes to
    /// whoever waits for it, and the worker offers another slot.
    pub fn finished(self, work: W, output: W::Output) -> (action: WorkerAction<W>)
        ensures
            replies(self@.reply, output),
            action.offers(SeatView { sender: self@.sender, work }),
            next_stage(Stage::Working, Event::JobFinished) == Some(action.stage()),
    {
        if let Some(reply) = self.reply {
            let sent = reply.send(output);
        }
        let seat = Seat { sender: self.sender, work };
        seat.offer()
    }
}

} // verus!
