use std::future::{ready, Ready};
use std::sync::atomic::{AtomicUsize, Ordering};
use std::sync::Arc;
use std::task::{Wake, Waker};

use grid_worker_pool::handle::{queued, result_of};
use grid_worker_pool::pool::{handle_for, wait_step};
use grid_worker_pool::{
    Heard, JobError, Listening, Offering, Progress, Reply, Seat, Unheard, WaitStep, Work, Worker,
    WorkerAction, WorkerGuard, WorkerHandle, WorkerPool, WorkerSlot, Working,
};
use tokio::sync::{mpsc, oneshot, Notify};

/// Counts its own jobs and adds the count to the input.
#[derive(Clone)]
struct Counter {
    jobs: u64,
}

impl Work for Counter {
    type Input = u64;
    type Output = u64;
    type Running<'a> = Ready<u64>;
    fn run<'a>(&'a mut self, input: u64) -> Ready<u64> {
        self.jobs += 1;
        ready(input + self.jobs)
    }
}

struct Bell(AtomicUsize);

impl Wake for Bell {
    fn wake(self: Arc<Self>) {
        self.0.fetch_add(1, Ordering::SeqCst);
    }
}

impl Bell {
    fn new() -> Arc<Bell> {
        Arc::new(Bell(AtomicUsize::new(0)))
    }

    fn rung(&self) -> usize {
        self.0.load(Ordering::SeqCst)
    }
}

fn waker() -> Waker {
    Waker::from(Bell::new())
}

type Started = (WorkerGuard, Offering<Counter>, WorkerSlot<Counter>);

fn pool_of(size: usize) -> (WorkerPool<Counter>, Vec<Started>) {
    let (pool, workers) = WorkerPool::new(Counter { jobs: 0 }, size);
    (pool, workers.into_iter().map(started).collect())
}

fn started(worker: Worker<Counter>) -> Started {
    let (guard, action) = worker.run();
    let (offering, slot) = offered_slot(action);
    (guard, offering, slot)
}

fn offered_slot(action: WorkerAction<Counter>) -> (Offering<Counter>, WorkerSlot<Counter>) {
    match action {
        WorkerAction::Offer(offering, slot) => (offering, slot),
        _ => panic!("the worker should offer a slot"),
    }
}

fn listening(action: WorkerAction<Counter>) -> Listening<Counter> {
    match action {
        WorkerAction::Listen(listening) => listening,
        _ => panic!("the worker should listen"),
    }
}

fn executing(action: WorkerAction<Counter>) -> (Working<Counter>, Counter, u64) {
    match action {
        WorkerAction::Execute(working, work, input) => (working, work, input),
        _ => panic!("the worker should run a job"),
    }
}

fn exiting(action: WorkerAction<Counter>) -> Seat<Counter> {
    match action {
        WorkerAction::Exit(seat) => seat,
        _ => panic!("the worker should exit"),
    }
}

fn resolved(heard: Heard<Counter>) -> WorkerAction<Counter> {
    match heard {
        Heard::Resolved(action) => action,
        Heard::Nothing(_) => panic!("the slot should have resolved"),
    }
}

fn unheard(heard: Heard<Counter>) -> Unheard<Counter> {
    match heard {
        Heard::Nothing(unheard) => unheard,
        Heard::Resolved(_) => panic!("nothing should have come"),
    }
}

/// Sends the slot to the pool, as the worker's task would.
fn send_slot(offering: Offering<Counter>, slot: WorkerSlot<Counter>) -> WorkerAction<Counter> {
    let sent = offering.sender().blocking_send(slot);
    offering.offered(sent)
}

fn take(pool: &mut WorkerPool<Counter>) -> WorkerHandle<Counter> {
    match pool.get(&waker()) {
        Progress::Ready(Some(handle)) => handle,
        _ => panic!("a worker should be free"),
    }
}

/// Runs a job to its end on the worker.
fn finish(working: Working<Counter>, mut work: Counter, input: u64) -> WorkerAction<Counter> {
    let output = work.run(input).into_inner();
    working.finished(work, output)
}

#[test]
fn new_pool_has_its_workers() {
    let (pool, workers) = WorkerPool::new(Counter { jobs: 7 }, 3);
    assert_eq!(workers.len(), 3);
    assert_eq!(pool.worker_count(), 3);
    assert!(!pool.is_drained());
}

#[test]
fn job_and_output_make_the_round_trip() {
    let (mut pool, mut workers) = pool_of(1);
    let (_guard, offering, slot) = workers.pop().unwrap();
    let worker = listening(send_slot(offering, slot));

    let pending = match take(&mut pool).run(40) {
        Ok(pending) => pending,
        Err(_) => panic!("the job should be queued"),
    };
    let pending = match pending.poll(&waker()) {
        Reply::Pending(pending) => pending,
        Reply::Ready(_) => panic!("no output should have come"),
    };

    let (working, work, input) = executing(resolved(worker.poll(&waker())));
    assert_eq!(input, 40);
    let (offering, slot) = offered_slot(finish(working, work, input));
    match pending.poll(&waker()) {
        Reply::Ready(Ok(output)) => assert_eq!(output, 41),
        _ => panic!("the output should have come"),
    }

    // The second job finds the work as the first left it.
    let worker = listening(send_slot(offering, slot));
    let pending = match take(&mut pool).run(40) {
        Ok(pending) => pending,
        Err(_) => panic!("the job should be queued"),
    };
    let (working, work, input) = executing(resolved(worker.poll(&waker())));
    assert_eq!(work.jobs, 1);
    let _again = finish(working, work, input);
    match pending.poll(&waker()) {
        Reply::Ready(Ok(output)) => assert_eq!(output, 42),
        _ => panic!("the output should have come"),
    }
}

#[test]
fn job_sent_without_a_reply_is_run() {
    let (mut pool, mut workers) = pool_of(1);
    let (_guard, offering, slot) = workers.pop().unwrap();
    let worker = listening(send_slot(offering, slot));
    assert!(take(&mut pool).send(5).is_ok());
    let (working, work, input) = executing(resolved(worker.poll(&waker())));
    assert_eq!(input, 5);
    let _again = offered_slot(finish(working, work, input));
}

#[test]
fn each_worker_has_its_own_work() {
    let (mut pool, workers) = pool_of(2);
    let mut seen = Vec::new();
    for (_guard, offering, slot) in workers {
        let worker = listening(send_slot(offering, slot));
        seen.push(worker);
    }
    assert!(take(&mut pool).send(0).is_ok());
    assert!(take(&mut pool).send(0).is_ok());
    for worker in seen {
        let (_working, mut work, _input) = executing(resolved(worker.poll(&waker())));
        assert_eq!(work.jobs, 0);
        assert_eq!(work.run(10).into_inner(), 11);
    }
}

#[test]
fn workers_are_given_out_in_the_order_they_came() {
    let (mut pool, mut workers) = pool_of(2);
    let (_guard_b, offering_b, slot_b) = workers.pop().unwrap();
    let (_guard_a, offering_a, slot_a) = workers.pop().unwrap();
    let worker_b = listening(send_slot(offering_b, slot_b));
    let worker_a = listening(send_slot(offering_a, slot_a));
    assert!(take(&mut pool).send(1).is_ok());
    assert!(take(&mut pool).send(2).is_ok());
    let (_, _, input_b) = executing(resolved(worker_b.poll(&waker())));
    let (_, _, input_a) = executing(resolved(worker_a.poll(&waker())));
    assert_eq!((input_b, input_a), (1, 2));
}

#[test]
fn dropped_handle_frees_the_worker() {
    let (mut pool, mut workers) = pool_of(1);
    let (_guard, offering, slot) = workers.pop().unwrap();
    let worker = listening(send_slot(offering, slot));
    drop(take(&mut pool));
    let (offering, slot) = offered_slot(resolved(worker.poll(&waker())));
    let worker = listening(send_slot(offering, slot));
    assert!(take(&mut pool).send(3).is_ok());
    let (_, _, input) = executing(resolved(worker.poll(&waker())));
    assert_eq!(input, 3);
}

#[test]
fn listening_wakes_when_a_job_comes() {
    let (mut pool, mut workers) = pool_of(1);
    let (_guard, offering, slot) = workers.pop().unwrap();
    let worker = listening(send_slot(offering, slot));
    let bell = Bell::new();
    let worker = unheard(worker.poll(&Waker::from(Arc::clone(&bell)))).open();
    assert_eq!(bell.rung(), 0);
    assert!(take(&mut pool).send(9).is_ok());
    assert_eq!(bell.rung(), 1);
    let (_, _, input) = executing(resolved(worker.poll(&waker())));
    assert_eq!(input, 9);
}

#[test]
fn get_waits_for_a_slot_and_is_woken_by_it() {
    let (mut pool, mut workers) = pool_of(1);
    let bell = Bell::new();
    assert!(matches!(
        pool.get(&Waker::from(Arc::clone(&bell))),
        Progress::Pending
    ));
    let (_guard, offering, slot) = workers.pop().unwrap();
    let _worker = listening(send_slot(offering, slot));
    assert_eq!(bell.rung(), 1);
    let _handle = take(&mut pool);
}

#[test]
fn get_finds_none_when_every_worker_is_gone() {
    let (mut pool, workers) = pool_of(2);
    for (guard, offering, slot) in workers {
        guard.release();
        drop(slot);
        drop(offering);
    }
    assert!(matches!(pool.get(&waker()), Progress::Ready(None)));
    assert_eq!(pool.worker_count(), 0);
    assert!(!pool.is_drained());
    assert!(matches!(pool.get(&waker()), Progress::Ready(None)));
}

#[test]
fn get_waits_as_long_as_one_worker_is_left() {
    let (mut pool, mut workers) = pool_of(2);
    let (guard, offering, slot) = workers.pop().unwrap();
    guard.release();
    drop((offering, slot));
    assert_eq!(pool.worker_count(), 1);
    assert!(matches!(pool.get(&waker()), Progress::Pending));
    let (guard, offering, slot) = workers.pop().unwrap();
    guard.release();
    // The count is at zero, but a sender is left.
    assert_eq!(pool.worker_count(), 0);
    assert!(matches!(pool.get(&waker()), Progress::Pending));
    drop((offering, slot));
    assert!(matches!(pool.get(&waker()), Progress::Ready(None)));
}

#[test]
fn get_finds_none_in_a_drained_pool() {
    let (mut pool, workers) = pool_of(2);
    let mut kept = Vec::new();
    for (guard, offering, slot) in workers {
        kept.push((guard, send_slot(offering, slot)));
    }
    pool.drain();
    assert!(pool.is_drained());
    assert!(matches!(pool.get(&waker()), Progress::Ready(None)));
    pool.drain();
    assert!(pool.is_drained());
    assert!(matches!(pool.get(&waker()), Progress::Ready(None)));
    assert_eq!(pool.worker_count(), 2);
}

#[test]
fn drain_drops_every_buffered_slot() {
    let (mut pool, workers) = pool_of(3);
    let mut kept = Vec::new();
    for (guard, offering, slot) in workers {
        kept.push((guard, listening(send_slot(offering, slot))));
    }
    pool.drain();
    for (guard, worker) in kept {
        // The dropped slot sends the worker round its loop, where it is refused.
        let (offering, slot) = offered_slot(resolved(worker.poll(&waker())));
        let seat = exiting(send_slot(offering, slot));
        guard.release();
        drop(seat);
    }
    assert_eq!(pool.worker_count(), 0);
}

#[test]
fn drain_with_a_buffer_that_is_not_full() {
    let (mut pool, mut workers) = pool_of(3);
    let (_guard, offering, slot) = workers.pop().unwrap();
    let worker = listening(send_slot(offering, slot));
    pool.drain();
    let (offering, slot) = offered_slot(resolved(worker.poll(&waker())));
    let _seat = exiting(send_slot(offering, slot));
    for (_guard, offering, slot) in workers {
        let _seat = exiting(send_slot(offering, slot));
    }
}

#[test]
fn drain_with_an_empty_buffer() {
    let (mut pool, mut workers) = pool_of(1);
    pool.drain();
    let (_guard, offering, slot) = workers.pop().unwrap();
    let _seat = exiting(send_slot(offering, slot));
}

#[test]
fn worker_that_hears_nothing_exits_once_the_channel_is_closed() {
    let (mut pool, mut workers) = pool_of(1);
    let (_guard, offering, slot) = workers.pop().unwrap();
    let worker = listening(send_slot(offering, slot));
    let handle = take(&mut pool);
    pool.drain();
    let _seat = exiting(unheard(worker.poll(&waker())).closed());
    assert!(matches!(handle.send(1), Err(JobError::NotQueued)));
}

#[test]
fn job_that_comes_between_the_two_looks_is_run() {
    let (mut pool, mut workers) = pool_of(1);
    let (_guard, offering, slot) = workers.pop().unwrap();
    let worker = unheard(listening(send_slot(offering, slot)).poll(&waker()));
    let pending = match take(&mut pool).run(30) {
        Ok(pending) => pending,
        Err(_) => panic!("the job should be queued"),
    };
    pool.drain();
    let (working, work, input) = executing(worker.closed());
    assert_eq!(input, 30);
    let (offering, slot) = offered_slot(finish(working, work, input));
    match pending.poll(&waker()) {
        Reply::Ready(Ok(output)) => assert_eq!(output, 31),
        _ => panic!("the output should have come"),
    }
    let _seat = exiting(send_slot(offering, slot));
}

#[test]
fn job_in_an_open_pool_is_heard_at_the_next_look() {
    let (mut pool, mut workers) = pool_of(1);
    let (_guard, offering, slot) = workers.pop().unwrap();
    let worker = unheard(listening(send_slot(offering, slot)).poll(&waker()));
    assert!(take(&mut pool).send(4).is_ok());
    let (_, _, input) = executing(resolved(worker.open().poll(&waker())));
    assert_eq!(input, 4);
}

#[test]
fn job_missed_for_want_of_budget_is_run() {
    let runtime = tokio::runtime::Builder::new_current_thread().build().unwrap();
    let (mut pool, mut workers) = pool_of(1);
    let (_guard, offering, slot) = workers.pop().unwrap();
    let worker = listening(send_slot(offering, slot));
    assert!(take(&mut pool).send(12).is_ok());
    pool.drain();
    let mut worker = Some(worker);
    let action = runtime.block_on(std::future::poll_fn(|cx| {
        // Spend what the runtime lets a task do in one go.
        let mut spent = false;
        while !spent {
            let (sender, mut receiver) = oneshot::channel();
            sender.send(0).unwrap();
            let receiver = std::pin::Pin::new(&mut receiver);
            spent = std::future::Future::poll(receiver, cx).is_pending();
        }
        let worker = worker.take().unwrap();
        std::task::Poll::Ready(unheard(worker.poll(cx.waker())).closed())
    }));
    let (_, _, input) = executing(action);
    assert_eq!(input, 12);
}

#[test]
fn seat_parts_with_what_it_is_given() {
    let (mut pool, workers) = pool_of(2);
    pool.drain();
    let mut seats = Vec::new();
    for (_guard, offering, slot) in workers {
        seats.push(exiting(send_slot(offering, slot)));
    }
    let (_, work, input) = executing(seats.pop().unwrap().parting(Some((6, None))));
    assert_eq!((work.jobs, input), (0, 6));
    let _seat = exiting(seats.pop().unwrap().parting(None));
}

#[test]
fn job_that_has_come_is_run_in_a_drained_pool() {
    let (mut pool, mut workers) = pool_of(1);
    let (_guard, offering, slot) = workers.pop().unwrap();
    let worker = listening(send_slot(offering, slot));
    assert!(take(&mut pool).send(8).is_ok());
    pool.drain();
    let (working, work, input) = executing(resolved(worker.poll(&waker())));
    assert_eq!(input, 8);
    let (offering, slot) = offered_slot(finish(working, work, input));
    let _seat = exiting(send_slot(offering, slot));
}

#[test]
fn job_for_a_lost_worker_is_not_queued() {
    let (mut pool, workers) = pool_of(2);
    for (_guard, offering, slot) in workers {
        drop(send_slot(offering, slot));
    }
    match take(&mut pool).send(1) {
        Err(error) => assert_eq!(error.message(), "failed to queue job"),
        Ok(()) => panic!("the worker is gone"),
    }
    match take(&mut pool).run(1) {
        Err(error) => assert_eq!(error.message(), "failed to queue job"),
        Ok(_) => panic!("the worker is gone"),
    }
}

#[test]
fn output_of_a_lost_worker_does_not_come() {
    let (mut pool, mut workers) = pool_of(1);
    let (_guard, offering, slot) = workers.pop().unwrap();
    let worker = listening(send_slot(offering, slot));
    let pending = match take(&mut pool).run(1) {
        Ok(pending) => pending,
        Err(_) => panic!("the job should be queued"),
    };
    let (working, _, _) = executing(resolved(worker.poll(&waker())));
    drop(working);
    match pending.poll(&waker()) {
        Reply::Ready(Err(error)) => {
            assert!(matches!(error, JobError::NoReply(_)));
            assert_eq!(error.message(), "channel closed");
        }
        _ => panic!("no output can come"),
    }
}

#[test]
fn output_that_nobody_waits_for_is_dropped() {
    let (mut pool, mut workers) = pool_of(1);
    let (_guard, offering, slot) = workers.pop().unwrap();
    let worker = listening(send_slot(offering, slot));
    drop(take(&mut pool).run(1));
    let (working, work, input) = executing(resolved(worker.poll(&waker())));
    let _again = offered_slot(finish(working, work, input));
}

#[test]
fn released_guard_lowers_the_count_and_notifies() {
    let (pool, mut workers) = pool_of(2);
    let bell = Bell::new();
    let bell_waker = Waker::from(Arc::clone(&bell));
    let mut context = std::task::Context::from_waker(&bell_waker);
    let mut notified = Box::pin(pool.notifier().notified());
    assert!(std::future::Future::poll(notified.as_mut(), &mut context).is_pending());

    let (guard, _offering, _slot) = workers.pop().unwrap();
    let departure = guard.leave();
    assert_eq!(pool.worker_count(), 1);
    assert_eq!(bell.rung(), 0);
    departure.announce();
    assert_eq!(bell.rung(), 1);
    assert!(std::future::Future::poll(notified.as_mut(), &mut context).is_ready());
}

#[test]
fn release_before_the_wait_is_not_missed() {
    let (pool, mut workers) = pool_of(1);
    let (guard, _offering, _slot) = workers.pop().unwrap();
    guard.release();
    let mut notified = Box::pin(pool.notifier().notified());
    assert!(notified.as_mut().enable());
    assert_eq!(pool.wait(WaitStep::Register), WaitStep::Done);
}

#[test]
fn wait_registers_before_it_looks() {
    let (pool, mut workers) = pool_of(1);
    assert_eq!(pool.wait(WaitStep::Register), WaitStep::Sleep);
    assert_eq!(pool.wait(WaitStep::Sleep), WaitStep::Register);
    let (guard, _offering, _slot) = workers.pop().unwrap();
    guard.release();
    // A wake-up alone does not end the wait: the task registers again first.
    assert_eq!(pool.wait(WaitStep::Sleep), WaitStep::Register);
    assert_eq!(pool.wait(WaitStep::Register), WaitStep::Done);
    assert_eq!(pool.wait(WaitStep::Done), WaitStep::Done);
}

#[test]
fn wait_steps_from_a_given_count() {
    assert_eq!(wait_step(WaitStep::Register, 0), WaitStep::Done);
    assert_eq!(wait_step(WaitStep::Register, 1), WaitStep::Sleep);
    assert_eq!(wait_step(WaitStep::Sleep, 0), WaitStep::Register);
    assert_eq!(wait_step(WaitStep::Sleep, 2), WaitStep::Register);
    assert_eq!(wait_step(WaitStep::Done, 2), WaitStep::Done);
}

#[test]
fn close_drains_and_starts_a_wait() {
    let (pool, mut workers) = pool_of(1);
    let (guard, offering, slot) = workers.pop().unwrap();
    let worker = listening(send_slot(offering, slot));
    let (pool, first) = pool.close();
    assert!(pool.is_drained());
    assert_eq!(first, WaitStep::Register);
    assert_eq!(pool.wait(first), WaitStep::Sleep);
    let (offering, slot) = offered_slot(resolved(worker.poll(&waker())));
    let _seat = exiting(send_slot(offering, slot));
    guard.release();
    assert_eq!(pool.wait(WaitStep::Register), WaitStep::Done);
}

#[test]
fn abandoned_pool_tells_how_many_workers_run() {
    let (mut pool, mut workers) = pool_of(2);
    assert_eq!(pool.abandon(), Some(2));
    assert!(pool.is_drained());
    let (guard, _offering, _slot) = workers.pop().unwrap();
    guard.release();
    assert_eq!(pool.abandon(), Some(1));
    let (guard, _offering, _slot) = workers.pop().unwrap();
    guard.release();
    assert_eq!(pool.abandon(), None);
}

#[test]
fn outcomes_from_given_results() {
    assert!(queued::<u8>(Ok(())).is_ok());
    assert!(matches!(queued(Err(4)), Err(JobError::NotQueued)));
    assert!(matches!(result_of(Ok(4)), Ok(4)));
    let (sender, mut receiver) = oneshot::channel::<u8>();
    receiver.close();
    drop(sender);
    let error = receiver.blocking_recv().unwrap_err();
    assert!(matches!(result_of::<u8>(Err(error)), Err(JobError::NoReply(_))));
}

#[test]
fn handles_from_given_slots() {
    assert!(matches!(handle_for::<Counter>(Progress::Pending), Progress::Pending));
    assert!(matches!(
        handle_for::<Counter>(Progress::Ready(None)),
        Progress::Ready(None)
    ));
    let (slot, receiver) = oneshot::channel();
    match handle_for::<Counter>(Progress::Ready(Some(slot))) {
        Progress::Ready(Some(handle)) => assert!(handle.send(6).is_ok()),
        _ => panic!("a slot should lead to a handle"),
    }
    let (input, reply) = receiver.blocking_recv().unwrap();
    assert_eq!(input, 6);
    assert!(reply.is_none());
}

#[test]
fn worker_is_what_it_is_made_of() {
    let (sender, mut receiver) = mpsc::channel(1);
    let notify = Arc::new(Notify::new());
    let count = Arc::new(AtomicUsize::new(1));
    let worker = Worker::new(
        Counter { jobs: 20 },
        sender,
        Arc::clone(&notify),
        Arc::clone(&count),
    );
    let (guard, offering, slot) = started(worker);
    let worker = listening(send_slot(offering, slot));
    let slot = receiver.try_recv().unwrap();
    assert!(slot.send((1, None)).is_ok());
    let (_working, work, input) = executing(resolved(worker.poll(&waker())));
    assert_eq!((work.jobs, input), (20, 1));
    guard.release();
    assert_eq!(count.load(Ordering::SeqCst), 0);
}

#[test]
fn busy_workers_never_outnumber_the_pool() {
    let (mut pool, workers) = pool_of(2);
    let mut kept = Vec::new();
    for (guard, offering, slot) in workers {
        kept.push((guard, listening(send_slot(offering, slot))));
    }
    assert!(take(&mut pool).send(1).is_ok());
    assert!(take(&mut pool).send(2).is_ok());
    // Both workers are taken: no third job can be placed.
    assert!(matches!(pool.get(&waker()), Progress::Pending));
}

#[test]
fn handles_that_are_out_count_against_the_pool() {
    let (mut pool, workers) = pool_of(2);
    let mut kept = Vec::new();
    for (_guard, offering, slot) in workers {
        kept.push(listening(send_slot(offering, slot)));
    }
    let first = take(&mut pool);
    let second = take(&mut pool);
    assert!(matches!(pool.get(&waker()), Progress::Pending));
    // A handle stays good for as long as the pool is open.
    assert!(second.send(2).is_ok());
    assert!(first.send(1).is_ok());
    assert!(matches!(pool.get(&waker()), Progress::Pending));
}

#[test]
fn worker_of_a_drained_pool_takes_no_job_after_its_current_one() {
    let (mut pool, mut workers) = pool_of(1);
    let (_guard, offering, slot) = workers.pop().unwrap();
    let worker = listening(send_slot(offering, slot));
    assert!(take(&mut pool).send(1).is_ok());
    let (working, work, input) = executing(resolved(worker.poll(&waker())));
    pool.drain();
    let (offering, slot) = offered_slot(finish(working, work, input));
    let _seat = exiting(send_slot(offering, slot));
    assert!(matches!(pool.get(&waker()), Progress::Ready(None)));
}
