use std::future::{poll_fn, Future};
use std::pin::Pin;
use std::sync::Arc;
use std::task::Poll;
use std::time::Duration;

use grid_worker_pool::{
    Heard, JobError, Listening, Progress, Reply, WaitStep, Work, Worker, WorkerAction, WorkerGuard,
    WorkerHandle, WorkerPool,
};
use tokio::sync::{Barrier, Mutex};

// ---------------------------------------------------------------
// Running workers and waiting on pools
// ---------------------------------------------------------------

struct ReleaseOnDrop(Option<WorkerGuard>);

impl Drop for ReleaseOnDrop {
    fn drop(&mut self) {
        if let Some(guard) = self.0.take() {
            guard.release();
        }
    }
}

async fn listen<W: Work>(listening: Listening<W>) -> WorkerAction<W> {
    let sender = listening.sender().clone();
    let mut closed = Box::pin(sender.closed());
    let mut current = Some(listening);
    poll_fn(|cx| {
        let listening = current.take().expect("the worker listens");
        match listening.poll(cx.waker()) {
            Heard::Resolved(action) => Poll::Ready(action),
            Heard::Nothing(unheard) => match closed.as_mut().poll(cx) {
                Poll::Ready(()) => Poll::Ready(unheard.closed()),
                Poll::Pending => {
                    current = Some(unheard.open());
                    Poll::Pending
                }
            },
        }
    })
    .await
}

async fn drive<W: Work>(worker: Worker<W>) {
    // Declared before the guard, so dropped after it.
    let mut busy = None;
    let mut left = None;
    let (guard, mut action) = worker.run();
    let _guard = ReleaseOnDrop(Some(guard));
    while left.is_none() {
        action = match action {
            WorkerAction::Offer(offering, slot) => {
                let sent = offering.sender().send(slot).await;
                offering.offered(sent)
            }
            WorkerAction::Listen(listening) => listen(listening).await,
            WorkerAction::Execute(working, mut work, input) => {
                busy = Some(working);
                let output = work.run(input).await;
                let working = busy.take().expect("the worker works");
                working.finished(work, output)
            }
            WorkerAction::Exit(seat) => {
                left = Some(seat);
                return;
            }
        };
    }
}

fn start<W: Work>(work: W, size: usize) -> WorkerPool<W> {
    let (pool, workers) = WorkerPool::new(work, size);
    for worker in workers {
        tokio::spawn(drive(worker));
    }
    pool
}

async fn get<W: Work>(pool: &mut WorkerPool<W>) -> Option<WorkerHandle<W>> {
    poll_fn(|cx| match pool.get(cx.waker()) {
        Progress::Pending => Poll::Pending,
        Progress::Ready(handle) => Poll::Ready(handle),
    })
    .await
}

async fn run<W: Work>(handle: WorkerHandle<W>, job: W::Input) -> Result<W::Output, JobError> {
    let mut current = Some(handle.run(job)?);
    poll_fn(|cx| {
        let pending = current.take().expect("the output is awaited");
        match pending.poll(cx.waker()) {
            Reply::Pending(pending) => {
                current = Some(pending);
                Poll::Pending
            }
            Reply::Ready(result) => Poll::Ready(result),
        }
    })
    .await
}

async fn wait_from<W: Work>(pool: &WorkerPool<W>, first: WaitStep) {
    let mut step = first;
    let mut current = None;
    while step != WaitStep::Done {
        if step == WaitStep::Register {
            let mut notified = Box::pin(pool.notifier().notified());
            notified.as_mut().enable();
            current = Some(notified);
        } else if let Some(notified) = current.take() {
            notified.await;
        }
        step = pool.wait(step);
    }
}

async fn wait<W: Work>(pool: &WorkerPool<W>) {
    wait_from(pool, WaitStep::Register).await
}

async fn close<W: Work>(pool: WorkerPool<W>) {
    let (pool, first) = pool.close();
    wait_from(&pool, first).await
}

fn on_one_thread<F: Future<Output = ()>>(test: F) {
    let runtime = tokio::runtime::Builder::new_current_thread()
        .enable_all()
        .build()
        .unwrap();
    runtime.block_on(test)
}

fn on_four_threads<F: Future<Output = ()>>(test: F) {
    let runtime = tokio::runtime::Builder::new_multi_thread()
        .worker_threads(4)
        .enable_all()
        .build()
        .unwrap();
    runtime.block_on(test)
}

type Running<'a, T> = Pin<Box<dyn Future<Output = T> + Send + 'a>>;

// ---------------------------------------------------------------
// Test Work implementations
// ---------------------------------------------------------------

#[derive(Clone)]
struct Adder {
    pub inc_val: u64,
}

impl Work for Adder {
    type Input = Arc<Mutex<u64>>;
    type Output = ();
    type Running<'a> = Running<'a, ()>;
    fn run<'a>(&'a mut self, job: Self::Input) -> Running<'a, ()> {
        let inc_val = self.inc_val;
        Box::pin(async move {
            let mut var = job.lock().await;
            *var += inc_val;
        })
    }
}

#[derive(Clone)]
struct Multiplier;

impl Work for Multiplier {
    type Input = (f64, f64);
    type Output = f64;
    type Running<'a> = Running<'a, f64>;
    fn run<'a>(&'a mut self, input: Self::Input) -> Running<'a, f64> {
        Box::pin(async move { input.0 * input.1 })
    }
}

/// Worker that sleeps for a given duration, useful for timing-sensitive tests.
#[derive(Clone)]
struct SlowWorker;

impl Work for SlowWorker {
    type Input = std::time::Duration;
    type Output = ();
    type Running<'a> = Running<'a, ()>;
    fn run<'a>(&'a mut self, dur: Self::Input) -> Running<'a, ()> {
        Box::pin(async move { tokio::time::sleep(dur).await })
    }
}

/// Worker that blocks on a barrier, so we can guarantee all N workers
/// are busy simultaneously.
#[derive(Clone)]
struct BarrierWorker {
    barrier: Arc<Barrier>,
}

impl Work for BarrierWorker {
    type Input = ();
    type Output = ();
    type Running<'a> = Running<'a, ()>;
    fn run<'a>(&'a mut self, _: Self::Input) -> Running<'a, ()> {
        let barrier = Arc::clone(&self.barrier);
        Box::pin(async move {
            barrier.wait().await;
        })
    }
}

/// Worker that panics on a specific input.
#[derive(Clone)]
struct PanicWorker;

impl Work for PanicWorker {
    type Input = bool;
    type Output = ();
    type Running<'a> = Running<'a, ()>;
    fn run<'a>(&'a mut self, should_panic: Self::Input) -> Running<'a, ()> {
        Box::pin(async move {
            if should_panic {
                panic!("intentional test panic");
            }
        })
    }
}

// ---------------------------------------------------------------
// Basic functionality
// ---------------------------------------------------------------

#[test]
fn fire_and_forget_correctness() {
    on_one_thread(async {
        let var = Arc::new(Mutex::new(0_u64));
        let adder = Adder { inc_val: 1_u64 };
        let mut pool = start::<Adder>(adder, 100);

        for _ in 0..2000 {
            let worker = get(&mut pool).await.expect("worker should be available");
            worker.send(Arc::clone(&var)).unwrap();
        }

        close(pool).await;
        assert_eq!(*var.lock().await, 2000);
    });
}

#[test]
fn run_returns_result() {
    on_one_thread(async {
        let mult = Multiplier;
        let mut pool = start(mult, 1);

        let worker = get(&mut pool).await.expect("worker should be available");
        let out = run(worker, (10.0, 20.0)).await.unwrap();
        assert_eq!(out, 200.0);
    });
}

#[test]
fn handle_drop_without_send_recovers() {
    on_one_thread(async {
        let mult = Multiplier;
        let mut pool = start(mult, 1);

        let worker = get(&mut pool).await.expect("worker should be available");
        drop(worker);

        // Worker should re-register after its handle was dropped
        let worker = get(&mut pool).await.expect("worker should recover");
        let out = run(worker, (10.0, 20.0)).await.unwrap();
        assert_eq!(out, 200.0);
    });
}

#[derive(Clone)]
struct Doubler;

impl Work for Doubler {
    type Input = u64;
    type Output = u64;
    type Running<'a> = std::future::Ready<u64>;
    fn run<'a>(&'a mut self, input: Self::Input) -> std::future::Ready<u64> {
        std::future::ready(input * 2)
    }
}

#[test]
fn doubler_doubles() {
    on_one_thread(async {
        let mut pool = start(Doubler, 4);

        let worker = get(&mut pool).await.expect("worker available");
        let output = run(worker, 21).await.expect("job completed");
        assert_eq!(output, 42);

        close(pool).await;
    });
}

#[test]
fn run_on_a_worker_that_panics_gives_no_reply() {
    on_one_thread(async {
        let mut pool = start(PanicWorker, 1);

        let worker = get(&mut pool).await.expect("worker should be available");
        let error = run(worker, true).await.unwrap_err();
        assert_eq!(error.message(), "channel closed");
        assert!(get(&mut pool).await.is_none());
        assert_eq!(pool.worker_count(), 0);
    });
}

#[test]
fn work_may_borrow_from_its_worker() {
    on_one_thread(async {
        let mut pool = start(Remembering { seen: Vec::new() }, 1);

        for (job, expected) in [(3, 3), (4, 7), (5, 12)] {
            let worker = get(&mut pool).await.expect("worker should be available");
            assert_eq!(run(worker, job).await.unwrap(), expected);
        }
        close(pool).await;
    });
}

/// Worker that sums up every input it has been given.
#[derive(Clone)]
struct Remembering {
    seen: Vec<u64>,
}

impl Work for Remembering {
    type Input = u64;
    type Output = u64;
    type Running<'a> = Running<'a, u64>;
    fn run<'a>(&'a mut self, input: Self::Input) -> Running<'a, u64> {
        Box::pin(async move {
            self.seen.push(input);
            tokio::task::yield_now().await;
            self.seen.iter().sum()
        })
    }
}

// ---------------------------------------------------------------
// Pool size = 1 (degenerate case, must be strictly sequential)
// ---------------------------------------------------------------

#[test]
fn pool_size_1_sequential_correctness() {
    on_one_thread(async {
        let var = Arc::new(Mutex::new(0_u64));
        let adder = Adder { inc_val: 1_u64 };
        let mut pool = start(adder, 1);

        // Each get() must wait for the single worker to finish its previous job
        for _ in 0..500 {
            let worker = get(&mut pool).await.expect("worker should be available");
            worker.send(Arc::clone(&var)).unwrap();
        }

        close(pool).await;
        assert_eq!(*var.lock().await, 500);
    });
}

#[test]
fn pool_size_1_alternating_send_and_run() {
    on_one_thread(async {
        let var = Arc::new(Mutex::new(0_u64));
        let adder = Adder { inc_val: 1_u64 };
        let mut pool = start(adder, 1);

        for i in 0..100 {
            let worker = get(&mut pool).await.expect("worker should be available");
            if i % 2 == 0 {
                worker.send(Arc::clone(&var)).unwrap();
            } else {
                run(worker, Arc::clone(&var)).await.unwrap();
            }
        }

        close(pool).await;
        assert_eq!(*var.lock().await, 100);
    });
}

#[test]
fn pool_size_1_repeated_drop_recovery() {
    on_one_thread(async {
        let mult = Multiplier;
        let mut pool = start(mult, 1);

        // Drop the handle 50 times in a row — worker must recover each time
        for _ in 0..50 {
            let worker = get(&mut pool).await.expect("worker should recover");
            drop(worker);
        }

        // Still works after all those drops
        let worker = get(&mut pool).await.expect("worker should be available");
        let out = run(worker, (3.0, 7.0)).await.unwrap();
        assert_eq!(out, 21.0);
    });
}

// ---------------------------------------------------------------
// All workers busy simultaneously (saturation)
// ---------------------------------------------------------------

#[test]
fn all_workers_busy_then_release() {
    on_one_thread(async {
        let n = 8;
        // Barrier needs n+1: n workers + 1 for the test to release them
        let barrier = Arc::new(Barrier::new(n + 1));
        let bw = BarrierWorker {
            barrier: Arc::clone(&barrier),
        };
        let mut pool = start(bw, n);

        // Dispatch a job to every worker — they all block on the barrier
        for _ in 0..n {
            let worker = get(&mut pool).await.expect("worker should be available");
            worker.send(()).unwrap();
        }

        // All n workers are now blocked. Release them.
        barrier.wait().await;

        // Workers should become available again
        for _ in 0..n {
            let worker = get(&mut pool).await.expect("worker should be available after barrier");
            worker.send(()).unwrap();
        }

        // Release the second round
        // Need a new barrier for the second round - but our workers still hold
        // the old barrier. Actually the second send() uses the same barrier worker
        // clone, so they'll block on the same barrier. We need n workers to arrive
        // again. But we already had n+1 waits (n workers + 1 test), so the barrier
        // has reset. The second batch of n workers will block, and we wait once more.
        barrier.wait().await;

        close(pool).await;
    });
}

// ---------------------------------------------------------------
// Concurrent get() callers (multiple tasks fighting for workers)
// ---------------------------------------------------------------

#[test]
fn concurrent_get_callers() {
    on_four_threads(async {
        let var = Arc::new(Mutex::new(0_u64));
        let adder = Adder { inc_val: 1_u64 };
        let pool = Arc::new(Mutex::new(start(adder, 4)));

        let mut handles = Vec::new();
        for _ in 0..100 {
            let pool = Arc::clone(&pool);
            let var = Arc::clone(&var);
            handles.push(tokio::spawn(async move {
                let mut pool = pool.lock().await;
                let worker = get(&mut *pool).await.expect("worker should be available");
                drop(pool); // release pool lock before sending work
                worker.send(var).unwrap();
            }));
        }

        for h in handles {
            h.await.unwrap();
        }

        // All spawned tasks are done, drain and wait via the shared reference
        pool.lock().await.drain();
        wait(&*pool.lock().await).await;
        assert_eq!(*var.lock().await, 100);
    });
}

#[test]
fn close_runs_every_job_that_was_taken() {
    on_four_threads(async {
        for _ in 0..300 {
            let var = Arc::new(Mutex::new(0_u64));
            let mut pool = start(Adder { inc_val: 1_u64 }, 4);
            let mut taken = 0;
            for _ in 0..4 {
                let worker = get(&mut pool).await.expect("worker should be available");
                if worker.send(Arc::clone(&var)).is_ok() {
                    taken += 1;
                }
            }
            close(pool).await;
            assert_eq!(*var.lock().await, taken);
        }
    });
}

// ---------------------------------------------------------------
// Results under concurrency — every job gets its correct result
// ---------------------------------------------------------------

#[test]
fn parallel_results_correctness() {
    on_four_threads(async {
        let mult = Multiplier;
        let pool = Arc::new(Mutex::new(start(mult, 8)));

        let mut handles = Vec::new();
        for i in 0..200 {
            let pool = Arc::clone(&pool);
            let a = i as f64;
            let b = (i + 1) as f64;
            handles.push(tokio::spawn(async move {
                let mut pool = pool.lock().await;
                let worker = get(&mut *pool).await.expect("worker should be available");
                drop(pool);
                let result = run(worker, (a, b)).await.unwrap();
                assert_eq!(result, a * b, "wrong result for ({a}, {b})");
            }));
        }

        for h in handles {
            h.await.unwrap();
        }
    });
}

// ---------------------------------------------------------------
// Worker panic handling
// ---------------------------------------------------------------

#[test]
fn panic_worker_pool_survives() {
    on_one_thread(async {
        let mut pool = start(PanicWorker, 4);

        // Kill one worker
        let worker = get(&mut pool).await.expect("worker should be available");
        worker.send(true).unwrap(); // this worker will panic

        // Give the panic time to propagate
        tokio::task::yield_now().await;

        // Pool should still function with remaining workers
        // (one worker is dead, 3 remain)
        let worker = get(&mut pool).await.expect("surviving workers should be available");
        worker.send(false).unwrap();

        close(pool).await;
    });
}

#[test]
fn panic_all_workers_get_returns_none() {
    on_one_thread(async {
        let mut pool = start(PanicWorker, 2);

        // Kill both workers
        for _ in 0..2 {
            let worker = get(&mut pool).await.expect("worker should be available");
            worker.send(true).unwrap();
        }

        // Give panics time to propagate
        tokio::task::yield_now().await;
        tokio::task::yield_now().await;

        // get() should return None — all workers are dead
        assert!(get(&mut pool).await.is_none());
        assert_eq!(pool.worker_count(), 0);
    });
}

#[test]
fn panic_worker_close_does_not_hang() {
    on_one_thread(async {
        let mut pool = start(PanicWorker, 3);

        // Kill 2 out of 3
        for _ in 0..2 {
            let worker = get(&mut pool).await.expect("worker should be available");
            worker.send(true).unwrap();
        }

        // close() must not hang even though 2 workers panicked
        tokio::time::timeout(std::time::Duration::from_secs(2), close(pool))
            .await
            .expect("close() should not hang after worker panics");
    });
}

#[test]
fn panic_worker_count_decrements() {
    on_one_thread(async {
        let mut pool = start(PanicWorker, 5);

        let worker = get(&mut pool).await.expect("worker should be available");
        worker.send(true).unwrap();

        // Give the panic time to decrement the counter
        tokio::task::yield_now().await;
        tokio::task::yield_now().await;
        tokio::time::sleep(std::time::Duration::from_millis(10)).await;

        assert_eq!(pool.worker_count(), 4);
        close(pool).await;
    });
}

// ---------------------------------------------------------------
// Drain / wait / close lifecycle
// ---------------------------------------------------------------

#[test]
fn drain_then_wait() {
    on_one_thread(async {
        let var = Arc::new(Mutex::new(0_u64));
        let adder = Adder { inc_val: 1_u64 };
        let mut pool = start::<Adder>(adder, 10);

        for _ in 0..100 {
            let worker = get(&mut pool).await.expect("worker should be available");
            worker.send(Arc::clone(&var)).unwrap();
        }

        assert!(!pool.is_drained());
        pool.drain();
        assert!(pool.is_drained());
        assert!(get(&mut pool).await.is_none());

        wait(&pool).await;
        assert_eq!(pool.worker_count(), 0);
        assert_eq!(*var.lock().await, 100);
    });
}

#[test]
fn close_idle_pool() {
    on_one_thread(async {
        // No work submitted — close should still complete promptly
        let mult = Multiplier;
        let pool = start(mult, 10);

        tokio::time::timeout(std::time::Duration::from_secs(2), close(pool))
            .await
            .expect("closing an idle pool should not hang");
    });
}

#[test]
fn close_immediately_after_creation() {
    on_one_thread(async {
        let mult = Multiplier;
        let pool = start(mult, 50);

        tokio::time::timeout(std::time::Duration::from_secs(2), close(pool))
            .await
            .expect("immediate close should not hang");
    });
}

#[test]
fn double_drain_is_idempotent() {
    on_one_thread(async {
        let mult = Multiplier;
        let mut pool = start(mult, 5);
        pool.drain();
        pool.drain(); // should not panic
        wait(&pool).await;
        assert_eq!(pool.worker_count(), 0);
    });
}

#[test]
fn worker_count_reflects_state() {
    on_one_thread(async {
        let mult = Multiplier;
        let mut pool = start(mult, 5);
        assert_eq!(pool.worker_count(), 5);

        pool.drain();
        wait(&pool).await;
        assert_eq!(pool.worker_count(), 0);
    });
}

// ---------------------------------------------------------------
// Slow workers — drain while work is in-flight
// ---------------------------------------------------------------

#[test]
fn drain_while_workers_are_busy() {
    on_one_thread(async {
        let mut pool = start(SlowWorker, 4);

        // Dispatch slow jobs to all 4 workers
        for _ in 0..4 {
            let worker = get(&mut pool).await.expect("worker should be available");
            worker.send(std::time::Duration::from_millis(100)).unwrap();
        }

        // Drain immediately — workers are still sleeping
        pool.drain();

        // Wait should block until all slow jobs finish, then workers exit
        tokio::time::timeout(std::time::Duration::from_secs(2), wait(&pool))
            .await
            .expect("wait after drain should complete once jobs finish");

        assert_eq!(pool.worker_count(), 0);
    });
}

// ---------------------------------------------------------------
// Large pool sizes (stress the buffer=size change)
// ---------------------------------------------------------------

#[test]
fn large_pool_correctness() {
    on_one_thread(async {
        let var = Arc::new(Mutex::new(0_u64));
        let adder = Adder { inc_val: 1_u64 };
        let mut pool = start(adder, 500);

        for _ in 0..5000 {
            let worker = get(&mut pool).await.expect("worker should be available");
            worker.send(Arc::clone(&var)).unwrap();
        }

        close(pool).await;
        assert_eq!(*var.lock().await, 5000);
    });
}

#[test]
fn large_pool_close_immediately() {
    on_one_thread(async {
        let mult = Multiplier;
        let pool = start(mult, 500);

        tokio::time::timeout(std::time::Duration::from_secs(5), close(pool))
            .await
            .expect("closing large idle pool should not hang");
    });
}

// ---------------------------------------------------------------
// Mixed fire-and-forget + result jobs on same pool
// ---------------------------------------------------------------

#[test]
fn mixed_send_and_run() {
    on_one_thread(async {
        let var = Arc::new(Mutex::new(0_u64));
        let adder = Adder { inc_val: 1_u64 };
        let mut pool = start(adder, 8);

        for i in 0..200 {
            let worker = get(&mut pool).await.expect("worker should be available");
            if i % 3 == 0 {
                // run() — wait for result
                run(worker, Arc::clone(&var)).await.unwrap();
            } else {
                // send() — fire and forget
                worker.send(Arc::clone(&var)).unwrap();
            }
        }

        close(pool).await;
        assert_eq!(*var.lock().await, 200);
    });
}

// ---------------------------------------------------------------
// Edge case: pool of size 1, many handle drops interleaved with real work
// ---------------------------------------------------------------

#[test]
fn size_1_drop_interleave_stress() {
    on_one_thread(async {
        let var = Arc::new(Mutex::new(0_u64));
        let adder = Adder { inc_val: 1_u64 };
        let mut pool = start(adder, 1);

        for i in 0..300 {
            let worker = get(&mut pool).await.expect("worker should be available");
            if i % 5 == 0 {
                // Drop without sending — worker must recover
                drop(worker);
            } else {
                worker.send(Arc::clone(&var)).unwrap();
            }
        }

        close(pool).await;
        // 300 iterations, every 5th is dropped = 60 drops, 240 actual jobs
        assert_eq!(*var.lock().await, 240);
    });
}

// ---------------------------------------------------------------
// Verify per-worker clone isolation
// ---------------------------------------------------------------

#[derive(Clone)]
struct CountingWorker {
    call_count: Arc<Mutex<Vec<usize>>>,
}

impl Work for CountingWorker {
    type Input = ();
    type Output = ();
    type Running<'a> = Running<'a, ()>;
    fn run<'a>(&'a mut self, _: Self::Input) -> Running<'a, ()> {
        let log = Arc::clone(&self.call_count);
        Box::pin(async move {
            // Each clone will push to the shared log
            let mut v = log.lock().await;
            v.push(1);
        })
    }
}

#[test]
fn per_worker_clone_isolation() {
    on_one_thread(async {
        let log = Arc::new(Mutex::new(Vec::new()));
        let cw = CountingWorker {
            call_count: Arc::clone(&log),
        };
        let mut pool = start(cw, 4);

        for _ in 0..100 {
            let worker = get(&mut pool).await.expect("worker should be available");
            worker.send(()).unwrap();
        }

        close(pool).await;
        assert_eq!(log.lock().await.len(), 100);
    });
}
