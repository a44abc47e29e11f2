use std::future::Future;
use tokio::sync::oneshot;
use vstd::prelude::*;

verus! {

/// The worker job trait. Implement this to define what work the pool performs.
///
/// Each worker in the pool receives its own [`Clone`] of the implementor.
/// The `&mut self` parameter refers to that worker's private clone, so
/// mutations are local to the individual worker, not shared across the pool.
/// Use this for per-worker caches, counters, or connections. For shared state,
/// pass it through [`Input`](Work::Input) (e.g. wrapped in `Arc<Mutex<T>>`).
pub trait Work: Send + Sync + Clone + 'static {
    /// What a job is given.
    type Input: Send + 'static;

    /// What a job gives back.
    type Output: Send + 'static;

    /// A job under way. It may borrow from the worker's private clone.
    type Running<'a>: Future<Output = Self::Output> + Send where Self: 'a;

    /// Starts a job.
    fn run<'a>(&'a mut self, input: Self::Input) -> Self::Running<'a>;
}

/// The payload sent to a worker: the input and an optional channel to return the result.
pub type Task<W> = (<W as Work>::Input, Option<oneshot::Sender<<W as Work>::Output>>);

/// A slot offered by an idle worker, through which the pool can send it a task.
pub type WorkerSlot<W> = oneshot::Sender<Task<W>>;

} // verus!
