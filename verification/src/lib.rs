//! A pool with a fixed number of long-lived workers, built on Tokio's channels.
//!
//! Each worker owns its own clone of a [`Work`] and takes one job at a time. A
//! job is sent through a [`WorkerHandle`], either to be forgotten
//! ([`WorkerHandle::send`]) or to be waited for ([`WorkerHandle::run`]).
//!
//! Nothing here blocks or suspends. Where a task has to wait, a function says
//! what to wait for, or polls once: what runs the tasks is up to the caller.

pub mod calls;
pub mod channel;
pub mod count;
pub mod external;
pub mod handle;
pub mod laws;
pub mod opening;
pub mod pool;
pub mod protocol;
pub mod system;
pub mod tally;
pub mod work;
pub mod worker;

pub use channel::Progress;
pub use handle::{JobError, PendingOutput, Reply, WorkerHandle};
pub use pool::WorkerPool;
pub use protocol::WaitStep;
pub use work::{Task, Work, WorkerSlot};
pub use worker::{
    Departure, Heard, Listening, Offering, Seat, Unheard, Worker, WorkerAction, WorkerGuard,
    Working,
};
