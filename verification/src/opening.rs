//! Opening a pool on the count that its workers share.
use crate::pool::{opens, staffed, WorkerPool};
use crate::work::{Work, WorkerSlot};
use crate::worker::Worker;
use std::sync::atomic::AtomicUsize;
use tokio::sync::mpsc;
use vstd::prelude::*;

verus! {

impl<W: Work> WorkerPool<W> {
    /// A new pool, and its `size` workers, which are to be run.
    pub fn new(work: W, size: usize) -> (made: (WorkerPool<W>, Vec<Worker<W>>))
        requires
            0 < size <= usize::MAX / 8,
        ensures
            exists|sender: mpsc::Sender<WorkerSlot<W>>| #[trigger]
                opens(made.0@, size, sender) && staffed(made.1@, made.0@, work, size, sender),
            call_ensures(AtomicUsize::new, (size,), *made.0@.size),
            made.1@.len() == size,
            forall|i: int| 0 <= i < size ==> (#[trigger] made.1@[i])@.count == made.0@.size,
    {
        Self::found(work, size)
    }
}

} // verus!
