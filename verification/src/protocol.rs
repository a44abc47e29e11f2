//! The life of one worker, and the steps of a task that waits for all of them.
use vstd::prelude::*;

verus! {

/// Where a worker stands.
pub enum Stage {
    /// It has made a slot and is sending it to the pool.
    Offering,
    /// The pool's channel has set a place aside for the slot.
    Reserved,
    /// Its slot is with the pool, and it waits for a task.
    Listening,
    /// It has looked at its slot and not found anything.
    Unheard,
    /// It runs a job.
    Working,
    /// It has left its loop.
    Leaving,
    /// It has left the count of living workers, and has not said so yet.
    Uncounted,
    /// It has said so, and still holds its sender.
    Announced,
    /// It is no more.
    Gone,
}

/// What moves a worker from one stage to another.
pub enum Event {
    /// The channel found room for the slot.
    PlaceReserved,
    /// The pool's channel took the slot.
    SlotAccepted,
    /// The pool's channel is closed and refused the slot.
    SlotRefused,
    /// A look at the slot found nothing. The runtime may cut a look short, so
    /// there may be a task in the slot all the same.
    NothingHeard,
    /// The slot brought a task.
    TaskArrived,
    /// The slot was dropped without a task.
    SlotDropped,
    /// The pool's channel was found closed, and a last look at the slot found no
    /// task.
    ChannelClosed,
    /// The pool's channel was found closed, and a last look at the slot found a
    /// task.
    TaskFoundLate,
    /// The pool's channel was found open.
    ChannelOpen,
    /// The job came to its end.
    JobFinished,
    /// The job panicked.
    JobPanicked,
    /// The count of living workers was lowered.
    CountLowered,
    /// The waiting task was notified.
    WaiterNotified,
    /// The worker's sender was dropped.
    SenderDropped,
}

/// The stage that an event leads to, or `None` where the event has no place.
pub open spec fn next_stage(stage: Stage, event: Event) -> Option<Stage> {
    match (stage, event) {
        (Stage::Offering, Event::PlaceReserved) => Some(Stage::Reserved),
        (Stage::Offering, Event::SlotRefused) => Some(Stage::Leaving),
        (Stage::Reserved, Event::SlotAccepted) => Some(Stage::Listening),
        (Stage::Listening, Event::NothingHeard) => Some(Stage::Unheard),
        (Stage::Listening, Event::TaskArrived) => Some(Stage::Working),
        (Stage::Listening, Event::SlotDropped) => Some(Stage::Offering),
        (Stage::Unheard, Event::ChannelClosed) => Some(Stage::Leaving),
        (Stage::Unheard, Event::TaskFoundLate) => Some(Stage::Working),
        (Stage::Unheard, Event::ChannelOpen) => Some(Stage::Listening),
        (Stage::Working, Event::JobFinished) => Some(Stage::Offering),
        (Stage::Working, Event::JobPanicked) => Some(Stage::Leaving),
        (Stage::Leaving, Event::CountLowered) => Some(Stage::Uncounted),
        (Stage::Uncounted, Event::WaiterNotified) => Some(Stage::Announced),
        (Stage::Announced, Event::SenderDropped) => Some(Stage::Gone),
        _ => None,
    }
}

/// The next thing to do for a task that waits until no worker is alive.
#[derive(Clone, Copy, Debug, PartialEq, Eq, Structural)]
pub enum WaitStep {
    /// Register interest in a notification.
    Register,
    /// Sleep until the notification comes.
    Sleep,
    /// Stop waiting.
    Done,
}

/// The step that follows `done`, where `alive` is the number of living workers
/// read after `done`.
///
/// The number is looked at only between registering and sleeping: a worker that
/// exits after the look notifies a task that is already registered.
pub open spec fn next_wait_step(done: WaitStep, alive: nat) -> WaitStep {
    match done {
        WaitStep::Register => if alive == 0 {
            WaitStep::Done
        } else {
            WaitStep::Sleep
        },
        WaitStep::Sleep => WaitStep::Register,
        WaitStep::Done => WaitStep::Done,
    }
}

} // verus!
