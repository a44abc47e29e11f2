//! A model of a whole pool in motion: its workers, its channel, the handles that
//! were given out, and a task that waits for the workers to exit, one wait at a
//! time.
//!
//! A state says where each of these stands, and a [`Step`] is what one of them
//! does next. Workers and the waiting task move as [`next_stage`] and
//! [`next_wait_step`] say, as the library's own steps do. The rest is assumed,
//! after what Tokio documents:
//!
//! - Steps happen one after the other, each sees what came before it, and the
//!   runtime is not shut down.
//! - A worker's task carries out the actions that the worker names. When it
//!   ends, by a panic too, it releases the worker's guard, and drops the
//!   worker's sender after that.
//! - A slot takes a task as long as its worker has not looked for the last time,
//!   and that last look finds a task that was taken. Any other look may miss it.
//! - The pool's channel hands slots out in the order in which they came. Once
//!   closed it accepts a slot only if a place had been set aside for it. It has
//!   come to its end when every sender is dropped and no slot is left in it.
//! - A notification goes to the task that is registered for one, or is kept as
//!   the one permit that the notifier can hold.
use crate::protocol::{next_stage, next_wait_step, Event, Stage, WaitStep};
use crate::tally::{
    lemma_tally_opposite, lemma_tally_same, lemma_tally_update, lemma_tally_zero, one_if, tally,
};
use vstd::prelude::*;

verus! {

/// Where the pool's end of a worker's slot is.
pub enum SlotPlace {
    /// With the worker, or used up.
    Home,
    /// In the pool's channel.
    Queued,
    /// With a handle.
    Held,
    /// Used: a task is in the slot.
    Filled,
    /// Dropped without a task.
    Dropped,
}

/// Where the waiting task stands.
pub enum Waiter {
    /// It is at a step.
    At(WaitStep),
    /// It has registered and is about to look at the count of living workers.
    Registered,
}

/// A pool in motion.
pub struct System {
    /// Where each worker stands.
    pub stages: Seq<Stage>,
    /// Where each worker's slot is.
    pub slots: Seq<SlotPlace>,
    /// Whose slots the channel holds, in the order in which they came.
    pub queue: Seq<int>,
    /// Whether the pool has been drained.
    pub drained: bool,
    /// The count of living workers.
    pub alive: nat,
    /// The waiting task.
    pub waiter: Waiter,
    /// Whether the notification that the waiting task registered for has come.
    pub woken: bool,
    /// Whether the notifier holds a permit.
    pub permit: bool,
    /// How many jobs were taken by a worker's slot.
    pub queued_jobs: nat,
    /// How many jobs came to their end.
    pub finished_jobs: nat,
    /// How many jobs panicked.
    pub panicked_jobs: nat,
}

/// What the pool finds when it looks for a free worker.
pub enum Free {
    /// None yet.
    NotYet,
    /// None, now or later.
    Never,
    /// A worker.
    Worker(int),
}

/// What happens next.
pub enum Step {
    /// A worker moves.
    Move(int, Event),
    /// The pool gives out a handle on the first free worker.
    Get,
    /// The handle on a worker is used to send it a job.
    Send(int),
    /// The handle on a worker is dropped.
    DropHandle(int),
    /// The pool is drained.
    Drain,
    /// The waiting task moves.
    Wait,
    /// A wait that sleeps is given up, or one that is over is begun anew. A
    /// notification that had come for it is kept as a permit, or lost.
    WaitAnew(bool),
}

/// A worker that waits for a task.
pub open spec fn waits_for_task(stage: Stage) -> bool {
    stage is Listening || stage is Unheard
}

/// A worker that has not left its loop.
pub open spec fn in_loop(stage: Stage) -> bool {
    counted(stage) && !(stage is Leaving)
}

/// A worker that the count of living workers counts.
pub open spec fn counted(stage: Stage) -> bool {
    !(stage is Uncounted || announced(stage))
}

/// A worker whose exit has been announced.
pub open spec fn announced(stage: Stage) -> bool {
    stage is Announced || stage is Gone
}

/// The workers that run a job.
pub open spec fn working() -> spec_fn(Stage) -> bool {
    |stage: Stage| stage is Working
}

/// The workers for whose slots the channel has set a place aside.
pub open spec fn reserving() -> spec_fn(Stage) -> bool {
    |stage: Stage| stage is Reserved
}

/// The workers that are still in their loop.
pub open spec fn looping() -> spec_fn(Stage) -> bool {
    |stage: Stage| in_loop(stage)
}

/// The workers that are counted.
pub open spec fn living() -> spec_fn(Stage) -> bool {
    |stage: Stage| counted(stage)
}

/// The slots that the channel holds.
pub open spec fn waiting() -> spec_fn(SlotPlace) -> bool {
    |slot: SlotPlace| slot is Queued
}

/// The slots that a handle holds or has used.
pub open spec fn given_out() -> spec_fn(SlotPlace) -> bool {
    |slot: SlotPlace| slot is Held || slot is Filled
}

/// The slots with a task in them.
pub open spec fn filled() -> spec_fn(SlotPlace) -> bool {
    |slot: SlotPlace| slot is Filled
}

/// A pool of `size` workers, just made.
pub open spec fn initial(size: nat) -> System {
    System {
        stages: Seq::new(size, |i: int| Stage::Offering),
        slots: Seq::new(size, |i: int| SlotPlace::Home),
        queue: Seq::empty(),
        drained: false,
        alive: size,
        waiter: Waiter::At(WaitStep::Register),
        woken: false,
        permit: false,
        queued_jobs: 0,
        finished_jobs: 0,
        panicked_jobs: 0,
    }
}

/// Whether the notifier would hand a notification to the waiting task.
pub open spec fn is_registered(waiter: Waiter) -> bool {
    waiter is Registered || waiter == Waiter::At(WaitStep::Sleep)
}

impl System {
    /// Whether worker `i` can meet with `event`.
    pub open spec fn can_move(self, i: int, event: Event) -> bool {
        &&& 0 <= i < self.stages.len()
        &&& next_stage(self.stages[i], event) is Some
        &&& match event {
            Event::PlaceReserved => !self.drained,
            Event::SlotRefused => self.drained,
            Event::TaskArrived => self.slots[i] is Filled,
            Event::SlotDropped => self.slots[i] is Dropped,
            Event::ChannelClosed => self.drained && !(self.slots[i] is Filled),
            Event::TaskFoundLate => self.drained && self.slots[i] is Filled,
            Event::ChannelOpen => !self.drained,
            _ => true,
        }
    }

    /// Whether every worker has exited.
    pub open spec fn all_gone(self) -> bool {
        forall|i: int| 0 <= i < self.stages.len() ==> #[trigger] self.stages[i] is Gone
    }

    /// What a look for a free worker finds: none in a drained pool, else the
    /// first slot in the channel, and none once the channel has come to its end.
    pub open spec fn free(self) -> Free {
        if self.drained {
            Free::Never
        } else if self.queue.len() > 0 {
            Free::Worker(self.queue[0])
        } else if self.all_gone() {
            Free::Never
        } else {
            Free::NotYet
        }
    }

    /// Whether `step` can happen.
    pub open spec fn can(self, step: Step) -> bool {
        match step {
            Step::Move(i, event) => self.can_move(i, event),
            Step::Get => self.free() is Worker,
            Step::Send(i) => 0 <= i < self.slots.len() && self.slots[i] is Held,
            Step::DropHandle(i) => 0 <= i < self.slots.len() && self.slots[i] is Held,
            Step::Drain => true,
            Step::Wait => match self.waiter {
                Waiter::At(WaitStep::Sleep) => self.woken,
                Waiter::At(WaitStep::Done) => false,
                _ => true,
            },
            Step::WaitAnew(_) => self.waiter == Waiter::At(WaitStep::Sleep) || self.waiter
                == Waiter::At(WaitStep::Done),
        }
    }

    /// The state after a notification: the registered task gets it, or the
    /// notifier keeps a permit.
    pub open spec fn notified(self) -> System {
        if is_registered(self.waiter) && !self.woken {
            System { woken: true, ..self }
        } else {
            System { permit: true, ..self }
        }
    }

    /// The state after worker `i` met with `event`.
    pub open spec fn moved(self, i: int, event: Event) -> System {
        let t = System {
            stages: self.stages.update(i, next_stage(self.stages[i], event)->0),
            ..self
        };
        match event {
            Event::SlotAccepted => System {
                slots: t.slots.update(i, SlotPlace::Queued),
                queue: t.queue.push(i),
                ..t
            },
            Event::TaskArrived | Event::SlotDropped | Event::TaskFoundLate => System {
                slots: t.slots.update(i, SlotPlace::Home),
                ..t
            },
            Event::JobFinished => System { finished_jobs: t.finished_jobs + 1, ..t },
            Event::JobPanicked => System { panicked_jobs: t.panicked_jobs + 1, ..t },
            Event::CountLowered => System { alive: (t.alive - 1) as nat, ..t },
            Event::WaiterNotified => t.notified(),
            _ => t,
        }
    }

    /// The state after `step`.
    pub open spec fn after(self, step: Step) -> System {
        match step {
            Step::Move(i, event) => self.moved(i, event),
            Step::Get => System {
                slots: self.slots.update(self.queue[0], SlotPlace::Held),
                queue: self.queue.drop_first(),
                ..self
            },
            Step::Send(i) => if waits_for_task(self.stages[i]) {
                System {
                    slots: self.slots.update(i, SlotPlace::Filled),
                    queued_jobs: self.queued_jobs + 1,
                    ..self
                }
            } else {
                System { slots: self.slots.update(i, SlotPlace::Dropped), ..self }
            },
            Step::DropHandle(i) => System {
                slots: self.slots.update(i, SlotPlace::Dropped),
                ..self
            },
            Step::Drain => System {
                slots: Seq::new(
                    self.slots.len(),
                    |i: int|
                        if self.slots[i] is Queued && !self.drained {
                            SlotPlace::Dropped
                        } else {
                            self.slots[i]
                        },
                ),
                queue: if self.drained {
                    self.queue
                } else {
                    Seq::empty()
                },
                drained: true,
                ..self
            },
            Step::Wait => match self.waiter {
                Waiter::At(WaitStep::Register) => System {
                    waiter: Waiter::Registered,
                    woken: self.permit,
                    permit: false,
                    ..self
                },
                Waiter::Registered => System {
                    waiter: Waiter::At(next_wait_step(WaitStep::Register, self.alive)),
                    ..self
                },
                Waiter::At(done) => System {
                    waiter: Waiter::At(next_wait_step(done, self.alive)),
                    ..self
                },
            },
            Step::WaitAnew(kept) => System {
                waiter: Waiter::At(WaitStep::Register),
                woken: false,
                permit: self.permit || (kept && self.woken),
                ..self
            },
        }
    }

    /// What holds of every state that a pool of `size` workers can come to.
    pub open spec fn wf(self, size: nat) -> bool {
        &&& self.stages.len() == size
        &&& self.slots.len() == size
        &&& self.alive == tally(self.stages, living())
        &&& forall|i: int|
            #![trigger self.stages[i]]
            #![trigger self.slots[i]]
            0 <= i < size ==> slot_fits(self.stages[i], self.slots[i])
        &&& self.queue.no_duplicates()
        &&& self.queue.len() == tally(self.slots, waiting())
        &&& forall|k: int|
            #![trigger self.queue[k]]
            0 <= k < self.queue.len() ==> {
                &&& 0 <= self.queue[k] < size
                &&& self.slots[self.queue[k]] is Queued
            }
        &&& self.queued_jobs == self.finished_jobs + self.panicked_jobs + tally(
            self.stages,
            working(),
        ) + tally(self.slots, filled())
        &&& !self.drained ==> tally(self.stages, looping()) + self.panicked_jobs == size
        &&& !self.drained ==> forall|i: int|
            #![trigger self.stages[i]]
            #![trigger self.slots[i]]
            0 <= i < size && !in_loop(self.stages[i]) ==> self.slots[i] is Home
        &&& self.waiter == Waiter::At(WaitStep::Done) ==> self.alive == 0
        &&& self.waiter == Waiter::At(WaitStep::Sleep) && !self.woken ==> exists|i: int|
            0 <= i < size && !announced(#[trigger] self.stages[i])
    }
}

/// Where a slot can be while its worker is in `stage`.
pub open spec fn slot_fits(stage: Stage, slot: SlotPlace) -> bool {
    match stage {
        Stage::Offering | Stage::Reserved | Stage::Working => slot is Home,
        Stage::Listening | Stage::Unheard => !(slot is Home),
        _ => !(slot is Filled),
    }
}

/// The steps can happen one after the other in a new pool of `size` workers.
pub open spec fn can_run(size: nat, steps: Seq<Step>) -> bool
    decreases steps.len(),
{
    steps.len() == 0 || (can_run(size, steps.drop_last()) && run(size, steps.drop_last()).can(
        steps.last(),
    ))
}

/// The state that the steps lead to in a new pool of `size` workers.
pub open spec fn run(size: nat, steps: Seq<Step>) -> System
    decreases steps.len(),
{
    if steps.len() == 0 {
        initial(size)
    } else {
        run(size, steps.drop_last()).after(steps.last())
    }
}

proof fn lemma_initial(size: nat)
    ensures
        initial(size).wf(size),
{
    let s = initial(size);
    lemma_tally_zero(s.slots, waiting());
    lemma_tally_zero(s.slots, filled());
    lemma_tally_zero(s.stages, working());
    lemma_tally_opposite(s.stages, living(), |stage: Stage| !counted(stage));
    lemma_tally_zero(s.stages, |stage: Stage| !counted(stage));
    lemma_tally_opposite(s.stages, looping(), |stage: Stage| !in_loop(stage));
    lemma_tally_zero(s.stages, |stage: Stage| !in_loop(stage));
}

/// What a change of worker `i`'s stage does to the tallies of stages.
proof fn lemma_stage_tallies(s: System, i: int, stage: Stage)
    requires
        0 <= i < s.stages.len(),
    ensures
        ({
            let t = s.stages.update(i, stage);
            &&& tally(t, living()) + one_if(counted(s.stages[i])) == tally(s.stages, living())
                + one_if(counted(stage))
            &&& tally(t, working()) + one_if(s.stages[i] is Working) == tally(s.stages, working())
                + one_if(stage is Working)
            &&& tally(t, looping()) + one_if(in_loop(s.stages[i])) == tally(s.stages, looping())
                + one_if(in_loop(stage))
        }),
{
    lemma_tally_update(s.stages, i, stage, living());
    lemma_tally_update(s.stages, i, stage, working());
    lemma_tally_update(s.stages, i, stage, looping());
}

/// What a change of the place of worker `i`'s slot does to the tallies of slots.
proof fn lemma_slot_tallies(s: System, i: int, slot: SlotPlace)
    requires
        0 <= i < s.slots.len(),
    ensures
        ({
            let t = s.slots.update(i, slot);
            &&& tally(t, waiting()) + one_if(s.slots[i] is Queued) == tally(s.slots, waiting())
                + one_if(slot is Queued)
            &&& tally(t, filled()) + one_if(s.slots[i] is Filled) == tally(s.slots, filled())
                + one_if(slot is Filled)
        }),
{
    lemma_tally_update(s.slots, i, slot, waiting());
    lemma_tally_update(s.slots, i, slot, filled());
}

proof fn lemma_move_keeps(s: System, size: nat, i: int, event: Event)
    requires
        s.wf(size),
        s.can_move(i, event),
    ensures
        s.moved(i, event).wf(size),
{
    let stage = next_stage(s.stages[i], event)->0;
    let t = s.moved(i, event);
    assert(slot_fits(s.stages[i], s.slots[i]));
    lemma_stage_tallies(s, i, stage);
    match event {
        Event::SlotAccepted => {
            lemma_slot_tallies(s, i, SlotPlace::Queued);
            assert forall|k: int| 0 <= k < s.queue.len() implies s.queue[k] != i by {}
            assert(t.queue.no_duplicates());
        },
        Event::TaskArrived | Event::SlotDropped | Event::TaskFoundLate => {
            lemma_slot_tallies(s, i, SlotPlace::Home);
        },
        _ => {},
    }
    assert forall|k: int| #![trigger t.stages[k]] #![trigger t.slots[k]]
        0 <= k < size implies slot_fits(t.stages[k], t.slots[k]) by {
        assert(slot_fits(s.stages[k], s.slots[k]));
    }
    assert forall|k: int| #![trigger t.queue[k]] 0 <= k < t.queue.len() implies 0 <= t.queue[k]
        < size && t.slots[t.queue[k]] is Queued by {
        if k < s.queue.len() {
            assert(t.queue[k] == s.queue[k]);
        }
    }
    if t.waiter == Waiter::At(WaitStep::Sleep) && !t.woken {
        let k = choose|k: int| 0 <= k < size && !announced(#[trigger] s.stages[k]);
        assert(!announced(t.stages[k]));
    }
}

proof fn lemma_get_keeps(s: System, size: nat)
    requires
        s.wf(size),
        s.can(Step::Get),
    ensures
        s.after(Step::Get).wf(size),
{
    let i = s.queue[0];
    let t = s.after(Step::Get);
    assert(slot_fits(s.stages[i], s.slots[i]));
    lemma_slot_tallies(s, i, SlotPlace::Held);
    assert forall|k: int| #![trigger t.queue[k]] 0 <= k < t.queue.len() implies 0 <= t.queue[k]
        < size && t.slots[t.queue[k]] is Queued by {
        assert(t.queue[k] == s.queue[k + 1]);
        assert(s.queue[k + 1] != s.queue[0]);
    }
    assert forall|j: int, k: int| 0 <= j < t.queue.len() && 0 <= k < t.queue.len() && j
        != k implies t.queue[j] != t.queue[k] by {
        assert(s.queue[j + 1] != s.queue[k + 1]);
    }
    assert forall|k: int| #![trigger t.stages[k]] #![trigger t.slots[k]]
        0 <= k < size implies slot_fits(t.stages[k], t.slots[k]) by {
        assert(slot_fits(s.stages[k], s.slots[k]));
    }
}

proof fn lemma_handle_keeps(s: System, size: nat, step: Step)
    requires
        s.wf(size),
        s.can(step),
        step is Send || step is DropHandle,
    ensures
        s.after(step).wf(size),
{
    let i = match step {
        Step::Send(i) => i,
        Step::DropHandle(i) => i,
        _ => arbitrary(),
    };
    let t = s.after(step);
    assert(slot_fits(s.stages[i], s.slots[i]));
    lemma_slot_tallies(s, i, t.slots[i]);
    assert forall|k: int| #![trigger t.stages[k]] #![trigger t.slots[k]]
        0 <= k < size implies slot_fits(t.stages[k], t.slots[k]) by {
        assert(slot_fits(s.stages[k], s.slots[k]));
    }
}

proof fn lemma_drain_keeps(s: System, size: nat)
    requires
        s.wf(size),
    ensures
        s.after(Step::Drain).wf(size),
{
    let t = s.after(Step::Drain);
    lemma_tally_same(s.slots, t.slots, filled());
    if s.drained {
        lemma_tally_same(s.slots, t.slots, waiting());
    } else {
        lemma_tally_zero(t.slots, waiting());
    }
    assert forall|k: int| #![trigger t.stages[k]] #![trigger t.slots[k]]
        0 <= k < size implies slot_fits(t.stages[k], t.slots[k]) by {
        assert(slot_fits(s.stages[k], s.slots[k]));
    }
}

proof fn lemma_wait_keeps(s: System, size: nat)
    requires
        s.wf(size),
        s.can(Step::Wait),
    ensures
        s.after(Step::Wait).wf(size),
{
    if s.waiter is Registered && s.alive > 0 {
        lemma_tally_zero(s.stages, living());
        let k = choose|k: int| 0 <= k < size && living()(#[trigger] s.stages[k]);
        assert(!announced(s.after(Step::Wait).stages[k]));
    }
}

/// Every state that a pool can come to is well formed.
pub(crate) proof fn lemma_run(size: nat, steps: Seq<Step>)
    requires
        can_run(size, steps),
    ensures
        run(size, steps).wf(size),
    decreases steps.len(),
{
    if steps.len() == 0 {
        lemma_initial(size);
    } else {
        let s = run(size, steps.drop_last());
        lemma_run(size, steps.drop_last());
        match steps.last() {
            Step::Move(i, event) => lemma_move_keeps(s, size, i, event),
            Step::Get => lemma_get_keeps(s, size),
            Step::Send(_) | Step::DropHandle(_) => lemma_handle_keeps(s, size, steps.last()),
            Step::Drain => lemma_drain_keeps(s, size),
            Step::Wait => lemma_wait_keeps(s, size),
            Step::WaitAnew(_) => {},
        }
    }
}

} // verus!
