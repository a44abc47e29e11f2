//! What holds of a pool as a whole.
//!
//! The laws of tasks and outputs are of the contracts of the library's steps.
//! The laws that speak of a run are of the model in [`crate::system`], for every
//! order of its steps. They hold of a running pool as far as Tokio's channels and
//! notifier, and the tasks that run the workers, do what that model assumes.
use crate::channel::was_sent;
use crate::handle::{hands_over, queue_outcome};
use crate::protocol::{next_stage, Event, Stage, WaitStep};
use crate::system::{
    announced, can_run, counted, filled, given_out, in_loop, lemma_run, living, looping,
    reserving, run, slot_fits, waiting, waits_for_task, working, Free, Step, Waiter,
};
use crate::tally::{
    lemma_tally_apart, lemma_tally_opposite, lemma_tally_within, lemma_tally_zero, one_if, tally,
};
use crate::work::{Task, Work};
use crate::worker::{replies, SeatView, SlotView, WorkerAction};
use tokio::sync::oneshot;
use vstd::prelude::*;

verus! {

/// The task that a worker finds in its slot was handed over through the very slot
/// that it offered.
pub proof fn law_task_is_one_handed_over<W: Work>(
    offer: WorkerAction<W>,
    seat: SeatView<W>,
    task: Task<W>,
)
    requires
        offer.offers(seat),
        offer matches WorkerAction::Offer(offering, _) ==> was_sent(offering@.job, task),
    ensures
        offer matches WorkerAction::Offer(_, slot) && exists|sent: Result<(), Task<W>>|
            #[trigger] hands_over::<W>(slot, task, sent) && queue_outcome(sent) is Ok,
{
    if let WorkerAction::Offer(offering, slot) = offer {
        let sent = choose|sent: Result<(), Task<W>>|
            #[trigger] call_ensures(oneshot::Sender::<Task<W>>::send, (slot, task), sent) && sent
                is Ok;
        assert(hands_over::<W>(slot, task, sent));
    }
}

/// The output of a job goes back to whoever sent it: a worker whose slot brings a
/// job with a channel for its output runs that job, and what it then sends it
/// sends through that channel.
pub proof fn law_output_goes_back<W: Work>(
    action: WorkerAction<W>,
    seat: SeatView<W>,
    job: W::Input,
    reply: oneshot::Sender<W::Output>,
    output: W::Output,
)
    requires
        action.follows(seat, Ok((job, Some(reply)))),
    ensures
        action matches WorkerAction::Execute(working, _, input) && {
            &&& input == job
            &&& replies(working@.reply, output) ==> exists|sent: Result<(), W::Output>|
                #[trigger] call_ensures(
                    oneshot::Sender::<W::Output>::send,
                    (reply, output),
                    sent,
                )
        },
{
}

/// The result that a job's sender gets is an output that was sent through the
/// channel that went out with the job.
pub proof fn law_result_is_one_sent_back<W: Work>(
    reply: oneshot::Sender<W::Output>,
    receiver: oneshot::Receiver<W::Output>,
    output: W::Output,
)
    requires
        call_ensures(oneshot::channel::<W::Output>, (), (reply, receiver)),
        was_sent(receiver, output),
    ensures
        replies(Some(reply), output),
{
}

/// A worker's state is its own: the work that one job gave back is the work that
/// the worker's next job is given.
pub proof fn law_work_carries_over<W: Work>(
    offer: WorkerAction<W>,
    seat: SeatView<W>,
    listening: SlotView<W>,
    task: Task<W>,
    action: WorkerAction<W>,
)
    requires
        offer.offers(seat),
        offer matches WorkerAction::Offer(offering, _) ==> listening == offering@,
        action.follows(listening.seat, Ok(task)),
    ensures
        action matches WorkerAction::Execute(_, work, _) && work == seat.work,
{
}

/// The count of living workers is the number of workers that have not taken
/// themselves out of it, each of which does so once, as it exits.
pub proof fn law_count_is_living(size: nat, steps: Seq<Step>)
    requires
        can_run(size, steps),
    ensures
        run(size, steps).alive == tally(run(size, steps).stages, living()),
        run(size, steps).alive <= size,
{
    lemma_run(size, steps);
    let s = run(size, steps);
    lemma_tally_opposite(s.stages, living(), |stage: Stage| !counted(stage));
}

/// Until a pool is drained, only a job that panics costs it a worker.
pub proof fn law_only_panics_cost_workers(size: nat, steps: Seq<Step>)
    requires
        can_run(size, steps),
        !run(size, steps).drained,
    ensures
        tally(run(size, steps).stages, looping()) + run(size, steps).panicked_jobs == size,
{
    lemma_run(size, steps);
}

/// A worker leaves its loop only if the pool has been drained or its job
/// panicked.
pub proof fn law_why_a_worker_leaves(size: nat, steps: Seq<Step>, i: int, step: Step)
    requires
        can_run(size, steps),
        0 <= i < size,
        run(size, steps).can(step),
        in_loop(run(size, steps).stages[i]),
        !in_loop(run(size, steps).after(step).stages[i]),
    ensures
        run(size, steps).drained || step == Step::Move(i, Event::JobPanicked),
{
    lemma_run(size, steps);
    if let Step::Move(k, event) = step {
        assert(k == i);
    }
}

/// Only a worker that has left its loop lowers the count, by one, and its exit is
/// announced only after that.
pub proof fn law_exit_lowers_then_announces(size: nat, steps: Seq<Step>, step: Step)
    requires
        can_run(size, steps),
        run(size, steps).can(step),
    ensures
        step matches Step::Move(i, Event::CountLowered) ==> {
            &&& run(size, steps).stages[i] is Leaving
            &&& run(size, steps).after(step).alive == run(size, steps).alive - 1
        },
        !(step matches Step::Move(_, Event::CountLowered)) ==> run(size, steps).after(step).alive
            == run(size, steps).alive,
        step matches Step::Move(i, Event::WaiterNotified) ==> !counted(
            run(size, steps).stages[i],
        ),
{
    lemma_run(size, steps);
    let s = run(size, steps);
    if let Step::Move(i, Event::CountLowered) = step {
        lemma_tally_zero(s.stages, living());
        assert(living()(s.stages[i]));
    }
}

/// No more jobs run at a time than there are workers.
pub proof fn law_bounded_parallelism(size: nat, steps: Seq<Step>)
    requires
        can_run(size, steps),
    ensures
        tally(run(size, steps).stages, working()) <= size,
{
    lemma_run(size, steps);
    let s = run(size, steps);
    lemma_tally_opposite(s.stages, working(), |stage: Stage| !(stage is Working));
}

/// An open pool never has more work in hand than it has living workers: the jobs
/// that run, those that wait in a slot, and the handles that are out are no more
/// than the workers alive. Where they are as many, a look for a free worker has to
/// wait.
pub proof fn law_backpressure(size: nat, steps: Seq<Step>)
    requires
        can_run(size, steps),
        !run(size, steps).drained,
    ensures
        ({
            let s = run(size, steps);
            let in_hand = tally(s.stages, working()) + tally(s.slots, given_out());
            &&& in_hand <= s.alive
            &&& in_hand == s.alive && s.alive > 0 ==> s.free() is NotYet
        }),
{
    lemma_run(size, steps);
    let s = run(size, steps);
    assert forall|i: int| 0 <= i < size implies one_if(working()(#[trigger] s.stages[i])) + one_if(
        given_out()(s.slots[i]),
    ) <= one_if(living()(s.stages[i])) by {
        assert(slot_fits(s.stages[i], s.slots[i]));
    }
    lemma_tally_within(s.stages, working(), s.slots, given_out(), living());
    if tally(s.stages, working()) + tally(s.slots, given_out()) == s.alive && s.alive > 0 {
        if s.queue.len() > 0 {
            let i = s.queue[0];
            assert(s.slots[i] is Queued);
            assert(slot_fits(s.stages[i], s.slots[i]));
            assert(in_loop(s.stages[i]));
            assert(one_if(working()(s.stages[i])) + one_if(given_out()(s.slots[i])) == one_if(
                living()(s.stages[i]),
            ));
        }
        lemma_tally_zero(s.stages, living());
        let k = choose|k: int| 0 <= k < size && living()(#[trigger] s.stages[k]);
        assert(!(s.stages[k] is Gone));
    }
}

/// A handle of an open pool is good: its worker takes the job.
pub proof fn law_handle_of_open_pool_is_good(size: nat, steps: Seq<Step>, i: int)
    requires
        can_run(size, steps),
        !run(size, steps).drained,
        0 <= i < size,
        run(size, steps).slots[i] is Held,
    ensures
        run(size, steps).can(Step::Send(i)),
        run(size, steps).after(Step::Send(i)).slots[i] is Filled,
        run(size, steps).after(Step::Send(i)).queued_jobs == run(size, steps).queued_jobs + 1,
{
    lemma_run(size, steps);
    let s = run(size, steps);
    assert(slot_fits(s.stages[i], s.slots[i]));
    assert(in_loop(s.stages[i]));
}

/// Free workers are given out in the order in which they came: a slot that comes
/// in goes behind all others, the foremost one is given out, and but for a drain
/// nothing else changes their order.
pub proof fn law_first_come_first_given(size: nat, steps: Seq<Step>, step: Step)
    requires
        can_run(size, steps),
        run(size, steps).can(step),
    ensures
        ({
            let s = run(size, steps);
            let t = s.after(step);
            match step {
                Step::Move(i, Event::SlotAccepted) => t.queue == s.queue.push(i),
                Step::Get => {
                    &&& s.free() == Free::Worker(s.queue[0])
                    &&& t.slots[s.queue[0]] is Held
                    &&& t.queue == s.queue.drop_first()
                },
                Step::Drain => s.drained || t.queue.len() == 0,
                _ => t.queue == s.queue,
            }
        }),
{
    lemma_run(size, steps);
}

/// A channel with a place for each worker is never too small: the slots in it,
/// and those that a place was set aside for, are no more than the workers.
pub proof fn law_channel_has_room(size: nat, steps: Seq<Step>)
    requires
        can_run(size, steps),
    ensures
        run(size, steps).queue.len() + tally(run(size, steps).stages, reserving()) <= size,
{
    lemma_run(size, steps);
    let s = run(size, steps);
    assert forall|i: int| 0 <= i < s.stages.len() implies !(reserving()(#[trigger] s.stages[i])
        && waiting()(s.slots[i])) by {}
    lemma_tally_apart(s.stages, reserving(), s.slots, waiting());
}

/// No job that a worker's slot took is dropped or run twice: it waits in the
/// slot, or runs, or has come to its end, or has panicked. Of a job that was
/// refused, or never sent, there is nothing of the kind.
pub proof fn law_no_job_is_dropped(size: nat, steps: Seq<Step>)
    requires
        can_run(size, steps),
    ensures
        ({
            let s = run(size, steps);
            s.queued_jobs == tally(s.slots, filled()) + tally(s.stages, working())
                + s.finished_jobs + s.panicked_jobs
        }),
{
    lemma_run(size, steps);
}

/// A task that a worker's slot took stays there until that worker runs it,
/// whatever else happens, a drain too.
pub proof fn law_taken_task_is_run(size: nat, steps: Seq<Step>, i: int, step: Step)
    requires
        can_run(size, steps),
        0 <= i < size,
        run(size, steps).slots[i] is Filled,
        run(size, steps).can(step),
    ensures
        ({
            let t = run(size, steps).after(step);
            ||| t.slots[i] is Filled && waits_for_task(t.stages[i])
            ||| t.stages[i] is Working
        }),
{
    lemma_run(size, steps);
    let s = run(size, steps);
    assert(slot_fits(s.stages[i], s.slots[i]));
    if step is Get {
        assert(s.slots[s.queue[0]] is Queued);
    }
}

/// A worker whose slot was dropped without a task leaves its loop only if the
/// pool has been drained, and offers another slot once it hears of it.
pub proof fn law_dropped_slot_frees_worker(size: nat, steps: Seq<Step>, i: int, event: Event)
    requires
        can_run(size, steps),
        0 <= i < size,
        waits_for_task(run(size, steps).stages[i]),
        run(size, steps).slots[i] is Dropped,
        run(size, steps).can(Step::Move(i, event)),
    ensures
        ({
            let t = run(size, steps).after(Step::Move(i, event));
            ||| t.stages[i] is Offering
            ||| waits_for_task(t.stages[i]) && t.slots[i] is Dropped
            ||| t.stages[i] is Leaving && t.drained
        }),
        event is SlotDropped ==> run(size, steps).after(Step::Move(i, event)).stages[i] is Offering,
{
    lemma_run(size, steps);
}

/// A drained pool stays drained, and gives out no more handles.
pub proof fn law_drained_for_good(size: nat, steps: Seq<Step>, step: Step)
    requires
        can_run(size, steps),
        run(size, steps).drained,
        run(size, steps).can(step),
    ensures
        !(step is Get),
        run(size, steps).after(step).drained,
{
}

/// Draining a pool twice is draining it once.
pub proof fn law_drain_is_idempotent(size: nat, steps: Seq<Step>)
    requires
        can_run(size, steps),
    ensures
        run(size, steps).after(Step::Drain).after(Step::Drain) == run(size, steps).after(
            Step::Drain,
        ),
{
    let once = run(size, steps).after(Step::Drain);
    assert(once.after(Step::Drain).slots =~= once.slots);
}

/// After a drain no worker waits for the pool, for a handle, or for another
/// worker: each that is not gone can move, a busy one as soon as its job ends.
pub proof fn law_shutdown_never_stalls(size: nat, steps: Seq<Step>, i: int)
    requires
        can_run(size, steps),
        run(size, steps).drained,
        0 <= i < size,
        !(run(size, steps).stages[i] is Gone),
    ensures
        exists|event: Event| #[trigger] run(size, steps).can(Step::Move(i, event)),
{
    lemma_run(size, steps);
    let s = run(size, steps);
    let event = match s.stages[i] {
        Stage::Offering => Event::SlotRefused,
        Stage::Reserved => Event::SlotAccepted,
        Stage::Listening => if s.slots[i] is Filled {
            Event::TaskArrived
        } else if s.slots[i] is Dropped {
            Event::SlotDropped
        } else {
            Event::NothingHeard
        },
        Stage::Unheard => if s.slots[i] is Filled {
            Event::TaskFoundLate
        } else {
            Event::ChannelClosed
        },
        Stage::Working => Event::JobFinished,
        Stage::Leaving => Event::CountLowered,
        Stage::Uncounted => Event::WaiterNotified,
        _ => Event::SenderDropped,
    };
    assert(s.can(Step::Move(i, event)));
}

/// A worker of an open pool is not left behind: unless it has left its loop, its
/// slot is with the pool or with a handle, or it can move on, a busy one as soon
/// as its job ends.
pub proof fn law_open_pool_never_stalls(size: nat, steps: Seq<Step>, i: int)
    requires
        can_run(size, steps),
        !run(size, steps).drained,
        0 <= i < size,
        in_loop(run(size, steps).stages[i]),
    ensures
        run(size, steps).slots[i] is Queued || run(size, steps).slots[i] is Held || exists|
            event: Event,
        | #[trigger] run(size, steps).can(Step::Move(i, event)) && event != Event::NothingHeard,
{
    lemma_run(size, steps);
    let s = run(size, steps);
    let event = match s.stages[i] {
        Stage::Offering => Event::PlaceReserved,
        Stage::Reserved => Event::SlotAccepted,
        Stage::Listening => if s.slots[i] is Filled {
            Event::TaskArrived
        } else {
            Event::SlotDropped
        },
        Stage::Unheard => Event::ChannelOpen,
        _ => Event::JobFinished,
    };
    if !(s.slots[i] is Queued || s.slots[i] is Held) {
        assert(s.can(Step::Move(i, event)));
    }
}

/// A look for a free worker finds none, for good, exactly if the pool has been
/// drained or all its workers have exited. In the second case no worker is
/// counted any more by then: each drops its sender only after it has left the
/// count.
pub proof fn law_none_free_when_all_exited(size: nat, steps: Seq<Step>)
    requires
        can_run(size, steps),
    ensures
        ({
            let s = run(size, steps);
            &&& s.free() is Never <==> s.drained || s.all_gone()
            &&& s.all_gone() ==> s.alive == 0
        }),
{
    lemma_run(size, steps);
    let s = run(size, steps);
    if s.all_gone() {
        lemma_tally_zero(s.stages, living());
        if !s.drained && s.queue.len() > 0 {
            let i = s.queue[0];
            assert(s.stages[i] is Gone && s.slots[i] is Queued);
        }
    }
}

/// Where no worker is free for good, none is free later.
pub proof fn law_none_free_is_for_good(size: nat, steps: Seq<Step>, step: Step)
    requires
        can_run(size, steps),
        run(size, steps).free() is Never,
        run(size, steps).can(step),
    ensures
        run(size, steps).after(step).free() is Never,
{
    let s = run(size, steps);
    let t = s.after(step);
    if !s.drained {
        assert forall|i: int| 0 <= i < t.stages.len() implies #[trigger] t.stages[i] is Gone by {
            assert(s.stages[i] is Gone);
        }
        if let Step::Move(i, _) = step {
            assert(s.stages[i] is Gone);
        }
    }
}

/// Giving out a handle neither drains a pool nor changes its count.
pub proof fn law_get_keeps_the_pool(size: nat, steps: Seq<Step>)
    requires
        can_run(size, steps),
        run(size, steps).can(Step::Get),
    ensures
        run(size, steps).after(Step::Get).drained == run(size, steps).drained,
        run(size, steps).after(Step::Get).alive == run(size, steps).alive,
{
}

/// A worker that takes no more jobs once its pool is drained.
pub open spec fn done_with_jobs(stage: Stage) -> bool {
    stage is Offering || !in_loop(stage)
}

proof fn lemma_done_with_jobs(size: nat, before: Seq<Step>, rest: Seq<Step>, i: int)
    requires
        can_run(size, before + rest),
        0 <= i < size,
        run(size, before).drained,
        done_with_jobs(run(size, before).stages[i]),
    ensures
        run(size, before + rest).drained,
        done_with_jobs(run(size, before + rest).stages[i]),
    decreases rest.len(),
{
    if rest.len() == 0 {
        assert(before + rest =~= before);
    } else {
        let steps = before + rest;
        assert(steps.drop_last() =~= before + rest.drop_last());
        lemma_done_with_jobs(size, before, rest.drop_last(), i);
        lemma_run(size, steps.drop_last());
    }
}

/// A worker of a drained pool takes no job after its current one: once that has
/// come to its end, or has panicked, the worker never works again.
pub proof fn law_last_job_is_the_last(
    size: nat,
    before: Seq<Step>,
    i: int,
    event: Event,
    rest: Seq<Step>,
)
    requires
        0 <= i < size,
        run(size, before).drained,
        run(size, before).stages[i] is Working,
        event is JobFinished || event is JobPanicked,
        can_run(size, before.push(Step::Move(i, event)) + rest),
    ensures
        !(run(size, before.push(Step::Move(i, event)) + rest).stages[i] is Working),
{
    let ended = before.push(Step::Move(i, event));
    assert(ended.drop_last() =~= before);
    lemma_prefix_can_run(size, ended, rest);
    lemma_run(size, before);
    lemma_done_with_jobs(size, ended, rest, i);
}

proof fn lemma_prefix_can_run(size: nat, before: Seq<Step>, rest: Seq<Step>)
    requires
        can_run(size, before + rest),
    ensures
        can_run(size, before),
    decreases rest.len(),
{
    if rest.len() == 0 {
        assert(before + rest =~= before);
    } else {
        assert((before + rest).drop_last() =~= before + rest.drop_last());
        lemma_prefix_can_run(size, before, rest.drop_last());
    }
}

/// The most moves that a worker of a drained pool has left.
pub open spec fn moves_left(stage: Stage) -> nat {
    match stage {
        Stage::Reserved => 8,
        Stage::Listening => 7,
        Stage::Unheard => 6,
        Stage::Working => 5,
        Stage::Offering => 4,
        Stage::Leaving => 3,
        Stage::Uncounted => 2,
        Stage::Announced => 1,
        Stage::Gone => 0,
    }
}

/// The most moves that the workers of a drained pool have left together.
pub open spec fn all_moves_left(stages: Seq<Stage>) -> nat
    decreases stages.len(),
{
    if stages.len() == 0 {
        0
    } else {
        all_moves_left(stages.drop_last()) + moves_left(stages.last())
    }
}

/// How many of the steps are moves of workers.
pub open spec fn moves(steps: Seq<Step>) -> nat
    decreases steps.len(),
{
    if steps.len() == 0 {
        0
    } else {
        moves(steps.drop_last()) + (if steps.last() is Move {
            1nat
        } else {
            0
        })
    }
}

proof fn lemma_moves_left_update(stages: Seq<Stage>, i: int, stage: Stage)
    requires
        0 <= i < stages.len(),
    ensures
        all_moves_left(stages.update(i, stage)) + moves_left(stages[i]) == all_moves_left(stages)
            + moves_left(stage),
    decreases stages.len(),
{
    let changed = stages.update(i, stage);
    if i == stages.len() - 1 {
        assert(changed.drop_last() =~= stages.drop_last());
    } else {
        assert(changed.drop_last() =~= stages.drop_last().update(i, stage));
        lemma_moves_left_update(stages.drop_last(), i, stage);
    }
}

proof fn lemma_moves_left_bound(stages: Seq<Stage>)
    ensures
        all_moves_left(stages) <= 8 * stages.len(),
        all_moves_left(stages) == 0 ==> forall|i: int|
            0 <= i < stages.len() ==> #[trigger] stages[i] is Gone,
    decreases stages.len(),
{
    if stages.len() > 0 {
        lemma_moves_left_bound(stages.drop_last());
        if all_moves_left(stages) == 0 {
            assert forall|i: int| 0 <= i < stages.len() implies #[trigger] stages[i] is Gone by {
                if i < stages.len() - 1 {
                    assert(stages.drop_last()[i] is Gone);
                }
            }
        }
    }
}

proof fn lemma_moves_run_out(size: nat, before: Seq<Step>, rest: Seq<Step>)
    requires
        can_run(size, before + rest),
        run(size, before).drained,
    ensures
        can_run(size, before),
        run(size, before + rest).drained,
        moves(rest) + all_moves_left(run(size, before + rest).stages) <= all_moves_left(
            run(size, before).stages,
        ),
    decreases rest.len(),
{
    if rest.len() == 0 {
        assert(before + rest =~= before);
    } else {
        let steps = before + rest;
        assert(steps.drop_last() =~= before + rest.drop_last());
        assert(steps.last() == rest.last());
        lemma_moves_run_out(size, before, rest.drop_last());
        let s = run(size, steps.drop_last());
        if let Step::Move(i, event) = steps.last() {
            lemma_moves_left_update(s.stages, i, next_stage(s.stages[i], event)->0);
        }
    }
}

/// A drained pool comes to rest: whatever else happens, its workers make at most
/// eight moves each from then on, the ends of their jobs among them.
pub proof fn law_shutdown_ends(size: nat, before: Seq<Step>, rest: Seq<Step>)
    requires
        can_run(size, before + rest),
        run(size, before).drained,
    ensures
        moves(rest) <= 8 * size,
{
    lemma_moves_run_out(size, before, rest);
    lemma_run(size, before);
    lemma_moves_left_bound(run(size, before).stages);
}

/// A wait ends only when no worker is counted any more.
pub proof fn law_wait_ends_with_the_workers(size: nat, steps: Seq<Step>)
    requires
        can_run(size, steps),
        run(size, steps).waiter == Waiter::At(WaitStep::Done),
    ensures
        run(size, steps).alive == 0,
        forall|i: int|
            0 <= i < size ==> !counted(#[trigger] run(size, steps).stages[i]),
{
    lemma_run(size, steps);
    lemma_tally_zero(run(size, steps).stages, living());
}

/// A wait that begins when no worker is counted any more ends without a sleep.
pub proof fn law_wait_for_nobody_ends_at_once(size: nat, steps: Seq<Step>)
    requires
        can_run(size, steps),
        run(size, steps).alive == 0,
        run(size, steps).waiter == Waiter::At(WaitStep::Register),
    ensures
        run(size, steps).can(Step::Wait),
        run(size, steps).after(Step::Wait).can(Step::Wait),
        run(size, steps).after(Step::Wait).after(Step::Wait).waiter == Waiter::At(WaitStep::Done),
{
}

/// How many moves a waiting task has left once every worker is gone.
pub open spec fn wait_left(waiter: Waiter) -> nat {
    match waiter {
        Waiter::At(WaitStep::Sleep) => 3,
        Waiter::At(WaitStep::Register) => 2,
        Waiter::Registered => 1,
        Waiter::At(WaitStep::Done) => 0,
    }
}

/// No wake-up is lost: once every worker's exit has been announced, a task that
/// waits is not left asleep, and each move brings it nearer to the end of its wait.
pub proof fn law_no_lost_wakeup(size: nat, steps: Seq<Step>)
    requires
        can_run(size, steps),
        forall|i: int| 0 <= i < size ==> announced(#[trigger] run(size, steps).stages[i]),
        run(size, steps).waiter != Waiter::At(WaitStep::Done),
    ensures
        run(size, steps).can(Step::Wait),
        wait_left(run(size, steps).after(Step::Wait).waiter) < wait_left(
            run(size, steps).waiter,
        ),
{
    lemma_run(size, steps);
    lemma_tally_zero(run(size, steps).stages, living());
}

/// When a wait has ended, every job that a worker's slot took has come to its end
/// or has panicked.
pub proof fn law_wait_covers_jobs(size: nat, steps: Seq<Step>)
    requires
        can_run(size, steps),
        run(size, steps).waiter == Waiter::At(WaitStep::Done),
    ensures
        run(size, steps).queued_jobs == run(size, steps).finished_jobs + run(
            size,
            steps,
        ).panicked_jobs,
{
    lemma_run(size, steps);
    let s = run(size, steps);
    lemma_tally_zero(s.stages, living());
    assert forall|i: int| 0 <= i < size implies !working()(#[trigger] s.stages[i]) by {}
    lemma_tally_zero(s.stages, working());
    assert forall|i: int| 0 <= i < size implies !filled()(#[trigger] s.slots[i]) by {
        assert(!living()(s.stages[i]));
    }
    lemma_tally_zero(s.slots, filled());
}

/// A shutdown runs to its end: once a pool is drained, there is nothing left for
/// its workers and for the waiting task to do only when every worker is gone, the
/// wait is over, and every job that was taken has come to its end or has panicked.
pub proof fn law_shutdown_completes(size: nat, steps: Seq<Step>)
    requires
        can_run(size, steps),
        run(size, steps).drained,
        forall|i: int, event: Event| !#[trigger] run(size, steps).can(Step::Move(i, event)),
        !run(size, steps).can(Step::Wait),
    ensures
        forall|i: int| 0 <= i < size ==> #[trigger] run(size, steps).stages[i] is Gone,
        run(size, steps).alive == 0,
        run(size, steps).waiter == Waiter::At(WaitStep::Done),
        run(size, steps).queued_jobs == run(size, steps).finished_jobs + run(
            size,
            steps,
        ).panicked_jobs,
{
    let s = run(size, steps);
    assert forall|i: int| 0 <= i < size implies #[trigger] s.stages[i] is Gone by {
        if !(s.stages[i] is Gone) {
            law_shutdown_never_stalls(size, steps, i);
        }
    }
    if s.waiter != Waiter::At(WaitStep::Done) {
        law_no_lost_wakeup(size, steps);
    }
    law_wait_ends_with_the_workers(size, steps);
    law_wait_covers_jobs(size, steps);
}

} // verus!
