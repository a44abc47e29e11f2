//! The handle through which one job reaches one worker.
use crate::channel::{never_sent, resolve, resolves, unresolved, was_sent, Resolution};
use crate::work::{Task, Work, WorkerSlot};
use std::task::Waker;
use tokio::sync::oneshot;
use vstd::prelude::*;

verus! {

/// Why a job has no result.
#[derive(Debug)]
pub enum JobError {
    /// The worker was gone before it got the job.
    NotQueued,
    /// The worker was gone before it gave the output back.
    NoReply(oneshot::error::RecvError),
}

/// A handle on one free worker.
///
/// It takes one job. Dropped without one, it leaves the worker free.
#[verifier::reject_recursive_types(W)]
pub struct WorkerHandle<W: Work> {
    sender: WorkerSlot<W>,
}

/// A job's output that has not come yet.
#[verifier::reject_recursive_types(W)]
pub struct PendingOutput<W: Work> {
    receiver: oneshot::Receiver<W::Output>,
}

/// What a look for a job's output brings.
#[verifier::reject_recursive_types(W)]
pub enum Reply<W: Work> {
    /// Nothing yet.
    Pending(PendingOutput<W>),
    /// The output, or why there is none.
    Ready(Result<W::Output, JobError>),
}

impl<W: Work> View for WorkerHandle<W> {
    type V = WorkerSlot<W>;

    closed spec fn view(&self) -> WorkerSlot<W> {
        self.sender
    }
}

impl<W: Work> View for PendingOutput<W> {
    type V = oneshot::Receiver<W::Output>;

    closed spec fn view(&self) -> oneshot::Receiver<W::Output> {
        self.receiver
    }
}

/// Handing `task` over through `slot` may end in `sent`.
pub open spec fn hands_over<W: Work>(
    slot: WorkerSlot<W>,
    task: Task<W>,
    sent: Result<(), Task<W>>,
) -> bool {
    call_ensures(oneshot::Sender::<Task<W>>::send, (slot, task), sent)
}

/// A job is queued exactly if the task was taken.
pub open spec fn queue_outcome<T>(sent: Result<(), T>) -> Result<(), JobError> {
    match sent {
        Ok(_) => Ok(()),
        Err(_) => Err(JobError::NotQueued),
    }
}

/// A job has a result exactly if its output came back.
pub open spec fn job_outcome<T>(received: Result<T, oneshot::error::RecvError>) -> Result<
    T,
    JobError,
> {
    match received {
        Ok(output) => Ok(output),
        Err(error) => Err(JobError::NoReply(error)),
    }
}

impl<W: Work> PendingOutput<W> {
    #[verifier::type_invariant]
    spec fn wf(self) -> bool {
        unresolved(self.receiver)
    }
}

/// `to_string` of `tokio::sync::oneshot::error::RecvError`, whose `Display`
/// writes one fixed text.
#[verifier::external_body]
fn recv_error_text(error: &oneshot::error::RecvError) -> (text: String)
    ensures
        text@ == "channel closed"@,
{
    format!("{error}")
}

impl JobError {
    /// The error in words.
    pub open spec fn text(self) -> Seq<char> {
        match self {
            JobError::NotQueued => "failed to queue job"@,
            JobError::NoReply(_) => "channel closed"@,
        }
    }

    /// The error in words.
    pub fn message(&self) -> (message: String)
        ensures
            message@ == self.text(),
    {
        match self {
            JobError::NotQueued => "failed to queue job".to_string(),
            JobError::NoReply(error) => recv_error_text(error),
        }
    }
}

/// Tells whether a job was queued from what handing it over gave.
pub fn queued<T>(sent: Result<(), T>) -> (outcome: Result<(), JobError>)
    ensures
        outcome == queue_outcome(sent),
        sent is Ok ==> outcome is Ok,
        sent is Err ==> outcome == Err::<(), JobError>(JobError::NotQueued),
{
    match sent {
        Ok(_) => Ok(()),
        Err(_) => Err(JobError::NotQueued),
    }
}

/// Tells the result of a job from what came back for it.
pub fn result_of<T>(received: Result<T, oneshot::error::RecvError>) -> (outcome: Result<
    T,
    JobError,
>)
    ensures
        outcome == job_outcome(received),
        received matches Ok(output) ==> outcome == Ok::<T, JobError>(output),
        received matches Err(error) ==> outcome == Err::<T, JobError>(JobError::NoReply(error)),
{
    match received {
        Ok(output) => Ok(output),
        Err(error) => Err(JobError::NoReply(error)),
    }
}

impl<W: Work> WorkerHandle<W> {
    /// A handle on the worker that offered `slot`.
    pub(crate) fn new(slot: WorkerSlot<W>) -> (handle: Self)
        ensures
            handle@ == slot,
    {
        WorkerHandle { sender: slot }
    }

    /// Sends a job to the worker, and does not wait for a result.
    pub fn send(self, job: W::Input) -> (outcome: Result<(), JobError>)
        ensures
            exists|sent: Result<(), Task<W>>| #[trigger]
                hands_over::<W>(self@, (job, None), sent) && outcome == queue_outcome(sent),
    {
        let sent = self.sender.send((job, None));
        let ghost given = sent;
        assert(hands_over::<W>(self@, (job, None), given));
        queued(sent)
    }

    /// Sends a job to the worker together with a fresh channel for its output,
    /// whose other end is what to wait on.
    pub fn run(self, job: W::Input) -> (outcome: Result<PendingOutput<W>, JobError>)
        ensures
            exists|
                reply: oneshot::Sender<W::Output>,
                receiver: oneshot::Receiver<W::Output>,
                sent: Result<(), Task<W>>,
            |
                {
                    &&& #[trigger] call_ensures(
                        oneshot::channel::<W::Output>,
                        (),
                        (reply, receiver),
                    )
                    &&& #[trigger] hands_over::<W>(self@, (job, Some(reply)), sent)
                    &&& match queue_outcome(sent) {
                        Ok(_) => outcome matches Ok(pending) && pending@ == receiver,
                        Err(error) => outcome == Err::<PendingOutput<W>, JobError>(error),
                    }
                },
    {
        let (reply, receiver) = oneshot::channel();
        let ghost ends = (reply, receiver);
        assert(call_ensures(oneshot::channel::<W::Output>, (), ends));
        let sent = self.sender.send((job, Some(reply)));
        let ghost given = sent;
        assert(hands_over::<W>(self@, (job, Some(ends.0)), given));
        match queued(sent) {
            Ok(_) => Ok(PendingOutput { receiver }),
            Err(error) => Err(error),
        }
    }
}

impl<W: Work> PendingOutput<W> {
    /// Looks for the output.
    pub fn poll(self, waker: &Waker) -> (reply: Reply<W>)
        ensures
            exists|resolution: Resolution<W::Output>|
                #![trigger resolves(self@, *waker, resolution)]
                {
                    &&& resolves(self@, *waker, resolution)
                    &&& match resolution {
                        Resolution::Pending(_) => reply matches Reply::Pending(pending)
                            && pending@ == self@,
                        Resolution::Ready(received) => reply == Reply::<W>::Ready(
                            job_outcome(received),
                        ),
                    }
                },
            reply matches Reply::Ready(Ok(output)) ==> was_sent(self@, output),
            reply matches Reply::Ready(Err(error)) ==> error is NoReply && never_sent(self@),
    {
        proof {
            use_type_invariant(&self);
        }
        let resolution = resolve(self.receiver, waker);
        let ghost found = resolution;
        let reply = match resolution {
            Resolution::Pending(receiver) => Reply::Pending(PendingOutput { receiver }),
            Resolution::Ready(received) => Reply::Ready(result_of(received)),
        };
        assert(resolves(self@, *waker, found));
        reply
    }
}

} // verus!
