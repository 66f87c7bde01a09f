//! The life of one worker: wait for a job, run it, go back to waiting, and
//! stop for good once the queue is closed and drained.

use vstd::prelude::*;

verus! {

/// Where a worker stands.
#[derive(Clone, Copy, PartialEq, Eq, Structural, Debug)]
pub enum WorkerState {
    /// Blocked on the queue, waiting for a job.
    Idle,
    /// Running the job it last took, on its own thread.
    Executing,
    /// The queue reported closed: the worker's thread has returned.
    ShutDown,
}

/// What a worker learns from the queue or from the job it ran.
#[derive(Clone, Copy, PartialEq, Eq, Structural, Debug)]
pub enum WorkerEvent {
    /// A receive handed over a job.
    GotJob,
    /// A receive found nothing queued while the queue was still open.
    NothingQueued,
    /// A receive found the queue closed and empty.
    QueueClosed,
    /// The job being run has ended, normally or by failing. A failure is
    /// confined to that job: the worker carries on.
    JobEnded,
}

/// What the worker's thread does next.
#[derive(Clone, Copy, PartialEq, Eq, Structural, Debug)]
pub enum WorkerAction {
    /// Run the job just received.
    Run,
    /// Block until the queue changes, then receive again.
    Wait,
    /// Receive again at once.
    Receive,
    /// Return from the thread.
    Exit,
}

/// The events that can arise in a state: a receive happens only while idle,
/// a job ends only while one runs, and nothing happens after shutdown.
pub open spec fn event_allowed(state: WorkerState, event: WorkerEvent) -> bool {
    match state {
        WorkerState::Idle => event != WorkerEvent::JobEnded,
        WorkerState::Executing => event == WorkerEvent::JobEnded,
        WorkerState::ShutDown => false,
    }
}

/// The transition of the worker state machine.
pub open spec fn step_spec(state: WorkerState, event: WorkerEvent) -> (WorkerState, WorkerAction) {
    match event {
        WorkerEvent::GotJob => (WorkerState::Executing, WorkerAction::Run),
        WorkerEvent::NothingQueued => (WorkerState::Idle, WorkerAction::Wait),
        WorkerEvent::QueueClosed => (WorkerState::ShutDown, WorkerAction::Exit),
        WorkerEvent::JobEnded => (WorkerState::Idle, WorkerAction::Receive),
    }
}

/// One worker of a pool: a stable index and the state of its loop.
pub struct Worker {
    pub id: usize,
    pub state: WorkerState,
}

impl Worker {
    /// A worker with index `id`, idle: its first act is to receive.
    pub fn new(id: usize) -> (w: Worker)
        ensures
            w.id == id,
            w.state == WorkerState::Idle,
    {
        Worker { id, state: WorkerState::Idle }
    }

    /// Moves the worker along on `event` and says what its thread does next.
    pub fn step(&mut self, event: WorkerEvent) -> (a: WorkerAction)
        requires
            event_allowed(old(self).state, event),
        ensures
            (final(self).state, a) == step_spec(old(self).state, event),
            final(self).id == old(self).id,
    {
        let (next, action) = match event {
            WorkerEvent::GotJob => (WorkerState::Executing, WorkerAction::Run),
            WorkerEvent::NothingQueued => (WorkerState::Idle, WorkerAction::Wait),
            WorkerEvent::QueueClosed => (WorkerState::ShutDown, WorkerAction::Exit),
            WorkerEvent::JobEnded => (WorkerState::Idle, WorkerAction::Receive),
        };
        self.state = next;
        action
    }

    /// Whether the worker has stopped for good.
    pub fn is_shut_down(&self) -> (r: bool)
        ensures
            r == (self.state == WorkerState::ShutDown),
    {
        match self.state {
            WorkerState::ShutDown => true,
            _ => false,
        }
    }
}

/// The event that a receive result means to the worker that made it.
pub fn event_of<T>(r: &crate::channel::Received<T>) -> (e: WorkerEvent)
    ensures
        e == event_spec(*r),
{
    match r {
        crate::channel::Received::Item(_) => WorkerEvent::GotJob,
        crate::channel::Received::Empty => WorkerEvent::NothingQueued,
        crate::channel::Received::Closed => WorkerEvent::QueueClosed,
    }
}

/// Which event a receive result is: a job, an empty open queue, or a closed one.
pub open spec fn event_spec<T>(r: crate::channel::Received<T>) -> WorkerEvent {
    match r {
        crate::channel::Received::Item(_) => WorkerEvent::GotJob,
        crate::channel::Received::Empty => WorkerEvent::NothingQueued,
        crate::channel::Received::Closed => WorkerEvent::QueueClosed,
    }
}

/// A worker shuts down exactly when it finds the queue closed, and it exits
/// its thread exactly when it shuts down. A worker that was running a job
/// goes back to idle when the job ends, and a shut-down worker never moves
/// again.
pub proof fn lemma_worker_transitions(state: WorkerState, event: WorkerEvent)
    requires
        event_allowed(state, event),
    ensures
        step_spec(state, event).0 == WorkerState::ShutDown <==> event == WorkerEvent::QueueClosed,
        step_spec(state, event).1 == WorkerAction::Exit <==> step_spec(state, event).0
            == WorkerState::ShutDown,
        state == WorkerState::Executing ==> step_spec(state, event).0 == WorkerState::Idle,
        forall|e: WorkerEvent| !event_allowed(WorkerState::ShutDown, e),
{
}

} // verus!
