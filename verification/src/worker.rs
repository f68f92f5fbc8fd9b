//! A worker: one consumer of the dispatch channel.
//!
//! A worker's life is a receive loop. Each message it pulls is acted on at
//! once: a job is executed synchronously on the worker's own thread, a
//! terminate signal ends the loop for good. The thread itself, and the mutual
//! exclusion around the shared receiving end of the channel, live with the
//! embedding program; this module carries the decision logic of that loop and
//! its contract.

use crate::channel::Message;
use vstd::prelude::*;

verus! {

/// Where a worker stands in its receive loop.
///
/// `Idle` and `Busy` together are the running phase: an idle worker is
/// blocked in receive, a busy worker is executing one job and holds no claim
/// on the channel meanwhile — that release is what lets other workers dequeue
/// the next message while this one works. `Stopped` is terminal.
#[derive(Clone, Copy, Debug, PartialEq, Eq, Structural)]
pub enum WorkerState {
    Idle,
    Busy,
    Stopped,
}

/// What a worker does right after dequeuing a message: run the job it was
/// handed, or exit its loop.
pub enum Action<J> {
    Run(J),
    Exit,
}

/// A worker, named by its ordinal in the pool.
pub struct Worker {
    pub id: usize,
    pub state: WorkerState,
}

impl Worker {
    /// A fresh worker starts in the running phase, waiting to receive.
    pub fn new(id: usize) -> (w: Worker)
        ensures
            w.id == id,
            w.state == WorkerState::Idle,
    {
        Worker { id, state: WorkerState::Idle }
    }

    /// Acts on one received message: a job puts the worker to work, a
    /// terminate signal stops it, and nothing else can — only receipt of
    /// `Terminate` ever ends a worker's loop.
    pub fn on_message<J>(&mut self, msg: Message<J>) -> (a: Action<J>)
        requires
            old(self).state == WorkerState::Idle,
        ensures
            final(self).id == old(self).id,
            (match msg {
                Message::NewJob(j) => a == Action::Run(j) && final(self).state
                    == WorkerState::Busy,
                Message::Terminate => a == Action::<J>::Exit && final(self).state
                    == WorkerState::Stopped,
            }),
    {
        match msg {
            Message::NewJob(j) => {
                self.state = WorkerState::Busy;
                Action::Run(j)
            },
            Message::Terminate => {
                self.state = WorkerState::Stopped;
                Action::Exit
            },
        }
    }

    /// The job this worker was running has finished, by returning or by
    /// panicking — the flag says which, and the outcome is the same either
    /// way: the worker goes back to receiving. A failing job is contained to
    /// its own execution and never takes the worker down with it.
    #[allow(unused_variables)]
    pub fn job_done(&mut self, job_panicked: bool)
        requires
            old(self).state == WorkerState::Busy,
        ensures
            final(self).id == old(self).id,
            final(self).state == WorkerState::Idle,
    {
        self.state = WorkerState::Idle;
    }
}

} // verus!
