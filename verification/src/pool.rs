//! The pool: owner of a fixed set of workers and of the sending end of the
//! dispatch channel.
//!
//! The pool accepts jobs from any number of callers and routes each one,
//! through the FIFO channel, to exactly one worker. Teardown is a two-phase
//! protocol: first one terminate signal per worker is enqueued, then every
//! worker is waited for, so that when teardown returns no worker is left
//! running and no accepted job has been dropped.
//!
//! The pool here is the dispatch logic itself, generic in the job value it
//! carries. The embedding program supplies what a verifier cannot: the OS
//! threads that run the workers' receive loops, the blocking receive, and the
//! invocation of the job closures. It drives one `deliver`/`complete` per
//! worker loop iteration, which is where the contracts below pin down what
//! any such schedule can observe.

use crate::channel::{
    jobs_of, jobs_precede_terminates, lemma_all_jobs, lemma_drop_first_precede, lemma_push_job,
    lemma_push_terminate, lemma_terminates_only, terminate_count, Channel, Message,
};
use crate::worker::{Action, Worker, WorkerState};
use vstd::prelude::*;

verus! {

/// Why a submission was refused.
#[derive(Clone, Copy, Debug, PartialEq, Eq, Structural)]
pub enum SubmitError {
    /// Teardown has begun; the receiving side of the channel is going away
    /// and the job was not enqueued.
    ShuttingDown,
}

/// A fixed-size worker pool around one dispatch channel.
pub struct Pool<J> {
    workers: Vec<Worker>,
    channel: Channel<J>,
    down: bool,
    submitted: Ghost<Seq<J>>,
    delivered: Ghost<Seq<J>>,
}

impl<J> Pool<J> {
    /// The messages sitting in the dispatch channel, oldest first.
    pub closed spec fn queue(&self) -> Seq<Message<J>> {
        self.channel@
    }

    /// The jobs accepted by `submit` so far, in submission order.
    pub closed spec fn submitted_jobs(&self) -> Seq<J> {
        self.submitted@
    }

    /// The jobs handed to workers so far, in delivery order. A job enters
    /// this log at the moment a worker dequeues it, which happens at most
    /// once per job.
    pub closed spec fn delivered_jobs(&self) -> Seq<J> {
        self.delivered@
    }

    /// Each worker's place in its lifecycle, indexed by worker id.
    pub closed spec fn worker_states(&self) -> Seq<WorkerState> {
        self.workers@.map_values(|w: Worker| w.state)
    }

    /// How many workers the pool was built with.
    pub closed spec fn num_workers(&self) -> nat {
        self.workers@.len()
    }

    /// Whether teardown has begun. Once it has, no submission is accepted.
    pub closed spec fn shutting_down(&self) -> bool {
        self.down
    }

    /// The jobs still queued and not yet delivered, oldest first.
    pub open spec fn pending_jobs(&self) -> Seq<J> {
        jobs_of(self.queue())
    }

    /// Workers are stored at the index matching their ordinal id.
    pub closed spec fn ids_consistent(&self) -> bool {
        forall|i: int| 0 <= i < self.workers@.len() ==> self.workers@[i].id == i
    }

    /// The pool's invariant, established by `new` and kept by every
    /// operation.
    ///
    /// Its heart is the accounting equation: the submission log is exactly
    /// the delivery log followed by the queued jobs. Delivery order is
    /// submission order, and nothing is ever duplicated or dropped — each
    /// submitted job is either already delivered (exactly once) or still
    /// queued (exactly once).
    pub open spec fn wf(&self) -> bool {
        &&& self.num_workers() >= 1
        &&& self.worker_states().len() == self.num_workers()
        &&& self.ids_consistent()
        &&& self.submitted_jobs() == self.delivered_jobs() + self.pending_jobs()
        &&& !self.shutting_down() ==> (forall|i: int|
            0 <= i < self.queue().len() ==> self.queue()[i] is NewJob)
        &&& !self.shutting_down() ==> (forall|i: int|
            0 <= i < self.worker_states().len() ==> self.worker_states()[i]
                != WorkerState::Stopped)
    }

    /// Builds a pool of `size` workers sharing one dispatch channel. A pool
    /// of zero workers could never run anything, so zero is ruled out at the
    /// call site; no usable pool of size zero can exist.
    ///
    /// No job runs during construction: the channel starts empty and every
    /// worker starts idle.
    pub fn new(size: usize) -> (p: Pool<J>)
        requires
            size >= 1,
        ensures
            p.wf(),
            p.num_workers() == size,
            p.queue() == Seq::<Message<J>>::empty(),
            p.submitted_jobs() == Seq::<J>::empty(),
            p.delivered_jobs() == Seq::<J>::empty(),
            !p.shutting_down(),
            forall|i: int| 0 <= i < size ==> p.worker_states()[i] == WorkerState::Idle,
    {
        let mut workers: Vec<Worker> = Vec::new();
        let mut id: usize = 0;
        while id < size
            invariant
                id <= size,
                workers@.len() == id,
                forall|i: int| 0 <= i < id ==> workers@[i].id == i,
                forall|i: int| 0 <= i < id ==> workers@[i].state == WorkerState::Idle,
            decreases size - id,
        {
            workers.push(Worker::new(id));
            id = id + 1;
        }
        let p = Pool {
            workers,
            channel: Channel::new(),
            down: false,
            submitted: Ghost(Seq::empty()),
            delivered: Ghost(Seq::empty()),
        };
        proof {
            assert(p.worker_states().len() == size);
            assert(p.submitted_jobs() =~= p.delivered_jobs() + p.pending_jobs());
        }
        p
    }

    /// How many workers the pool runs.
    pub fn size(&self) -> (n: usize)
        ensures
            n == self.num_workers(),
    {
        self.workers.len()
    }

    /// How many messages are still queued.
    pub fn queued(&self) -> (n: usize)
        ensures
            n == self.queue().len(),
    {
        self.channel.len()
    }

    /// Where the given worker stands.
    pub fn worker_state(&self, wid: usize) -> (s: WorkerState)
        requires
            wid < self.num_workers(),
        ensures
            s == self.worker_states()[wid as int],
    {
        let s = self.workers[wid].state;
        proof {
            assert(self.worker_states()[wid as int] == self.workers@[wid as int].state);
        }
        s
    }

    /// Accepts a job: wraps it in a job message and enqueues it, without
    /// waiting for any execution. The job is enqueued if and only if teardown
    /// has not begun; a submission that races with shutdown is refused with
    /// an error, never silently dropped.
    pub fn submit(&mut self, job: J) -> (r: Result<(), SubmitError>)
        requires
            old(self).wf(),
        ensures
            final(self).wf(),
            r is Ok <==> !old(self).shutting_down(),
            final(self).num_workers() == old(self).num_workers(),
            final(self).worker_states() == old(self).worker_states(),
            final(self).delivered_jobs() == old(self).delivered_jobs(),
            final(self).shutting_down() == old(self).shutting_down(),
            old(self).shutting_down() ==> *final(self) == *old(self),
            !old(self).shutting_down() ==> final(self).queue() == old(self).queue().push(
                Message::NewJob(job),
            ),
            !old(self).shutting_down() ==> final(self).submitted_jobs() == old(
                self,
            ).submitted_jobs().push(job),
            !old(self).shutting_down() ==> final(self).pending_jobs() == old(
                self,
            ).pending_jobs().push(job),
    {
        if self.down {
            return Err(SubmitError::ShuttingDown);
        }
        proof {
            lemma_push_job(self.channel@, job);
        }
        let ghost j = job;
        self.channel.send(Message::NewJob(job));
        self.submitted = Ghost(self.submitted@.push(j));
        proof {
            assert(self.submitted_jobs() =~= self.delivered_jobs() + self.pending_jobs());
            assert(forall|i: int|
                0 <= i < old(self).queue().len() ==> self.queue()[i] == old(self).queue()[i]);
        }
        Ok(())
    }

    /// One worker, blocked in receive, dequeues the oldest message and acts
    /// on it: a job message puts exactly that worker to work on exactly that
    /// job, a terminate signal stops it. No other worker and no other
    /// message is touched — which is why a second idle worker can dequeue
    /// the next message while this one is still busy.
    pub fn deliver(&mut self, wid: usize) -> (a: Action<J>)
        requires
            old(self).wf(),
            wid < old(self).num_workers(),
            old(self).worker_states()[wid as int] == WorkerState::Idle,
            old(self).queue().len() > 0,
        ensures
            final(self).wf(),
            final(self).num_workers() == old(self).num_workers(),
            final(self).shutting_down() == old(self).shutting_down(),
            final(self).submitted_jobs() == old(self).submitted_jobs(),
            final(self).queue() == old(self).queue().drop_first(),
            (match old(self).queue()[0] {
                Message::NewJob(j) => {
                    &&& a == Action::Run(j)
                    &&& final(self).worker_states() == old(self).worker_states().update(
                        wid as int,
                        WorkerState::Busy,
                    )
                    &&& final(self).delivered_jobs() == old(self).delivered_jobs().push(j)
                    &&& final(self).pending_jobs() == old(self).pending_jobs().drop_first()
                    &&& old(self).pending_jobs().len() > 0 && j == old(self).pending_jobs()[0]
                },
                Message::Terminate => {
                    &&& a == Action::<J>::Exit
                    &&& final(self).worker_states() == old(self).worker_states().update(
                        wid as int,
                        WorkerState::Stopped,
                    )
                    &&& final(self).delivered_jobs() == old(self).delivered_jobs()
                    &&& final(self).pending_jobs() == old(self).pending_jobs()
                },
            }),
    {
        let msg = self.channel.receive();
        let mut w = Worker::new(wid);
        proof {
            assert(self.workers@[wid as int].id == wid);
            assert(self.worker_states()[wid as int] == self.workers@[wid as int].state);
        }
        match msg {
            Message::NewJob(j) => {
                let ghost gj = j;
                w.state = WorkerState::Busy;
                self.workers.set(wid, w);
                self.delivered = Ghost(self.delivered@.push(gj));
                proof {
                    self.lemma_after_deliver(*old(self), wid);
                }
                Action::Run(j)
            },
            Message::Terminate => {
                w.state = WorkerState::Stopped;
                self.workers.set(wid, w);
                proof {
                    self.lemma_after_deliver(*old(self), wid);
                }
                Action::Exit
            },
        }
    }

    /// Spec-level bookkeeping shared by both arms of `deliver`.
    proof fn lemma_after_deliver(&self, prev: Pool<J>, wid: usize)
        requires
            prev.wf(),
            wid < prev.num_workers(),
            prev.queue().len() > 0,
            self.workers@ == prev.workers@.update(
                wid as int,
                Worker {
                    id: wid,
                    state: self.workers@[wid as int].state,
                },
            ),
            self.channel@ == prev.channel@.drop_first(),
            self.down == prev.down,
            self.submitted@ == prev.submitted@,
            self.delivered@ == (match prev.queue()[0] {
                Message::NewJob(j) => prev.delivered@.push(j),
                Message::Terminate => prev.delivered@,
            }),
            (match prev.queue()[0] {
                Message::NewJob(j) => self.workers@[wid as int].state == WorkerState::Busy,
                Message::Terminate => self.workers@[wid as int].state == WorkerState::Stopped,
            }),
        ensures
            self.wf(),
            self.worker_states() == prev.worker_states().update(
                wid as int,
                self.workers@[wid as int].state,
            ),
            (match prev.queue()[0] {
                Message::NewJob(j) => self.pending_jobs() == prev.pending_jobs().drop_first()
                    && prev.pending_jobs().len() > 0 && j == prev.pending_jobs()[0],
                Message::Terminate => self.pending_jobs() == prev.pending_jobs(),
            }),
    {
        assert(self.worker_states() =~= prev.worker_states().update(
            wid as int,
            self.workers@[wid as int].state,
        ));
        assert forall|i: int| 0 <= i < self.workers@.len() implies self.workers@[i].id == i by {
            if i != wid as int {
                assert(self.workers@[i] == prev.workers@[i]);
            }
        }
        assert(self.ids_consistent());
        match prev.queue()[0] {
            Message::NewJob(j) => {
                assert(jobs_of(prev.queue()) == seq![j] + jobs_of(self.queue()));
                assert(self.submitted_jobs() =~= self.delivered_jobs() + self.pending_jobs());
                assert(prev.pending_jobs()[0] == j);
                assert(self.pending_jobs() =~= prev.pending_jobs().drop_first());
            },
            Message::Terminate => {
                assert(jobs_of(prev.queue()) == jobs_of(self.queue()));
                assert(self.submitted_jobs() =~= self.delivered_jobs() + self.pending_jobs());
                assert(self.shutting_down());
            },
        }
        if !self.shutting_down() {
            assert(forall|i: int|
                0 <= i < self.queue().len() ==> self.queue()[i] == prev.queue()[i + 1]);
        }
    }

    /// The job a worker was running has finished — normally or by panic, it
    /// makes no difference here — and the worker is back at the channel,
    /// receiving. One job's failure is contained to that job: the worker
    /// survives and every job still queued remains deliverable exactly as
    /// before.
    #[allow(unused_variables)]
    pub fn complete(&mut self, wid: usize, job_panicked: bool)
        requires
            old(self).wf(),
            wid < old(self).num_workers(),
            old(self).worker_states()[wid as int] == WorkerState::Busy,
        ensures
            final(self).wf(),
            final(self).num_workers() == old(self).num_workers(),
            final(self).shutting_down() == old(self).shutting_down(),
            final(self).queue() == old(self).queue(),
            final(self).submitted_jobs() == old(self).submitted_jobs(),
            final(self).delivered_jobs() == old(self).delivered_jobs(),
            final(self).worker_states() == old(self).worker_states().update(
                wid as int,
                WorkerState::Idle,
            ),
    {
        proof {
            assert(self.workers@[wid as int].id == wid);
        }
        let mut w = Worker::new(wid);
        w.state = WorkerState::Idle;
        self.workers.set(wid, w);
        proof {
            assert(self.worker_states() =~= old(self).worker_states().update(
                wid as int,
                WorkerState::Idle,
            ));
        }
    }

    /// Tears the pool down: refuses further submissions, enqueues exactly one
    /// terminate signal per worker, then waits each worker out. The two
    /// phases in that order are the point — because delivery is FIFO and
    /// exactly-once, every job queued before teardown is still delivered
    /// (those jobs are returned, in submission order), and the terminate
    /// signals behind them then stop each worker exactly once.
    ///
    /// When this returns, every worker has stopped, the channel is empty, and
    /// the delivery log equals the submission log: each job submitted before
    /// teardown ran exactly once, none twice, none dropped. The work done is
    /// one bounded step per queued message plus one per worker, so teardown
    /// always finishes.
    pub fn teardown(&mut self) -> (drained: Vec<J>)
        requires
            old(self).wf(),
            !old(self).shutting_down(),
        ensures
            final(self).wf(),
            final(self).shutting_down(),
            final(self).num_workers() == old(self).num_workers(),
            final(self).queue().len() == 0,
            forall|i: int|
                0 <= i < final(self).num_workers() ==> final(self).worker_states()[i]
                    == WorkerState::Stopped,
            drained@ == old(self).pending_jobs(),
            final(self).delivered_jobs() == old(self).delivered_jobs() + drained@,
            final(self).submitted_jobs() == old(self).submitted_jobs(),
            final(self).delivered_jobs() == final(self).submitted_jobs(),
    {
        let n = self.workers.len();
        let ghost sub0 = self.submitted_jobs();
        let ghost del0 = self.delivered_jobs();
        let ghost pend0 = self.pending_jobs();
        self.down = true;
        proof {
            assert(self.wf());
        }
        // Wait for jobs already in workers' hands: each busy worker finishes
        // its current job (however that execution ends) and returns to the
        // channel. This is the part of the join that can take as long as the
        // longest running job.
        let mut w: usize = 0;
        while w < n
            invariant
                self.wf(),
                self.shutting_down(),
                self.num_workers() == n,
                w <= n,
                self.queue() == old(self).queue(),
                self.submitted_jobs() == sub0,
                self.delivered_jobs() == del0,
                forall|i: int| 0 <= i < w ==> self.worker_states()[i] == WorkerState::Idle,
                forall|i: int|
                    w <= i < n ==> self.worker_states()[i] != WorkerState::Stopped,
            decreases n - w,
        {
            if self.worker_state(w) == WorkerState::Busy {
                self.complete(w, false);
            }
            w = w + 1;
        }
        // Announce stop: one terminate signal per worker, behind every job
        // already queued.
        proof {
            lemma_all_jobs(self.queue());
        }
        let mut t: usize = 0;
        while t < n
            invariant
                self.wf(),
                self.shutting_down(),
                self.num_workers() == n,
                t <= n,
                self.submitted_jobs() == sub0,
                self.delivered_jobs() == del0,
                forall|i: int| 0 <= i < n ==> self.worker_states()[i] == WorkerState::Idle,
                self.pending_jobs() == pend0,
                terminate_count(self.queue()) == t,
                jobs_precede_terminates(self.queue()),
            decreases n - t,
        {
            let ghost q = self.queue();
            proof {
                lemma_push_terminate(q);
            }
            self.channel.send(Message::Terminate);
            proof {
                assert forall|i: int, k: int|
                    0 <= i < k < self.queue().len() && self.queue()[k]
                        is NewJob implies self.queue()[i] is NewJob by {
                    assert(self.queue()[k] == q.push(Message::Terminate)[k]);
                    if k < q.len() {
                        assert(self.queue()[i] == q[i]);
                    }
                }
            }
            t = t + 1;
        }
        // Wait for the workers: every queued message still finds a live
        // worker — jobs go to whichever worker is free and run to completion,
        // and each terminate signal then stops one distinct worker.
        let mut drained: Vec<J> = Vec::new();
        let mut stopped: usize = 0;
        while self.queued() > 0
            invariant
                self.wf(),
                self.shutting_down(),
                self.num_workers() == n,
                stopped <= n,
                self.submitted_jobs() == sub0,
                self.delivered_jobs() == del0 + drained@,
                drained@ + self.pending_jobs() == pend0,
                terminate_count(self.queue()) == n - stopped,
                jobs_precede_terminates(self.queue()),
                terminate_count(self.queue()) == 0 ==> self.queue().len() == 0,
                forall|i: int|
                    0 <= i < n ==> (self.worker_states()[i] == WorkerState::Stopped <==> i
                        < stopped),
                forall|i: int| 0 <= i < n ==> self.worker_states()[i] != WorkerState::Busy,
            decreases self.queue().len(),
        {
            proof {
                if stopped == n {
                    assert(self.queue().len() == 0);
                }
            }
            let ghost q = self.queue();
            let ghost states = self.worker_states();
            match self.deliver(stopped) {
                Action::Run(j) => {
                    let ghost gj = j;
                    drained.push(j);
                    self.complete(stopped, false);
                    proof {
                        assert(q[0] == Message::NewJob(gj));
                        assert(jobs_of(q) == seq![gj] + jobs_of(self.queue()));
                        assert(drained@ + self.pending_jobs() =~= pend0);
                        assert(terminate_count(q) == terminate_count(self.queue()));
                        lemma_drop_first_precede(q);
                        assert(self.worker_states() =~= states);
                        assert(self.delivered_jobs() =~= del0 + drained@);
                    }
                },
                Action::Exit => {
                    proof {
                        assert(q[0] is Terminate);
                        assert(jobs_of(q) == jobs_of(self.queue()));
                        assert(terminate_count(q) == 1 + terminate_count(self.queue()));
                        lemma_drop_first_precede(q);
                        if terminate_count(self.queue()) == 0 {
                            lemma_terminates_only(q);
                        }
                    }
                    stopped = stopped + 1;
                },
            }
        }
        proof {
            assert(terminate_count(self.queue()) == 0);
            assert(stopped == n);
            assert(self.pending_jobs() =~= Seq::<J>::empty());
            assert(drained@ =~= pend0);
            assert(self.submitted_jobs() =~= self.delivered_jobs());
        }
        drained
    }

    /// Starts up to one pending job on each of the first `count` workers, all
    /// at once: worker `i` takes the `i`-th pending job, and no delivery
    /// waits on any earlier job finishing. With `count` idle workers there is
    /// real parallelism — `count` jobs end up running on `count` distinct
    /// workers side by side.
    pub fn start_batch(&mut self, count: usize) -> (jobs: Vec<J>)
        requires
            old(self).wf(),
            !old(self).shutting_down(),
            count <= old(self).num_workers(),
            count <= old(self).pending_jobs().len(),
            forall|i: int|
                0 <= i < old(self).num_workers() ==> old(self).worker_states()[i]
                    == WorkerState::Idle,
        ensures
            final(self).wf(),
            !final(self).shutting_down(),
            final(self).num_workers() == old(self).num_workers(),
            final(self).submitted_jobs() == old(self).submitted_jobs(),
            jobs@ == old(self).pending_jobs().take(count as int),
            final(self).delivered_jobs() == old(self).delivered_jobs() + jobs@,
            final(self).pending_jobs() == old(self).pending_jobs().skip(count as int),
            forall|i: int|
                0 <= i < count ==> final(self).worker_states()[i] == WorkerState::Busy,
            forall|i: int|
                count <= i < final(self).num_workers() ==> final(self).worker_states()[i]
                    == WorkerState::Idle,
    {
        let ghost sub0 = self.submitted_jobs();
        let ghost del0 = self.delivered_jobs();
        let ghost pend0 = self.pending_jobs();
        let ghost n = self.num_workers();
        proof {
            lemma_all_jobs(self.queue());
        }
        let mut jobs: Vec<J> = Vec::new();
        let mut i: usize = 0;
        while i < count
            invariant
                self.wf(),
                !self.shutting_down(),
                self.num_workers() == n,
                count <= n,
                i <= count,
                count <= pend0.len(),
                self.submitted_jobs() == sub0,
                self.delivered_jobs() == del0 + jobs@,
                jobs@ == pend0.take(i as int),
                self.pending_jobs() == pend0.skip(i as int),
                self.queue().len() == self.pending_jobs().len(),
                forall|k: int|
                    0 <= k < self.queue().len() ==> self.queue()[k] == Message::NewJob(
                        self.pending_jobs()[k],
                    ),
                forall|k: int| 0 <= k < i ==> self.worker_states()[k] == WorkerState::Busy,
                forall|k: int| i <= k < n ==> self.worker_states()[k] == WorkerState::Idle,
            decreases count - i,
        {
            let ghost q = self.queue();
            let ghost states = self.worker_states();
            match self.deliver(i) {
                Action::Run(j) => {
                    jobs.push(j);
                    proof {
                        assert(q[0] == Message::NewJob(pend0.skip(i as int)[0]));
                        assert(pend0.skip(i as int)[0] == pend0[i as int]);
                        assert(jobs_of(q) == seq![pend0[i as int]] + jobs_of(self.queue()));
                        assert(jobs@ =~= pend0.take(i + 1));
                        assert(jobs_of(q).drop_first() =~= jobs_of(self.queue()));
                        assert(pend0.skip(i as int).drop_first() =~= pend0.skip(i + 1));
                        assert(self.pending_jobs() =~= pend0.skip(i + 1));
                        lemma_all_jobs(self.queue());
                        assert(self.delivered_jobs() =~= del0 + jobs@);
                    }
                },
                Action::Exit => {
                    proof {
                        assert(false);
                    }
                },
            }
            i = i + 1;
        }
        jobs
    }

    /// Order preservation, as a law of the pool invariant: what has been
    /// delivered so far is exactly the oldest prefix of what was submitted.
    /// Of any two jobs submitted one after the other, the later one is never
    /// delivered before the earlier one.
    pub proof fn lemma_order_preserved(&self)
        requires
            self.wf(),
        ensures
            self.delivered_jobs().len() <= self.submitted_jobs().len(),
            self.delivered_jobs() == self.submitted_jobs().take(
                self.delivered_jobs().len() as int,
            ),
            forall|i: int|
                0 <= i < self.delivered_jobs().len() ==> self.delivered_jobs()[i]
                    == self.submitted_jobs()[i],
    {
        assert(self.delivered_jobs() =~= (self.delivered_jobs() + self.pending_jobs()).take(
            self.delivered_jobs().len() as int,
        ));
    }

    /// Exactly-once, as a law of the pool invariant: once the queue has
    /// drained, the delivery log and the submission log are one and the same
    /// sequence — every accepted job was handed to a worker exactly once, in
    /// order, and nothing else ever was.
    pub proof fn lemma_exactly_once(&self)
        requires
            self.wf(),
            self.queue().len() == 0,
        ensures
            self.delivered_jobs() == self.submitted_jobs(),
    {
        assert(self.pending_jobs() =~= Seq::<J>::empty());
        assert(self.submitted_jobs() =~= self.delivered_jobs());
    }
}

} // verus!
