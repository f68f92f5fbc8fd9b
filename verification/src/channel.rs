//! The dispatch channel: an unbounded FIFO queue of messages flowing from
//! submitters to workers.
//!
//! Its contract is what makes the dispatcher correct: messages come out in
//! exactly the order they were sent, and `receive` removes the message it
//! returns, so no message can ever be delivered twice.

use vstd::prelude::*;

verus! {

/// What travels through the dispatch channel: either one job to run, or the
/// instruction that the receiving worker should stop.
pub enum Message<J> {
    NewJob(J),
    Terminate,
}

/// The jobs carried by a message sequence, in queue order; terminate
/// signals carry no job.
pub open spec fn jobs_of<J>(q: Seq<Message<J>>) -> Seq<J>
    decreases q.len(),
{
    if q.len() == 0 {
        Seq::empty()
    } else {
        match q[0] {
            Message::NewJob(j) => seq![j] + jobs_of(q.drop_first()),
            Message::Terminate => jobs_of(q.drop_first()),
        }
    }
}

/// How many terminate signals a message sequence holds.
pub open spec fn terminate_count<J>(q: Seq<Message<J>>) -> nat
    decreases q.len(),
{
    if q.len() == 0 {
        0
    } else {
        (if q[0] is Terminate {
            1nat
        } else {
            0nat
        }) + terminate_count(q.drop_first())
    }
}

/// No job message sits behind a terminate signal. This holds of the queue
/// during teardown: the pending jobs form a prefix, the stop signals a suffix.
pub open spec fn jobs_precede_terminates<J>(q: Seq<Message<J>>) -> bool {
    forall|i: int, k: int|
        0 <= i < k < q.len() && q[k] is NewJob ==> q[i] is NewJob
}

/// Appending a job message appends its job to the carried jobs and adds no
/// terminate signal.
pub proof fn lemma_push_job<J>(q: Seq<Message<J>>, j: J)
    ensures
        jobs_of(q.push(Message::NewJob(j))) == jobs_of(q).push(j),
        terminate_count(q.push(Message::NewJob(j))) == terminate_count(q),
    decreases q.len(),
{
    let m = Message::NewJob(j);
    let p = q.push(m);
    if q.len() == 0 {
        assert(p[0] == m);
        assert(p.drop_first() =~= Seq::<Message<J>>::empty());
        assert(jobs_of(Seq::<Message<J>>::empty()) == Seq::<J>::empty());
        assert(terminate_count(Seq::<Message<J>>::empty()) == 0);
        assert(jobs_of(p) =~= jobs_of(q).push(j));
        assert(terminate_count(p) == terminate_count(q));
    } else {
        assert(p[0] == q[0]);
        assert(p.drop_first() =~= q.drop_first().push(m));
        lemma_push_job(q.drop_first(), j);
        match q[0] {
            Message::NewJob(j0) => {
                assert(jobs_of(p) == seq![j0] + jobs_of(p.drop_first()));
                assert(jobs_of(q) == seq![j0] + jobs_of(q.drop_first()));
                assert(jobs_of(p) =~= jobs_of(q).push(j));
                assert(terminate_count(p) == terminate_count(p.drop_first()));
                assert(terminate_count(q) == terminate_count(q.drop_first()));
            },
            Message::Terminate => {
                assert(jobs_of(p) == jobs_of(p.drop_first()));
                assert(jobs_of(q) == jobs_of(q.drop_first()));
                assert(terminate_count(p) == 1 + terminate_count(p.drop_first()));
                assert(terminate_count(q) == 1 + terminate_count(q.drop_first()));
            },
        }
    }
}

/// Appending a terminate signal leaves the carried jobs unchanged and raises
/// the terminate count by one.
pub proof fn lemma_push_terminate<J>(q: Seq<Message<J>>)
    ensures
        jobs_of(q.push(Message::Terminate)) == jobs_of(q),
        terminate_count(q.push(Message::Terminate)) == terminate_count(q) + 1,
    decreases q.len(),
{
    let m = Message::<J>::Terminate;
    let p = q.push(m);
    if q.len() == 0 {
        assert(p[0] == m);
        assert(p.drop_first() =~= Seq::<Message<J>>::empty());
        assert(jobs_of(Seq::<Message<J>>::empty()) == Seq::<J>::empty());
        assert(terminate_count(Seq::<Message<J>>::empty()) == 0);
        assert(jobs_of(p) == jobs_of(p.drop_first()));
        assert(terminate_count(p) == 1 + terminate_count(p.drop_first()));
    } else {
        assert(p[0] == q[0]);
        assert(p.drop_first() =~= q.drop_first().push(m));
        lemma_push_terminate(q.drop_first());
        match q[0] {
            Message::NewJob(j0) => {
                assert(jobs_of(p) == seq![j0] + jobs_of(p.drop_first()));
                assert(jobs_of(q) == seq![j0] + jobs_of(q.drop_first()));
                assert(jobs_of(p) =~= jobs_of(q));
                assert(terminate_count(p) == terminate_count(p.drop_first()));
                assert(terminate_count(q) == terminate_count(q.drop_first()));
            },
            Message::Terminate => {
                assert(jobs_of(p) == jobs_of(p.drop_first()));
                assert(jobs_of(q) == jobs_of(q.drop_first()));
                assert(terminate_count(p) == 1 + terminate_count(p.drop_first()));
                assert(terminate_count(q) == 1 + terminate_count(q.drop_first()));
            },
        }
    }
}

/// A queue of job messages only: every position carries a job, so the
/// carried jobs mirror the queue one for one and there is nothing to stop a
/// worker.
pub proof fn lemma_all_jobs<J>(q: Seq<Message<J>>)
    requires
        forall|i: int| 0 <= i < q.len() ==> q[i] is NewJob,
    ensures
        terminate_count(q) == 0,
        jobs_of(q).len() == q.len(),
        forall|i: int| 0 <= i < q.len() ==> q[i] == Message::NewJob(jobs_of(q)[i]),
    decreases q.len(),
{
    if q.len() > 0 {
        let d = q.drop_first();
        assert(forall|i: int| 0 <= i < d.len() ==> d[i] == q[i + 1]);
        lemma_all_jobs(d);
        match q[0] {
            Message::NewJob(j0) => {
                assert(jobs_of(q) == seq![j0] + jobs_of(d));
                assert(terminate_count(q) == terminate_count(d));
                assert(forall|i: int| 1 <= i < q.len() ==> jobs_of(q)[i] == jobs_of(d)[i - 1]);
                assert(jobs_of(q)[0] == j0);
                assert forall|i: int|
                    0 <= i < q.len() implies q[i] == Message::NewJob(jobs_of(q)[i]) by {
                    if i >= 1 {
                        assert(q[i] == d[i - 1]);
                        assert(d[i - 1] == Message::NewJob(jobs_of(d)[i - 1]));
                    }
                }
            },
            Message::Terminate => {
                assert(false);
            },
        }
    }
}

/// Dropping the front message keeps the jobs-before-terminates shape.
pub proof fn lemma_drop_first_precede<J>(q: Seq<Message<J>>)
    requires
        jobs_precede_terminates(q),
        q.len() > 0,
    ensures
        jobs_precede_terminates(q.drop_first()),
{
    let d = q.drop_first();
    assert forall|i: int, k: int|
        0 <= i < k < d.len() && d[k] is NewJob implies d[i] is NewJob by {
        assert(d[i] == q[i + 1]);
        assert(d[k] == q[k + 1]);
    }
}

/// Once a terminate signal reaches the front of a queue whose jobs precede
/// its terminates, nothing but terminate signals is left.
pub proof fn lemma_terminates_only<J>(q: Seq<Message<J>>)
    requires
        jobs_precede_terminates(q),
        q.len() > 0,
        q[0] is Terminate,
    ensures
        terminate_count(q) == q.len(),
    decreases q.len(),
{
    assert(forall|k: int| 0 < k < q.len() ==> !(q[k] is NewJob));
    let d = q.drop_first();
    if q.len() > 1 {
        assert(d[0] == q[1]);
        assert(d[0] is Terminate);
        assert(forall|i: int, k: int| 0 <= i < k < d.len() && d[k] is NewJob ==> d[i] is NewJob);
        lemma_terminates_only(d);
        assert(terminate_count(q) == 1 + terminate_count(d));
    } else {
        assert(d =~= Seq::<Message<J>>::empty());
        assert(terminate_count(q) == 1 + terminate_count(d));
    }
}

/// The FIFO dispatch channel. `send` appends at the back and never blocks;
/// `receive` takes from the front, so the order in which messages come out
/// is exactly the order in which they went in, and a received message is
/// gone for good: it can reach only one receiver.
pub struct Channel<J> {
    msgs: Vec<Message<J>>,
}

impl<J> View for Channel<J> {
    type V = Seq<Message<J>>;

    closed spec fn view(&self) -> Seq<Message<J>> {
        self.msgs@
    }
}

impl<J> Channel<J> {
    /// Creates an empty channel.
    pub fn new() -> (c: Self)
        ensures
            c@ == Seq::<Message<J>>::empty(),
    {
        Channel { msgs: Vec::new() }
    }

    /// How many messages are queued.
    pub fn len(&self) -> (n: usize)
        ensures
            n == self@.len(),
    {
        self.msgs.len()
    }

    /// Enqueues a message at the back. Sending never blocks and never fails:
    /// the queue is unbounded.
    pub fn send(&mut self, m: Message<J>)
        ensures
            final(self)@ == old(self)@.push(m),
    {
        self.msgs.push(m);
    }

    /// Dequeues the oldest message. Exactly the front message is returned and
    /// removed, which is the whole delivery guarantee: send order is receive
    /// order, and each message is received at most once.
    pub fn receive(&mut self) -> (m: Message<J>)
        requires
            old(self)@.len() > 0,
        ensures
            m == old(self)@[0],
            final(self)@ == old(self)@.drop_first(),
    {
        let m = self.msgs.remove(0);
        proof {
            assert(self@ =~= old(self)@.drop_first());
        }
        m
    }
}

} // verus!
