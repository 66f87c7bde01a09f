//! The work queue shared by all workers of a pool.
//!
//! One sender enqueues jobs; any number of receivers take them one at a time.
//! Closing the queue stops further sends but keeps what is already queued:
//! receivers see every queued job before they see the closed signal.

use std::collections::VecDeque;
use vstd::prelude::*;

verus! {

/// The abstract state of a queue: the jobs waiting, oldest first, and whether
/// the sending side has been released.
pub ghost struct QueueModel<T> {
    pub pending: Seq<T>,
    pub closed: bool,
}

/// What one receive attempt observes.
pub enum Received<T> {
    /// The oldest queued job, now owned by the receiver.
    Item(T),
    /// Nothing is queued yet, but more may come: the receiver waits.
    Empty,
    /// Nothing is queued and the sending side is gone: no job will ever come.
    Closed,
}

/// The queue of a fresh pool: nothing pending, sending side open.
pub open spec fn empty_model<T>() -> QueueModel<T> {
    QueueModel { pending: Seq::empty(), closed: false }
}

/// The state after a send: accepted at the back while open, refused once closed.
pub open spec fn send_model<T>(m: QueueModel<T>, item: T) -> QueueModel<T> {
    if m.closed {
        m
    } else {
        QueueModel { pending: m.pending.push(item), ..m }
    }
}

/// The state after the sending side is released.
pub open spec fn close_model<T>(m: QueueModel<T>) -> QueueModel<T> {
    QueueModel { closed: true, ..m }
}

/// What a receive returns from a given state.
pub open spec fn receive_result<T>(m: QueueModel<T>) -> Received<T> {
    if m.pending.len() > 0 {
        Received::Item(m.pending[0])
    } else if m.closed {
        Received::Closed
    } else {
        Received::Empty
    }
}

/// The state after a receive: the oldest job, if any, leaves the queue.
pub open spec fn receive_model<T>(m: QueueModel<T>) -> QueueModel<T> {
    if m.pending.len() > 0 {
        QueueModel { pending: m.pending.drop_first(), ..m }
    } else {
        m
    }
}

/// The state after sending each job of `jobs` in turn.
pub open spec fn send_all<T>(m: QueueModel<T>, jobs: Seq<T>) -> QueueModel<T>
    decreases jobs.len(),
{
    if jobs.len() == 0 {
        m
    } else {
        send_all(send_model(m, jobs[0]), jobs.drop_first())
    }
}

/// What `n` receives in a row return, in the order they return it.
pub open spec fn receive_n<T>(m: QueueModel<T>, n: nat) -> Seq<Received<T>>
    decreases n,
{
    if n == 0 {
        Seq::empty()
    } else {
        seq![receive_result(m)] + receive_n(receive_model(m), (n - 1) as nat)
    }
}

/// The state after `n` receives in a row.
pub open spec fn after_receives<T>(m: QueueModel<T>, n: nat) -> QueueModel<T>
    decreases n,
{
    if n == 0 {
        m
    } else {
        after_receives(receive_model(m), (n - 1) as nat)
    }
}

/// Each job as the receive that hands it over.
pub open spec fn as_items<T>(jobs: Seq<T>) -> Seq<Received<T>> {
    jobs.map_values(|j: T| Received::Item(j))
}

proof fn lemma_send_all_open<T>(m: QueueModel<T>, jobs: Seq<T>)
    requires
        !m.closed,
    ensures
        send_all(m, jobs) == (QueueModel { pending: m.pending + jobs, closed: false }),
    decreases jobs.len(),
{
    if jobs.len() > 0 {
        let m1 = send_model(m, jobs[0]);
        lemma_send_all_open(m1, jobs.drop_first());
        assert(m.pending.push(jobs[0]) + jobs.drop_first() =~= m.pending + jobs);
    } else {
        assert(m.pending + jobs =~= m.pending);
    }
}

proof fn lemma_receive_pending<T>(m: QueueModel<T>, n: nat)
    requires
        n <= m.pending.len(),
    ensures
        receive_n(m, n) =~= as_items(m.pending.take(n as int)),
        after_receives(m, n) == (QueueModel { pending: m.pending.skip(n as int), ..m }),
    decreases n,
{
    if n > 0 {
        let m1 = receive_model(m);
        lemma_receive_pending(m1, (n - 1) as nat);
        assert(m1.pending.take(n - 1) =~= m.pending.take(n as int).drop_first());
        assert(m1.pending.skip(n - 1) =~= m.pending.skip(n as int));
    } else {
        assert(m.pending.skip(0) =~= m.pending);
    }
}

/// Once a queue is closed and empty, every receive reports closed and
/// changes nothing.
pub proof fn lemma_closed_is_terminal<T>(m: QueueModel<T>, n: nat)
    requires
        m.closed,
        m.pending.len() == 0,
    ensures
        receive_n(m, n) =~= Seq::new(n, |i: int| Received::<T>::Closed),
        after_receives(m, n) == m,
    decreases n,
{
    if n > 0 {
        lemma_closed_is_terminal(m, (n - 1) as nat);
    }
}

/// Every job sent to a fresh queue is handed out exactly once, and in the
/// order in which it was sent: as many receives as jobs return exactly the
/// jobs, and leave nothing queued.
pub proof fn lemma_each_job_delivered_once_in_order<T>(jobs: Seq<T>)
    ensures
        receive_n(send_all(empty_model(), jobs), jobs.len()) == as_items(jobs),
        after_receives(send_all(empty_model(), jobs), jobs.len()).pending.len() == 0,
{
    let m = send_all(empty_model(), jobs);
    lemma_send_all_open(empty_model(), jobs);
    assert(m.pending =~= jobs);
    lemma_receive_pending(m, jobs.len());
    assert(jobs.take(jobs.len() as int) =~= jobs);
}

/// Closing never drops a job: after the sending side is released, receivers
/// still get every job that was queued, in order, and only then the closed
/// signal, which from there on is all they get.
pub proof fn lemma_close_drains_queue<T>(m: QueueModel<T>, extra: nat)
    ensures
        receive_n(close_model(m), m.pending.len() + 1 + extra)
            =~= as_items(m.pending) + Seq::new(1 + extra, |i: int| Received::<T>::Closed),
        after_receives(close_model(m), m.pending.len() + 1 + extra) == (QueueModel {
            pending: Seq::<T>::empty(),
            closed: true,
        }),
{
    let c = close_model(m);
    let k = m.pending.len();
    lemma_receive_pending(c, k);
    assert(c.pending.take(k as int) =~= m.pending);
    let rest = after_receives(c, k);
    assert(rest.pending =~= Seq::<T>::empty());
    lemma_closed_is_terminal(rest, 1 + extra);
    lemma_receive_n_split(c, k, 1 + extra);
}

proof fn lemma_receive_n_split<T>(m: QueueModel<T>, a: nat, b: nat)
    ensures
        receive_n(m, a + b) == receive_n(m, a) + receive_n(after_receives(m, a), b),
        after_receives(m, a + b) == after_receives(after_receives(m, a), b),
    decreases a,
{
    if a == 0 {
        assert(receive_n(m, 0) + receive_n(m, b) =~= receive_n(m, b));
    } else {
        lemma_receive_n_split(receive_model(m), (a - 1) as nat, b);
        assert((a + b - 1) as nat == ((a - 1) as nat + b));
        assert(seq![receive_result(m)] + (receive_n(receive_model(m), (a - 1) as nat)
            + receive_n(after_receives(receive_model(m), (a - 1) as nat), b))
            =~= (seq![receive_result(m)] + receive_n(receive_model(m), (a - 1) as nat))
            + receive_n(after_receives(receive_model(m), (a - 1) as nat), b));
    }
}

/// A single-sender, many-receiver FIFO of jobs with a closed flag.
pub struct WorkQueue<T> {
    items: VecDeque<T>,
    closed: bool,
}

impl<T> WorkQueue<T> {
    pub closed spec fn model(&self) -> QueueModel<T> {
        QueueModel { pending: self.items@, closed: self.closed }
    }

    /// An open queue with nothing in it.
    pub fn new() -> (q: WorkQueue<T>)
        ensures
            q.model() == empty_model::<T>(),
    {
        WorkQueue { items: VecDeque::new(), closed: false }
    }

    /// Enqueues a job at the back. Once the sending side is released the job
    /// is refused and handed back.
    pub fn send(&mut self, item: T) -> (r: Result<(), T>)
        ensures
            final(self).model() == send_model(old(self).model(), item),
            r is Ok <==> !old(self).model().closed,
            r matches Err(x) ==> x == item,
    {
        if self.closed {
            Err(item)
        } else {
            self.items.push_back(item);
            Ok(())
        }
    }

    /// Takes the oldest queued job. When none is queued, says whether the
    /// receiver should wait for one or stop for good.
    pub fn receive(&mut self) -> (r: Received<T>)
        ensures
            r == receive_result(old(self).model()),
            final(self).model() == receive_model(old(self).model()),
    {
        match self.items.pop_front() {
            Some(job) => Received::Item(job),
            None => {
                if self.closed {
                    Received::Closed
                } else {
                    Received::Empty
                }
            },
        }
    }

    /// Releases the sending side. Jobs already queued stay queued.
    pub fn close(&mut self)
        ensures
            final(self).model() == close_model(old(self).model()),
    {
        self.closed = true;
    }

    /// Whether the sending side has been released.
    pub fn is_closed(&self) -> (r: bool)
        ensures
            r == self.model().closed,
    {
        self.closed
    }

    /// How many jobs wait to be taken.
    pub fn len(&self) -> (r: usize)
        ensures
            r == self.model().pending.len(),
    {
        self.items.len()
    }
}

} // verus!
