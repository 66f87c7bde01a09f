//! The pool's own bookkeeping: how many workers it has, whether it still
//! accepts jobs, and the order in which it shuts down.
//!
//! The handle type `H` is whatever the runtime uses to wait for a worker's
//! thread to finish. The pool hands each handle out exactly once.

use std::collections::VecDeque;
use vstd::prelude::*;

verus! {

/// Why a pool could not be built.
#[derive(Clone, Copy, PartialEq, Eq, Structural, Debug)]
pub enum PoolError {
    /// A pool needs at least one worker.
    ZeroWorkers,
}

/// One step of shutting a pool down.
pub enum ShutdownStep<H> {
    /// Release the sending side of the queue, so that every worker sees the
    /// closed signal once the queue is drained.
    ReleaseSender,
    /// Wait for the worker with this index to finish, consuming its handle.
    Join(usize, H),
    /// Every worker has been joined: nothing is left to do.
    Done,
}

/// The abstract state of a pool: the handles not yet joined, in worker-index
/// order, how many have been joined, whether jobs are still accepted, and
/// the number of workers it was built with.
pub ghost struct PoolModel<H> {
    pub remaining: Seq<H>,
    pub joined: nat,
    pub sender_open: bool,
    pub size: nat,
}

/// Indices are handed out in order, and joining starts only once the sender
/// is released.
pub open spec fn pool_wf<H>(m: PoolModel<H>) -> bool {
    &&& m.size > 0
    &&& m.joined + m.remaining.len() == m.size
    &&& m.joined > 0 ==> !m.sender_open
}

/// A pool just built from `handles`: all workers running, jobs accepted.
pub open spec fn fresh_model<H>(handles: Seq<H>) -> PoolModel<H> {
    PoolModel { remaining: handles, joined: 0, sender_open: true, size: handles.len() }
}

/// What one shutdown step does: release the sender if it is still held,
/// else join the lowest-indexed worker not yet joined, else nothing.
pub open spec fn shutdown_spec<H>(m: PoolModel<H>) -> (PoolModel<H>, ShutdownStep<H>) {
    if m.sender_open {
        (PoolModel { sender_open: false, ..m }, ShutdownStep::ReleaseSender)
    } else if m.remaining.len() > 0 {
        (
            PoolModel { remaining: m.remaining.drop_first(), joined: m.joined + 1, ..m },
            ShutdownStep::Join(m.joined as usize, m.remaining[0]),
        )
    } else {
        (m, ShutdownStep::Done)
    }
}

/// The steps that `n` shutdown calls in a row return.
pub open spec fn shutdown_trace<H>(m: PoolModel<H>, n: nat) -> Seq<ShutdownStep<H>>
    decreases n,
{
    if n == 0 {
        Seq::empty()
    } else {
        seq![shutdown_spec(m).1] + shutdown_trace(shutdown_spec(m).0, (n - 1) as nat)
    }
}

/// The state after `n` shutdown calls in a row.
pub open spec fn after_shutdown<H>(m: PoolModel<H>, n: nat) -> PoolModel<H>
    decreases n,
{
    if n == 0 {
        m
    } else {
        after_shutdown(shutdown_spec(m).0, (n - 1) as nat)
    }
}

/// The indices `0..size` of the workers of a pool of `size`.
pub open spec fn index_seq(size: nat) -> Seq<usize> {
    Seq::new(size, |i: int| i as usize)
}

/// The joins that follow the sender's release, one per handle left, with the
/// index of each worker.
pub open spec fn joins_from<H>(first: nat, handles: Seq<H>) -> Seq<ShutdownStep<H>> {
    Seq::new(handles.len(), |i: int| ShutdownStep::Join((first + i) as usize, handles[i]))
}

/// `n` calls that find nothing left to do.
pub open spec fn dones<H>(n: nat) -> Seq<ShutdownStep<H>> {
    Seq::new(n, |i: int| ShutdownStep::<H>::Done)
}

proof fn lemma_trace_split<H>(m: PoolModel<H>, a: nat, b: nat)
    ensures
        shutdown_trace(m, a + b) == shutdown_trace(m, a) + shutdown_trace(after_shutdown(m, a), b),
        after_shutdown(m, a + b) == after_shutdown(after_shutdown(m, a), b),
    decreases a,
{
    if a == 0 {
        assert(shutdown_trace(m, 0) + shutdown_trace(m, b) =~= shutdown_trace(m, b));
    } else {
        let m1 = shutdown_spec(m).0;
        lemma_trace_split(m1, (a - 1) as nat, b);
        assert((a + b - 1) as nat == ((a - 1) as nat + b));
        assert(seq![shutdown_spec(m).1] + (shutdown_trace(m1, (a - 1) as nat) + shutdown_trace(
            after_shutdown(m1, (a - 1) as nat),
            b,
        )) =~= (seq![shutdown_spec(m).1] + shutdown_trace(m1, (a - 1) as nat)) + shutdown_trace(
            after_shutdown(m1, (a - 1) as nat),
            b,
        ));
    }
}

proof fn lemma_joins<H>(m: PoolModel<H>)
    requires
        !m.sender_open,
    ensures
        shutdown_trace(m, m.remaining.len()) =~= joins_from(m.joined, m.remaining),
        after_shutdown(m, m.remaining.len()) == (PoolModel {
            remaining: Seq::<H>::empty(),
            joined: m.joined + m.remaining.len(),
            ..m
        }),
    decreases m.remaining.len(),
{
    if m.remaining.len() > 0 {
        let m1 = shutdown_spec(m).0;
        lemma_joins(m1);
        assert(m1.remaining.len() == (m.remaining.len() - 1) as nat);
    } else {
        assert(m.remaining =~= Seq::<H>::empty());
    }
}

/// Once every worker has been joined, further shutdown calls do nothing:
/// shutting a pool down twice joins no worker twice.
pub proof fn lemma_shutdown_is_idempotent<H>(m: PoolModel<H>, n: nat)
    requires
        !m.sender_open,
        m.remaining.len() == 0,
    ensures
        shutdown_trace(m, n) =~= dones(n),
        after_shutdown(m, n) == m,
    decreases n,
{
    if n > 0 {
        lemma_shutdown_is_idempotent(m, (n - 1) as nat);
    }
}

/// Shutting down a pool releases the sender first, then joins every worker
/// exactly once, in index order, consuming the handle it was built with;
/// after that no worker is left unjoined, and any further call is a no-op.
pub proof fn lemma_shutdown_joins_each_worker_once<H>(handles: Seq<H>, extra: nat)
    requires
        handles.len() > 0,
    ensures
        shutdown_trace(fresh_model(handles), handles.len() + 2 + extra) =~= seq![
            ShutdownStep::<H>::ReleaseSender,
        ] + joins_from(0, handles) + dones(1 + extra),
        after_shutdown(fresh_model(handles), handles.len() + 2 + extra) == (PoolModel {
            remaining: Seq::<H>::empty(),
            joined: handles.len(),
            sender_open: false,
            size: handles.len(),
        }),
{
    let m = fresh_model(handles);
    let k = handles.len();
    let m1 = shutdown_spec(m).0;
    lemma_joins(m1);
    let m2 = after_shutdown(m1, k);
    lemma_shutdown_is_idempotent(m2, 1 + extra);
    lemma_trace_split(m1, k, 1 + extra);
    assert(shutdown_trace(m1, 0) =~= Seq::<ShutdownStep<H>>::empty());
    assert(after_shutdown(m1, 0) == m1);
    assert(shutdown_trace(m, 1) =~= seq![ShutdownStep::<H>::ReleaseSender]);
    lemma_trace_split(m, 1, k + 1 + extra);
    assert(after_shutdown(m, 1) == m1);
    assert(k + 2 + extra == 1 + (k + 1 + extra));
}

/// A pool of `n` workers numbers them `0..n`: `n` indices, all different.
pub proof fn lemma_worker_ids_distinct(n: nat)
    requires
        n <= usize::MAX,
    ensures
        index_seq(n).len() == n,
        forall|i: int| 0 <= i < n ==> #[trigger] index_seq(n)[i] == i,
        forall|i: int, j: int|
            0 <= i < n && 0 <= j < n && i != j ==> index_seq(n)[i] != index_seq(n)[j],
{
}

/// The indices of the workers of a pool of `size`, `0..size`. A pool of no
/// workers is refused before anything is started.
pub fn worker_ids(size: usize) -> (r: Result<Vec<usize>, PoolError>)
    ensures
        size == 0 <==> r == Err::<Vec<usize>, PoolError>(PoolError::ZeroWorkers),
        r matches Ok(ids) ==> ids@ == index_seq(size as nat),
{
    if size == 0 {
        return Err(PoolError::ZeroWorkers);
    }
    let mut ids: Vec<usize> = Vec::with_capacity(size);
    let mut i: usize = 0;
    while i < size
        invariant
            i <= size,
            ids@ == index_seq(i as nat),
        decreases size - i,
    {
        ids.push(i);
        i = i + 1;
        assert(ids@ =~= index_seq(i as nat));
    }
    Ok(ids)
}

/// A pool's workers, by the handles of their threads, and its sending side.
pub struct PoolCore<H> {
    remaining: VecDeque<H>,
    joined: usize,
    sender_open: bool,
    size: usize,
}

impl<H> PoolCore<H> {
    pub closed spec fn model(&self) -> PoolModel<H> {
        PoolModel {
            remaining: self.remaining@,
            joined: self.joined as nat,
            sender_open: self.sender_open,
            size: self.size as nat,
        }
    }

    /// The pool is consistent with itself.
    pub open spec fn wf(&self) -> bool {
        pool_wf(self.model())
    }

    /// A pool over the given workers' handles, the handle of worker `i` at
    /// position `i`. Refused when there are none.
    pub fn new(handles: Vec<H>) -> (r: Result<PoolCore<H>, PoolError>)
        ensures
            handles@.len() == 0 <==> r is Err,
            r matches Err(e) ==> e == PoolError::ZeroWorkers,
            r matches Ok(p) ==> p.wf() && p.model() == fresh_model(handles@),
    {
        let size = handles.len();
        if size == 0 {
            return Err(PoolError::ZeroWorkers);
        }
        let mut remaining: VecDeque<H> = VecDeque::new();
        let mut rest = handles;
        let ghost all = rest@;
        let mut k: usize = 0;
        while k < size
            invariant
                k <= size,
                size == all.len(),
                remaining@ =~= all.take(k as int),
                rest@ =~= all.skip(k as int),
            decreases size - k,
        {
            let h = rest.remove(0);
            remaining.push_back(h);
            k = k + 1;
        }
        assert(all.take(size as int) =~= all);
        Ok(PoolCore { remaining, joined: 0, sender_open: true, size })
    }

    /// How many workers the pool was built with; this never changes.
    pub fn size(&self) -> (r: usize)
        ensures
            r == self.model().size,
    {
        self.size
    }

    /// Whether the pool still accepts jobs.
    pub fn can_submit(&self) -> (r: bool)
        ensures
            r == self.model().sender_open,
    {
        self.sender_open
    }

    /// How many workers have been joined so far.
    pub fn joined_count(&self) -> (r: usize)
        ensures
            r == self.model().joined,
    {
        self.joined
    }

    /// The next step of shutting the pool down. Calling it again once it has
    /// returned `Done` is harmless: it returns `Done` and changes nothing.
    pub fn shutdown_step(&mut self) -> (r: ShutdownStep<H>)
        requires
            old(self).wf(),
        ensures
            final(self).wf(),
            (final(self).model(), r) == shutdown_spec(old(self).model()),
    {
        if self.sender_open {
            self.sender_open = false;
            ShutdownStep::ReleaseSender
        } else {
            match self.remaining.pop_front() {
                Some(h) => {
                    let id = self.joined;
                    self.joined = self.joined + 1;
                    ShutdownStep::Join(id, h)
                },
                None => ShutdownStep::Done,
            }
        }
    }
}

} // verus!
