//! The dispatcher's own decisions: how many workers a pool has and under
//! which ids, and the order in which a pool is shut down.
use crate::worker::{live_count, WorkerState};
use vstd::prelude::*;

verus! {

/// One step of a pool's shutdown.
#[derive(PartialEq, Eq, Structural, Clone, Copy, Debug)]
pub enum ShutdownStep {
    /// Close the shared queue, so that workers leave once it is drained.
    CloseQueue,
    /// Wait for the thread of the worker with this id to end.
    Join(usize),
}

/// The ids of a pool of `size` workers: `0` up to `size - 1`.
pub open spec fn ids_spec(size: nat) -> Seq<usize> {
    Seq::new(size, |i: int| i as usize)
}

/// The states of a pool's `size` workers right after it is built.
pub open spec fn initial_states_spec(size: nat) -> Seq<WorkerState> {
    Seq::new(size, |i: int| WorkerState::Idle)
}

/// The shutdown of a pool of `size` workers: close the queue first, then
/// join every worker, in id order.
pub open spec fn shutdown_plan(size: nat) -> Seq<ShutdownStep> {
    seq![ShutdownStep::CloseQueue] + Seq::new(size, |i: int| ShutdownStep::Join(i as usize))
}

/// The pool's bookkeeping: the number of workers, fixed at construction,
/// and whether shutdown has begun.
pub struct Dispatcher {
    size: usize,
    shutting_down: bool,
}

impl Dispatcher {
    /// The size the pool was built with.
    pub closed spec fn size_spec(&self) -> nat {
        self.size as nat
    }

    /// Whether shutdown has begun.
    pub closed spec fn shutting_down_spec(&self) -> bool {
        self.shutting_down
    }

    /// Well formed: a pool has at least one worker.
    pub closed spec fn wf(&self) -> bool {
        self.size > 0
    }

    /// A pool of `size` workers. A pool without workers is a usage error,
    /// ruled out before anything is built.
    pub fn new(size: usize) -> (r: Self)
        requires
            size > 0,
        ensures
            r.wf(),
            r.size_spec() == size,
            !r.shutting_down_spec(),
    {
        Dispatcher { size, shutting_down: false }
    }

    /// The number of workers, as requested at construction.
    pub fn size(&self) -> (r: usize)
        ensures
            r == self.size_spec(),
    {
        self.size
    }

    /// Whether shutdown has begun.
    pub fn is_shutting_down(&self) -> (r: bool)
        ensures
            r == self.shutting_down_spec(),
    {
        self.shutting_down
    }

    /// The id of each worker, in order: `0` up to `size - 1`.
    pub fn worker_ids(&self) -> (r: Vec<usize>)
        ensures
            r@ == ids_spec(self.size_spec()),
    {
        let mut r: Vec<usize> = Vec::with_capacity(self.size);
        let mut i: usize = 0;
        while i < self.size
            invariant
                i <= self.size,
                r@ == ids_spec(i as nat),
            decreases self.size - i,
        {
            r.push(i);
            i = i + 1;
            assert(r@ =~= ids_spec(i as nat));
        }
        r
    }

    /// The state of each worker right after construction: all idle.
    pub fn initial_states(&self) -> (r: Vec<WorkerState>)
        ensures
            r@ == initial_states_spec(self.size_spec()),
    {
        let mut r: Vec<WorkerState> = Vec::with_capacity(self.size);
        let mut i: usize = 0;
        while i < self.size
            invariant
                i <= self.size,
                r@ == initial_states_spec(i as nat),
            decreases self.size - i,
        {
            r.push(WorkerState::Idle);
            i = i + 1;
            assert(r@ =~= initial_states_spec(i as nat));
        }
        r
    }

    /// Begins shutdown and returns its steps: close the queue, then join
    /// every worker in id order. Shutdown happens once; a second call has
    /// nothing left to do.
    pub fn begin_shutdown(&mut self) -> (r: Vec<ShutdownStep>)
        ensures
            final(self).shutting_down_spec(),
            final(self).size_spec() == old(self).size_spec(),
            final(self).wf() == old(self).wf(),
            old(self).shutting_down_spec() ==> r@ == Seq::<ShutdownStep>::empty(),
            !old(self).shutting_down_spec() ==> r@ == shutdown_plan(old(self).size_spec()),
    {
        let mut r: Vec<ShutdownStep> = Vec::new();
        if self.shutting_down {
            return r;
        }
        self.shutting_down = true;
        r.push(ShutdownStep::CloseQueue);
        let mut i: usize = 0;
        while i < self.size
            invariant
                i <= self.size,
                r@ == shutdown_plan(i as nat),
            decreases self.size - i,
        {
            r.push(ShutdownStep::Join(i));
            i = i + 1;
            assert(r@ =~= shutdown_plan(i as nat));
        }
        r
    }
}

/// A new pool has exactly as many live workers as were asked for, with the
/// ids `0` up to `size - 1`, each id once.
pub proof fn lemma_new_pool_is_full(size: usize)
    ensures
        live_count(initial_states_spec(size as nat)) == size,
        ids_spec(size as nat).len() == size,
        forall|i: int| 0 <= i < size ==> #[trigger] ids_spec(size as nat)[i] == i,
{
    lemma_all_idle_live(size as nat);
}

/// Workers that are all idle are all live.
proof fn lemma_all_idle_live(size: nat)
    ensures
        live_count(initial_states_spec(size)) == size,
    decreases size,
{
    if size > 0 {
        let s = initial_states_spec(size);
        assert(s.drop_last() =~= initial_states_spec((size - 1) as nat));
        lemma_all_idle_live((size - 1) as nat);
    }
}

/// Shutdown closes before it joins, and joins every worker exactly once, in
/// id order: the queue is closed at the first step, no join comes before
/// it, and the join of worker `i` is step `i + 1`.
pub proof fn lemma_close_before_join(size: usize)
    ensures
        shutdown_plan(size as nat).len() == size + 1,
        shutdown_plan(size as nat)[0] == ShutdownStep::CloseQueue,
        forall|i: int| 0 <= i < size ==> #[trigger] shutdown_plan(size as nat)[i + 1] == ShutdownStep::Join(i as usize),
        forall|k: int, j: int|
            #![trigger shutdown_plan(size as nat)[k], shutdown_plan(size as nat)[j]]
            0 < k < shutdown_plan(size as nat).len() && 0 < j < shutdown_plan(size as nat).len()
                && shutdown_plan(size as nat)[k] == shutdown_plan(size as nat)[j] ==> k == j,
        forall|k: int| 0 < k < shutdown_plan(size as nat).len() ==> #[trigger] shutdown_plan(size as nat)[k] != ShutdownStep::CloseQueue,
{
    let p = shutdown_plan(size as nat);
    assert(p[0] == ShutdownStep::CloseQueue);
    assert forall|i: int| 0 <= i < size implies #[trigger] p[i + 1] == ShutdownStep::Join(i as usize) by {}
    assert forall|k: int, j: int|
        #![trigger p[k], p[j]]
        0 < k < p.len() && 0 < j < p.len() && p[k] == p[j] implies k == j by {
        assert(p[k] == ShutdownStep::Join((k - 1) as usize));
        assert(p[j] == ShutdownStep::Join((j - 1) as usize));
    }
}

} // verus!
