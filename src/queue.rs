//! The shared job queue: multi-producer, each job delivered to exactly one
//! taker, in the order of submission, with a one-way close.
use std::collections::VecDeque;
use vstd::prelude::*;

verus! {

/// The abstract state of a queue: the jobs waiting, oldest first, and
/// whether new jobs are still accepted.
pub struct QueueState<T> {
    pub pending: Seq<T>,
    pub open: bool,
}

/// What a worker gets when it asks the queue for the next job.
pub enum Take<T> {
    /// The oldest pending job, now owned by the taker alone.
    Job(T),
    /// Nothing pending yet, but the queue is open: wait and ask again.
    Empty,
    /// Nothing pending and the queue is closed: nothing will ever come.
    Closed,
}

/// Submitting to a closed queue; the rejected job is handed back.
pub struct Rejected<T> {
    pub job: T,
}

/// The state a fresh queue starts in.
pub open spec fn initial_state<T>() -> QueueState<T> {
    QueueState { pending: Seq::empty(), open: true }
}

/// The state after submitting `job`, and whether it was accepted.
pub open spec fn push_spec<T>(s: QueueState<T>, job: T) -> (QueueState<T>, bool) {
    if s.open {
        (QueueState { pending: s.pending.push(job), open: true }, true)
    } else {
        (s, false)
    }
}

/// The state after closing.
pub open spec fn close_spec<T>(s: QueueState<T>) -> QueueState<T> {
    QueueState { pending: s.pending, open: false }
}

/// The state after one take, and what the taker got.
pub open spec fn take_spec<T>(s: QueueState<T>) -> (QueueState<T>, Take<T>) {
    if s.pending.len() > 0 {
        (QueueState { pending: s.pending.drop_first(), open: s.open }, Take::Job(s.pending[0]))
    } else if s.open {
        (s, Take::Empty)
    } else {
        (s, Take::Closed)
    }
}

/// The state after submitting each of `jobs` in turn.
pub open spec fn push_all<T>(s: QueueState<T>, jobs: Seq<T>) -> QueueState<T>
    decreases jobs.len(),
{
    if jobs.len() == 0 {
        s
    } else {
        push_all(push_spec(s, jobs[0]).0, jobs.drop_first())
    }
}

/// The jobs handed out by `n` takes in a row, in the order handed out, and
/// the state after them.
pub open spec fn take_n<T>(s: QueueState<T>, n: nat) -> (Seq<T>, QueueState<T>)
    decreases n,
{
    if n == 0 {
        (Seq::empty(), s)
    } else {
        let (s1, t) = take_spec(s);
        let (rest, s2) = take_n(s1, (n - 1) as nat);
        match t {
            Take::Job(j) => (seq![j] + rest, s2),
            _ => (rest, s2),
        }
    }
}

/// A FIFO of jobs with an open/closed flag, shared by all workers of a pool.
pub struct JobQueue<T> {
    items: VecDeque<T>,
    open: bool,
}

impl<T> View for JobQueue<T> {
    type V = QueueState<T>;

    closed spec fn view(&self) -> QueueState<T> {
        QueueState { pending: self.items@, open: self.open }
    }
}

impl<T> JobQueue<T> {
    /// An open queue with nothing pending.
    pub fn new() -> (r: Self)
        ensures
            r@ == initial_state::<T>(),
    {
        let r = JobQueue { items: VecDeque::new(), open: true };
        assert(r@.pending =~= Seq::<T>::empty());
        r
    }

    /// Whether new jobs are still accepted.
    pub fn is_open(&self) -> (r: bool)
        ensures
            r == self@.open,
    {
        self.open
    }

    /// The number of jobs waiting.
    pub fn len(&self) -> (r: usize)
        ensures
            r == self@.pending.len(),
    {
        self.items.len()
    }

    /// Submits `job`: appended behind every pending job while the queue is
    /// open; handed back unchanged once it is closed.
    pub fn push(&mut self, job: T) -> (r: Result<(), Rejected<T>>)
        ensures
            final(self)@ == push_spec(old(self)@, job).0,
            r is Ok <==> old(self)@.open,
            r matches Err(e) ==> e.job == job,
    {
        if self.open {
            self.items.push_back(job);
            Ok(())
        } else {
            Err(Rejected { job })
        }
    }

    /// Closes the queue for good; pending jobs stay and are still handed out.
    pub fn close(&mut self)
        ensures
            final(self)@ == close_spec(old(self)@),
    {
        self.open = false;
    }

    /// Takes the oldest pending job, or says why there is none.
    pub fn take(&mut self) -> (r: Take<T>)
        ensures
            (final(self)@, r) == take_spec(old(self)@),
    {
        match self.items.pop_front() {
            Some(job) => {
                assert(self.items@ =~= old(self).items@.drop_first());
                Take::Job(job)
            },
            None => {
                if self.open {
                    Take::Empty
                } else {
                    Take::Closed
                }
            },
        }
    }
}

/// On an open queue, submitting `jobs` one after another appends them, in
/// order, behind what was pending.
pub proof fn lemma_push_all_appends<T>(s: QueueState<T>, jobs: Seq<T>)
    requires
        s.open,
    ensures
        push_all(s, jobs) == (QueueState { pending: s.pending + jobs, open: true }),
    decreases jobs.len(),
{
    if jobs.len() == 0 {
        assert(s.pending + jobs =~= s.pending);
    } else {
        let s1 = push_spec(s, jobs[0]).0;
        lemma_push_all_appends(s1, jobs.drop_first());
        assert(s1.pending + jobs.drop_first() =~= s.pending + jobs);
    }
}

/// While jobs are pending, `n` takes hand out the oldest `n` of them, in
/// order, and leave the rest pending.
pub proof fn lemma_take_n_prefix<T>(s: QueueState<T>, n: nat)
    requires
        n <= s.pending.len(),
    ensures
        take_n(s, n) == (s.pending.take(n as int), QueueState {
            pending: s.pending.skip(n as int),
            open: s.open,
        }),
    decreases n,
{
    if n == 0 {
        assert(s.pending.take(0) =~= Seq::<T>::empty());
        assert(s.pending.skip(0) =~= s.pending);
    } else {
        let s1 = take_spec(s).0;
        lemma_take_n_prefix(s1, (n - 1) as nat);
        assert(seq![s.pending[0]] + s1.pending.take(n - 1) =~= s.pending.take(n as int));
        assert(s1.pending.skip(n - 1) =~= s.pending.skip(n as int));
    }
}

/// Exactly-once, first-in first-out delivery: after `jobs` are submitted to
/// an open queue, as many takes as there are jobs in it hand out what was
/// pending and then `jobs`, each exactly once and in submission order, and
/// leave the queue empty and open.
pub proof fn lemma_fifo_exactly_once<T>(s: QueueState<T>, jobs: Seq<T>)
    requires
        s.open,
    ensures
        take_n(push_all(s, jobs), s.pending.len() + jobs.len()) == (s.pending + jobs, QueueState {
            pending: Seq::<T>::empty(),
            open: true,
        }),
        take_n(push_all(s, jobs), s.pending.len() + jobs.len()).0.to_multiset()
            == s.pending.to_multiset().add(jobs.to_multiset()),
{
    lemma_push_all_appends(s, jobs);
    let all = s.pending + jobs;
    let q = QueueState { pending: all, open: true };
    lemma_take_n_prefix(q, all.len());
    assert(all.take(all.len() as int) =~= all);
    assert(all.skip(all.len() as int) =~= Seq::<T>::empty());
    vstd::seq_lib::lemma_multiset_commutative(s.pending, jobs);
}

/// Submissions from several callers, interleaved in any way, are each
/// delivered exactly once: whatever the interleaving `merged` of the units
/// of two submitters `a` and `b`, draining a fresh queue hands out every unit
/// of both, no more and no fewer.
pub proof fn lemma_interleaved_submitters<T>(a: Seq<T>, b: Seq<T>, merged: Seq<T>)
    requires
        merged.to_multiset() == a.to_multiset().add(b.to_multiset()),
    ensures
        take_n(push_all(initial_state::<T>(), merged), merged.len()).0.to_multiset()
            == a.to_multiset().add(b.to_multiset()),
        take_n(push_all(initial_state::<T>(), merged), merged.len()).0.len() == a.len() + b.len(),
{
    let s = initial_state::<T>();
    lemma_fifo_exactly_once(s, merged);
    assert(s.pending + merged =~= merged);
    a.to_multiset_ensures();
    b.to_multiset_ensures();
    merged.to_multiset_ensures();
}

/// Closing is one-way: a closed queue rejects every submission and leaves its
/// state as it was, and no operation opens it again.
pub proof fn lemma_closed_is_final<T>(s: QueueState<T>, job: T)
    requires
        !s.open,
    ensures
        push_spec(s, job) == (s, false),
        !take_spec(s).0.open,
        !close_spec(s).open,
{
}

/// Closing drains rather than discards: after a close, takes still hand out
/// every pending job in order, and only then does a taker learn that the
/// queue is closed. A taker is told `Closed` only when nothing is pending.
pub proof fn lemma_close_drains<T>(s: QueueState<T>)
    ensures
        take_n(close_spec(s), s.pending.len()).0 == s.pending,
        take_spec(take_n(close_spec(s), s.pending.len()).1).1 is Closed,
        take_spec(s).1 is Closed ==> s.pending.len() == 0 && !s.open,
{
    let c = close_spec(s);
    lemma_take_n_prefix(c, s.pending.len());
    assert(s.pending.take(s.pending.len() as int) =~= s.pending);
    assert(s.pending.skip(s.pending.len() as int) =~= Seq::<T>::empty());
}

} // verus!
