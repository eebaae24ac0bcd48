//! The life cycle of one worker: idle while waiting on the queue, running
//! while it executes a job, terminated once the queue is closed and drained
//! or a job faults.
use crate::queue::{take_spec, JobQueue, QueueState, Take};
use vstd::prelude::*;

verus! {

/// Where a worker stands in its loop.
#[derive(PartialEq, Eq, Structural, Clone, Copy, Debug)]
pub enum WorkerState {
    /// Waiting on the shared queue for the next job.
    Idle,
    /// Executing a job it took from the queue.
    Running,
    /// Its thread has left the loop; it takes no more jobs.
    Terminated,
}

/// What a worker learns: the outcome of a take, or of the job it ran.
#[derive(PartialEq, Eq, Structural, Clone, Copy, Debug)]
pub enum WorkerEvent {
    /// The queue handed it a job.
    JobTaken,
    /// The queue had nothing pending and is still open.
    QueueEmpty,
    /// The queue is closed and drained.
    QueueClosed,
    /// The job it ran returned.
    JobDone,
    /// The job it ran raised a fault that nothing recovers.
    JobFaulted,
}

/// What the worker does next.
#[derive(PartialEq, Eq, Structural, Clone, Copy, Debug)]
pub enum WorkerAction {
    /// Execute the job just taken.
    RunJob,
    /// Block on the queue until a job comes or it closes, then take again.
    WaitForJob,
    /// Leave the loop; the thread ends.
    Exit,
}

/// Whether `e` can happen to a worker in state `s`: outcomes of a take come
/// to an idle worker, outcomes of a job to a running one.
pub open spec fn event_fits(s: WorkerState, e: WorkerEvent) -> bool {
    match s {
        WorkerState::Idle => e == WorkerEvent::JobTaken || e == WorkerEvent::QueueEmpty
            || e == WorkerEvent::QueueClosed,
        WorkerState::Running => e == WorkerEvent::JobDone || e == WorkerEvent::JobFaulted,
        WorkerState::Terminated => false,
    }
}

/// The state after `e`, and the action that goes with it.
pub open spec fn transition(s: WorkerState, e: WorkerEvent) -> (WorkerState, WorkerAction) {
    match e {
        WorkerEvent::JobTaken => (WorkerState::Running, WorkerAction::RunJob),
        WorkerEvent::QueueEmpty => (WorkerState::Idle, WorkerAction::WaitForJob),
        WorkerEvent::QueueClosed => (WorkerState::Terminated, WorkerAction::Exit),
        WorkerEvent::JobDone => (WorkerState::Idle, WorkerAction::WaitForJob),
        WorkerEvent::JobFaulted => (WorkerState::Terminated, WorkerAction::Exit),
    }
}

/// The event that a take's outcome is to a worker.
pub open spec fn event_of_take<T>(t: Take<T>) -> WorkerEvent {
    match t {
        Take::Job(_) => WorkerEvent::JobTaken,
        Take::Empty => WorkerEvent::QueueEmpty,
        Take::Closed => WorkerEvent::QueueClosed,
    }
}

/// The number of workers in `states` that have not terminated: the pool's
/// capacity.
pub open spec fn live_count(states: Seq<WorkerState>) -> nat
    decreases states.len(),
{
    if states.len() == 0 {
        0
    } else {
        let rest = live_count(states.drop_last());
        if states.last() == WorkerState::Terminated {
            rest
        } else {
            rest + 1
        }
    }
}

/// Advances a worker in state `s` by event `e`.
pub fn step(s: WorkerState, e: WorkerEvent) -> (r: (WorkerState, WorkerAction))
    requires
        event_fits(s, e),
    ensures
        r == transition(s, e),
{
    match e {
        WorkerEvent::JobTaken => (WorkerState::Running, WorkerAction::RunJob),
        WorkerEvent::QueueEmpty => (WorkerState::Idle, WorkerAction::WaitForJob),
        WorkerEvent::QueueClosed => (WorkerState::Terminated, WorkerAction::Exit),
        WorkerEvent::JobDone => (WorkerState::Idle, WorkerAction::WaitForJob),
        WorkerEvent::JobFaulted => (WorkerState::Terminated, WorkerAction::Exit),
    }
}

/// Classifies the outcome of a take as the event it is to the taker.
pub fn take_event<T>(t: &Take<T>) -> (r: WorkerEvent)
    ensures
        r == event_of_take(*t),
{
    match t {
        Take::Job(_) => WorkerEvent::JobTaken,
        Take::Empty => WorkerEvent::QueueEmpty,
        Take::Closed => WorkerEvent::QueueClosed,
    }
}

/// The job a take hands over, if any.
pub open spec fn job_of<T>(t: Take<T>) -> Option<T> {
    match t {
        Take::Job(j) => Some(j),
        _ => None,
    }
}

/// One turn of an idle worker at the queue: takes from `q` and decides what
/// to do. Returns the worker's next state, its action, and the job to run
/// when the action is to run one.
pub fn take_next<T>(q: &mut JobQueue<T>) -> (r: (WorkerState, WorkerAction, Option<T>))
    ensures
        final(q)@ == take_spec(old(q)@).0,
        (r.0, r.1) == transition(WorkerState::Idle, event_of_take(take_spec(old(q)@).1)),
        r.2 == job_of(take_spec(old(q)@).1),
{
    let t = q.take();
    let e = take_event(&t);
    let (s, a) = step(WorkerState::Idle, e);
    let job = match t {
        Take::Job(j) => Some(j),
        _ => None,
    };
    (s, a, job)
}

/// Counts the workers in `states` that have not terminated.
pub fn capacity(states: &Vec<WorkerState>) -> (r: usize)
    ensures
        r == live_count(states@),
{
    let mut n: usize = 0;
    let mut i: usize = 0;
    while i < states.len()
        invariant
            i <= states@.len(),
            n == live_count(states@.take(i as int)),
            n <= i,
        decreases states.len() - i,
    {
        proof {
            let next = states@.take(i + 1);
            assert(next.drop_last() =~= states@.take(i as int));
        }
        if states[i] != WorkerState::Terminated {
            n = n + 1;
        }
        i = i + 1;
    }
    assert(states@.take(i as int) =~= states@);
    n
}

/// A worker leaves its loop exactly when the queue reports itself closed
/// and drained, or when a job it runs faults; nothing brings a terminated
/// worker back.
pub proof fn lemma_exit_conditions(s: WorkerState, e: WorkerEvent)
    requires
        event_fits(s, e),
    ensures
        transition(s, e).0 == WorkerState::Terminated <==> (e == WorkerEvent::QueueClosed || e
            == WorkerEvent::JobFaulted),
        transition(s, e).1 == WorkerAction::Exit <==> transition(s, e).0
            == WorkerState::Terminated,
        forall|e2: WorkerEvent| !event_fits(WorkerState::Terminated, e2),
{
}

/// A job is never executed by an idle worker without a take handing it a
/// job: the only way into `Running` is a take that returned one.
pub proof fn lemma_run_needs_job<T>(t: Take<T>)
    ensures
        transition(WorkerState::Idle, event_of_take(t)).1 == WorkerAction::RunJob <==> t is Job,
{
}

/// One for a worker that has not terminated, zero for one that has.
spec fn is_live(s: WorkerState) -> nat {
    if s == WorkerState::Terminated {
        0
    } else {
        1
    }
}

/// Workers drain the queue before they leave: an idle worker exits only on
/// a queue that is closed and has nothing pending, and it runs a job exactly
/// when the queue held one, which it then no longer holds.
pub proof fn lemma_exit_only_when_drained<T>(s: QueueState<T>)
    ensures
        transition(WorkerState::Idle, event_of_take(take_spec(s).1)).1 == WorkerAction::Exit
            <==> (!s.open && s.pending.len() == 0),
        transition(WorkerState::Idle, event_of_take(take_spec(s).1)).1 == WorkerAction::RunJob
            <==> s.pending.len() > 0,
        s.pending.len() > 0 ==> job_of(take_spec(s).1) == Some(s.pending[0])
            && take_spec(s).0.pending == s.pending.drop_first(),
{
}

/// Sets the live count of `states` against the count of one position.
proof fn lemma_live_count_update(states: Seq<WorkerState>, i: int, v: WorkerState)
    requires
        0 <= i < states.len(),
    ensures
        live_count(states.update(i, v)) + is_live(states[i]) == live_count(states) + is_live(v),
    decreases states.len(),
{
    let u = states.update(i, v);
    assert(u.len() == states.len());
    if i == states.len() - 1 {
        assert(u.drop_last() =~= states.drop_last());
        assert(u.last() == v);
    } else {
        lemma_live_count_update(states.drop_last(), i, v);
        assert(u.drop_last() =~= states.drop_last().update(i, v));
        assert(u.last() == states.last());
    }
}

/// A fault costs the pool exactly one worker: when the job of running
/// worker `i` faults, that worker terminates, every other worker keeps its
/// state, and the capacity drops by one. Nothing restores it.
pub proof fn lemma_fault_costs_one(states: Seq<WorkerState>, i: int)
    requires
        0 <= i < states.len(),
        states[i] == WorkerState::Running,
    ensures
        live_count(states.update(i, transition(states[i], WorkerEvent::JobFaulted).0))
            == live_count(states) - 1,
        live_count(states) >= 1,
        forall|j: int|
            0 <= j < states.len() && j != i ==> #[trigger] states.update(
                i,
                transition(states[i], WorkerEvent::JobFaulted).0,
            )[j] == states[j],
{
    assert(transition(states[i], WorkerEvent::JobFaulted).0 == WorkerState::Terminated);
    assert(states[i] != WorkerState::Terminated);
    lemma_live_count_update(states, i, WorkerState::Terminated);
}

} // verus!
