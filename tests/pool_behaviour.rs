use std::cell::RefCell;
use std::rc::Rc;

use thread_pool::pool::{Dispatcher, ShutdownStep};
use thread_pool::queue::{JobQueue, Take};
use thread_pool::worker::{capacity, step, take_event, take_next, WorkerAction, WorkerEvent, WorkerState};

type Job = Box<dyn FnOnce()>;

fn run_one(q: &mut JobQueue<Job>) -> WorkerAction {
    let (_, action, job) = take_next(q);
    if let Some(job) = job {
        job();
    }
    action
}

#[test]
fn new_pool_has_size_live_workers() {
    for size in [1usize, 2, 4, 7] {
        let d = Dispatcher::new(size);
        assert_eq!(d.size(), size);
        let states = d.initial_states();
        assert_eq!(states.len(), size);
        assert!(states.iter().all(|s| *s == WorkerState::Idle));
        assert_eq!(capacity(&states), size);
        assert_eq!(d.worker_ids(), (0..size).collect::<Vec<usize>>());
        assert!(!d.is_shutting_down());
    }
}

#[test]
fn every_submitted_unit_runs_exactly_once() {
    let counts = Rc::new(RefCell::new(vec![0u32; 10]));
    let mut q: JobQueue<Job> = JobQueue::new();
    for i in 0..10usize {
        let c = Rc::clone(&counts);
        assert!(q.push(Box::new(move || c.borrow_mut()[i] += 1)).is_ok());
    }
    assert_eq!(q.len(), 10);
    for _ in 0..10 {
        assert_eq!(run_one(&mut q), WorkerAction::RunJob);
    }
    assert_eq!(run_one(&mut q), WorkerAction::WaitForJob);
    assert_eq!(*counts.borrow(), vec![1u32; 10]);
}

#[test]
fn shutdown_drains_pending_units_before_workers_exit() {
    let mut d = Dispatcher::new(3);
    let mut q: JobQueue<u32> = JobQueue::new();
    for j in [5u32, 6, 7] {
        assert!(q.push(j).is_ok());
    }
    let plan = d.begin_shutdown();
    assert_eq!(
        plan,
        vec![ShutdownStep::CloseQueue, ShutdownStep::Join(0), ShutdownStep::Join(1), ShutdownStep::Join(2)]
    );
    assert!(d.is_shutting_down());
    assert_eq!(d.size(), 3);
    q.close();
    let mut done = Vec::new();
    loop {
        let (state, action, job) = take_next(&mut q);
        match action {
            WorkerAction::RunJob => done.push(job.unwrap()),
            WorkerAction::Exit => {
                assert_eq!(state, WorkerState::Terminated);
                assert!(job.is_none());
                break;
            }
            WorkerAction::WaitForJob => panic!("a closed queue never asks a worker to wait"),
        }
    }
    assert_eq!(done, vec![5, 6, 7]);
    assert_eq!(q.len(), 0);
}

#[test]
fn second_shutdown_has_nothing_to_do() {
    let mut d = Dispatcher::new(2);
    assert_eq!(d.begin_shutdown().len(), 3);
    assert!(d.begin_shutdown().is_empty());
    assert!(d.is_shutting_down());
}

#[test]
fn submission_after_close_is_rejected() {
    let mut q: JobQueue<u32> = JobQueue::new();
    assert!(q.push(1).is_ok());
    q.close();
    assert!(!q.is_open());
    match q.push(2) {
        Err(rejected) => assert_eq!(rejected.job, 2),
        Ok(()) => panic!("a closed queue accepted a job"),
    }
    assert_eq!(q.len(), 1);
    assert!(matches!(q.take(), Take::Job(1)));
    assert!(matches!(q.take(), Take::Closed));
    assert!(matches!(q.take(), Take::Closed));
}

#[test]
fn interleaved_submitters_each_delivered_once() {
    let a: Vec<u32> = (0..5).collect();
    let b: Vec<u32> = (100..105).collect();
    let mut q: JobQueue<u32> = JobQueue::new();
    let (mut ia, mut ib) = (0usize, 0usize);
    let pattern = [true, true, false, true, false, false, false, true, true, false];
    for from_a in pattern {
        if from_a {
            assert!(q.push(a[ia]).is_ok());
            ia += 1;
        } else {
            assert!(q.push(b[ib]).is_ok());
            ib += 1;
        }
    }
    let mut got = Vec::new();
    while let Take::Job(j) = q.take() {
        got.push(j);
    }
    assert_eq!(got.len(), a.len() + b.len());
    let mut sorted = got.clone();
    sorted.sort();
    let mut expected: Vec<u32> = a.iter().chain(b.iter()).copied().collect();
    expected.sort();
    assert_eq!(sorted, expected);
    let from_a: Vec<u32> = got.iter().copied().filter(|j| *j < 100).collect();
    assert_eq!(from_a, a);
}

#[test]
fn single_worker_runs_a_before_b() {
    let d = Dispatcher::new(1);
    assert_eq!(d.worker_ids(), vec![0]);
    let log = Rc::new(RefCell::new(Vec::new()));
    let mut q: JobQueue<Job> = JobQueue::new();
    let la = Rc::clone(&log);
    let lb = Rc::clone(&log);
    assert!(q.push(Box::new(move || la.borrow_mut().push("A"))).is_ok());
    assert!(q.push(Box::new(move || lb.borrow_mut().push("B"))).is_ok());
    assert_eq!(run_one(&mut q), WorkerAction::RunJob);
    assert_eq!(*log.borrow(), vec!["A"]);
    assert_eq!(run_one(&mut q), WorkerAction::RunJob);
    assert_eq!(*log.borrow(), vec!["A", "B"]);
}

#[test]
fn four_workers_record_ids_for_eight_units() {
    let d = Dispatcher::new(4);
    let ids = d.worker_ids();
    let record = Rc::new(RefCell::new(Vec::new()));
    let mut q: JobQueue<Box<dyn FnOnce(usize)>> = JobQueue::new();
    for _ in 0..8 {
        let r = Rc::clone(&record);
        assert!(q.push(Box::new(move |id| r.borrow_mut().push(id))).is_ok());
    }
    let mut turn = 0usize;
    loop {
        let id = ids[turn % ids.len()];
        let (_, action, job) = take_next(&mut q);
        match action {
            WorkerAction::RunJob => job.unwrap()(id),
            _ => break,
        }
        turn += 1;
    }
    let record = record.borrow();
    assert_eq!(record.len(), 8);
    assert!(record.iter().all(|id| *id < 4));
}

#[test]
fn faulting_unit_costs_one_worker() {
    let d = Dispatcher::new(3);
    let mut states = d.initial_states();
    let mut q: JobQueue<u32> = JobQueue::new();
    for j in [1u32, 2, 3] {
        assert!(q.push(j).is_ok());
    }
    // worker 1 takes the first unit, which faults
    let (s, a, job) = take_next(&mut q);
    assert_eq!((s, a, job), (WorkerState::Running, WorkerAction::RunJob, Some(1)));
    states[1] = s;
    let (s, a) = step(states[1], WorkerEvent::JobFaulted);
    assert_eq!((s, a), (WorkerState::Terminated, WorkerAction::Exit));
    states[1] = s;
    assert_eq!(capacity(&states), 2);
    // the others still take the units that were queued
    let (s0, _, j0) = take_next(&mut q);
    let (s2, _, j2) = take_next(&mut q);
    assert_eq!((s0, j0), (WorkerState::Running, Some(2)));
    assert_eq!((s2, j2), (WorkerState::Running, Some(3)));
    states[0] = s0;
    states[2] = s2;
    assert_eq!(capacity(&states), 2);
    assert_eq!(step(states[0], WorkerEvent::JobDone), (WorkerState::Idle, WorkerAction::WaitForJob));
}

#[test]
fn events_of_takes() {
    assert_eq!(take_event(&Take::Job(9u8)), WorkerEvent::JobTaken);
    assert_eq!(take_event(&Take::<u8>::Empty), WorkerEvent::QueueEmpty);
    assert_eq!(take_event(&Take::<u8>::Closed), WorkerEvent::QueueClosed);
    assert_eq!(step(WorkerState::Idle, WorkerEvent::QueueEmpty), (WorkerState::Idle, WorkerAction::WaitForJob));
    assert_eq!(step(WorkerState::Idle, WorkerEvent::QueueClosed), (WorkerState::Terminated, WorkerAction::Exit));
}

#[test]
fn empty_open_queue_makes_worker_wait() {
    let mut q: JobQueue<u32> = JobQueue::new();
    assert!(q.is_open());
    assert_eq!(q.len(), 0);
    assert_eq!(take_next(&mut q), (WorkerState::Idle, WorkerAction::WaitForJob, None));
    assert!(matches!(q.take(), Take::Empty));
}

#[test]
fn capacity_counts_non_terminated() {
    let states = vec![WorkerState::Idle, WorkerState::Terminated, WorkerState::Running, WorkerState::Terminated];
    assert_eq!(capacity(&states), 2);
    assert_eq!(capacity(&Vec::new()), 0);
}
