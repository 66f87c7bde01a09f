use std::cell::Cell;
use std::rc::Rc;

use webserver_rs::{
    event_of, worker_ids, PoolCore, PoolError, Received, ShutdownStep, WorkQueue, Worker,
    WorkerAction, WorkerEvent, WorkerState,
};

/// Lets `worker` take jobs from `queue` until it would have to wait or stop,
/// running each job through `run`. Returns the worker's last action.
fn drive<T>(worker: &mut Worker, queue: &mut WorkQueue<T>, run: &mut dyn FnMut(T)) -> WorkerAction {
    loop {
        let got = queue.receive();
        let action = worker.step(event_of(&got));
        match (action, got) {
            (WorkerAction::Run, Received::Item(job)) => {
                run(job);
                assert_eq!(worker.step(WorkerEvent::JobEnded), WorkerAction::Receive);
            }
            (WorkerAction::Run, _) => panic!("ran without a job"),
            (other, _) => return other,
        }
    }
}

/// Runs shutdown to the end, closing `queue` on release, and returns the
/// indices joined in order.
fn shut_down<T>(core: &mut PoolCore<u32>, queue: &mut WorkQueue<T>) -> Vec<usize> {
    let mut joined = Vec::new();
    loop {
        match core.shutdown_step() {
            ShutdownStep::ReleaseSender => queue.close(),
            ShutdownStep::Join(id, handle) => {
                assert_eq!(handle as usize, id + 100);
                joined.push(id);
            }
            ShutdownStep::Done => return joined,
        }
    }
}

fn core_of(size: usize) -> PoolCore<u32> {
    let ids = worker_ids(size).unwrap();
    let handles: Vec<u32> = ids.iter().map(|i| *i as u32 + 100).collect();
    PoolCore::new(handles).unwrap()
}

#[test]
fn pool_of_two_collects_five_jobs() {
    let mut core = core_of(2);
    let mut queue: WorkQueue<usize> = WorkQueue::new();
    let mut workers = vec![Worker::new(0), Worker::new(1)];
    for i in 0..5 {
        assert!(core.can_submit());
        assert!(queue.send(i).is_ok());
    }
    let mut collected: Vec<usize> = Vec::new();
    // The first worker takes one job, then the second takes the rest while
    // the first is busy.
    let first = queue.receive();
    assert_eq!(workers[0].step(event_of(&first)), WorkerAction::Run);
    if let Received::Item(j) = first {
        collected.push(j);
    }
    assert_eq!(drive(&mut workers[1], &mut queue, &mut |j| collected.push(j)), WorkerAction::Wait);
    assert_eq!(workers[0].step(WorkerEvent::JobEnded), WorkerAction::Receive);
    assert_eq!(workers[1].state, WorkerState::Idle);

    let mut order = vec![];
    loop {
        match core.shutdown_step() {
            ShutdownStep::ReleaseSender => {
                queue.close();
                for w in workers.iter_mut() {
                    assert_eq!(drive(w, &mut queue, &mut |j| collected.push(j)), WorkerAction::Exit);
                }
            }
            ShutdownStep::Join(id, _) => order.push(id),
            ShutdownStep::Done => break,
        }
    }
    assert_eq!(order, vec![0, 1]);
    assert!(workers.iter().all(|w| w.is_shut_down()));
    let mut sorted = collected.clone();
    sorted.sort();
    assert_eq!(sorted, vec![0, 1, 2, 3, 4]);
}

#[test]
fn shutdown_right_after_submit_runs_the_job_first() {
    let mut core = core_of(1);
    let flag = Rc::new(Cell::new(false));
    let mut queue: WorkQueue<Box<dyn FnOnce()>> = WorkQueue::new();
    let mut worker = Worker::new(0);
    let f = flag.clone();
    assert!(queue.send(Box::new(move || f.set(true))).is_ok());

    assert!(matches!(core.shutdown_step(), ShutdownStep::ReleaseSender));
    queue.close();
    assert!(!flag.get());
    assert_eq!(drive(&mut worker, &mut queue, &mut |job| job()), WorkerAction::Exit);
    assert!(flag.get());
    assert!(matches!(core.shutdown_step(), ShutdownStep::Join(0, 100)));
    assert!(matches!(core.shutdown_step(), ShutdownStep::Done));
}

#[test]
fn zero_workers_is_refused() {
    assert_eq!(worker_ids(0), Err(PoolError::ZeroWorkers));
    assert!(matches!(PoolCore::<u32>::new(vec![]), Err(PoolError::ZeroWorkers)));
}

#[test]
fn pool_of_n_has_n_idle_workers_numbered_in_order() {
    assert_eq!(worker_ids(1), Ok(vec![0]));
    assert_eq!(worker_ids(4), Ok(vec![0, 1, 2, 3]));
    let core = core_of(4);
    assert_eq!(core.size(), 4);
    assert_eq!(core.joined_count(), 0);
    assert!(core.can_submit());
    for id in worker_ids(4).unwrap() {
        let w = Worker::new(id);
        assert_eq!(w.id, id);
        assert_eq!(w.state, WorkerState::Idle);
        assert!(!w.is_shut_down());
    }
}

#[test]
fn jobs_are_taken_once_each_in_submission_order() {
    let mut queue: WorkQueue<u8> = WorkQueue::new();
    for j in [7u8, 3, 9, 3] {
        assert!(queue.send(j).is_ok());
    }
    assert_eq!(queue.len(), 4);
    let mut taken = vec![];
    while let Received::Item(j) = queue.receive() {
        taken.push(j);
    }
    assert_eq!(taken, vec![7, 3, 9, 3]);
    assert_eq!(queue.len(), 0);
    assert!(matches!(queue.receive(), Received::Empty));
}

#[test]
fn more_jobs_than_workers_none_dropped() {
    let mut core = core_of(2);
    let mut queue: WorkQueue<u32> = WorkQueue::new();
    for j in 0..50 {
        assert!(queue.send(j).is_ok());
    }
    let mut done = vec![];
    let mut workers = vec![Worker::new(0), Worker::new(1)];
    assert_eq!(shut_down(&mut core, &mut queue), vec![0, 1]);
    for w in workers.iter_mut() {
        assert_eq!(drive(w, &mut queue, &mut |j| done.push(j)), WorkerAction::Exit);
    }
    assert_eq!(done, (0..50).collect::<Vec<u32>>());
}

#[test]
fn shutting_down_twice_joins_each_worker_once() {
    let mut core = core_of(3);
    let mut queue: WorkQueue<u8> = WorkQueue::new();
    assert_eq!(shut_down(&mut core, &mut queue), vec![0, 1, 2]);
    assert_eq!(core.joined_count(), 3);
    assert!(!core.can_submit());
    assert_eq!(shut_down(&mut core, &mut queue), Vec::<usize>::new());
    assert_eq!(core.joined_count(), 3);
    assert!(matches!(queue.receive(), Received::Closed));
    assert!(matches!(queue.receive(), Received::Closed));
}

#[test]
fn send_after_close_hands_the_job_back() {
    let mut queue: WorkQueue<u8> = WorkQueue::new();
    assert!(queue.send(1).is_ok());
    assert!(!queue.is_closed());
    queue.close();
    assert!(queue.is_closed());
    assert_eq!(queue.send(2), Err(2));
    assert_eq!(queue.len(), 1);
    assert!(matches!(queue.receive(), Received::Item(1)));
    assert!(matches!(queue.receive(), Received::Closed));
}

#[test]
fn worker_transitions() {
    let mut w = Worker::new(5);
    assert_eq!(w.step(WorkerEvent::NothingQueued), WorkerAction::Wait);
    assert_eq!(w.state, WorkerState::Idle);
    assert_eq!(w.step(WorkerEvent::GotJob), WorkerAction::Run);
    assert_eq!(w.state, WorkerState::Executing);
    assert_eq!(w.step(WorkerEvent::JobEnded), WorkerAction::Receive);
    assert_eq!(w.state, WorkerState::Idle);
    assert_eq!(w.step(WorkerEvent::QueueClosed), WorkerAction::Exit);
    assert_eq!(w.state, WorkerState::ShutDown);
    assert!(w.is_shut_down());
    assert_eq!(w.id, 5);
}

#[test]
fn receive_results_map_to_worker_events() {
    assert_eq!(event_of(&Received::Item(3u8)), WorkerEvent::GotJob);
    assert_eq!(event_of(&Received::<u8>::Empty), WorkerEvent::NothingQueued);
    assert_eq!(event_of(&Received::<u8>::Closed), WorkerEvent::QueueClosed);
}
