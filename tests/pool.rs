use workpool::pool::{PoolCore, PoolError, TaskOutcome, WorkerAction, WorkerState};

fn pool_of(n: usize) -> PoolCore {
    match PoolCore::new(n) {
        Ok(p) => p,
        Err(e) => panic!("pool of {} refused: {:?}", n, e),
    }
}

#[test]
fn zero_workers_is_refused() {
    assert!(matches!(PoolCore::new(0), Err(PoolError::ZeroWorkers)));
}

#[test]
fn new_pool_has_n_idle_workers() {
    let p = pool_of(4);
    assert_eq!(p.size(), 4);
    for w in 0..4 {
        assert_eq!(p.worker_state(w), WorkerState::Idle);
    }
    assert_eq!(p.queued(), 0);
    assert!(p.is_open());
    assert!(!p.is_finished());
}

#[test]
fn n_tasks_run_at_once_on_n_workers() {
    let mut p = pool_of(3);
    for t in 0..3u64 {
        assert_eq!(p.submit(), Ok(t));
    }
    for w in 0..3usize {
        assert_eq!(p.next_action(w), WorkerAction::Run(w as u64));
    }
    for w in 0..3usize {
        assert_eq!(p.worker_state(w), WorkerState::Running(w as u64));
    }
    assert_eq!(p.queued(), 0);
}

#[test]
fn extra_task_waits_for_a_free_worker() {
    let mut p = pool_of(2);
    assert_eq!(p.submit(), Ok(0));
    assert_eq!(p.submit(), Ok(1));
    assert_eq!(p.next_action(0), WorkerAction::Run(0));
    assert_eq!(p.next_action(1), WorkerAction::Run(1));
    // the third submission returns at once and waits
    assert_eq!(p.submit(), Ok(2));
    assert_eq!(p.queued(), 1);
    assert_eq!(p.worker_state(0), WorkerState::Running(0));
    assert_eq!(p.worker_state(1), WorkerState::Running(1));
    p.task_done(1, TaskOutcome::Completed);
    assert_eq!(p.next_action(1), WorkerAction::Run(2));
    assert_eq!(p.queued(), 0);
}

#[test]
fn idle_worker_waits_on_empty_open_queue() {
    let mut p = pool_of(1);
    assert_eq!(p.next_action(0), WorkerAction::Wait);
    assert_eq!(p.worker_state(0), WorkerState::Idle);
}

#[test]
fn tasks_start_in_submission_order() {
    let mut p = pool_of(2);
    for t in 0..5u64 {
        assert_eq!(p.submit(), Ok(t));
    }
    let mut started = Vec::new();
    for round in 0..5usize {
        let w = round % 2;
        if let WorkerState::Running(_) = p.worker_state(w) {
            p.task_done(w, TaskOutcome::Completed);
        }
        match p.next_action(w) {
            WorkerAction::Run(t) => started.push(t),
            other => panic!("unexpected {:?}", other),
        }
    }
    assert_eq!(started, vec![0, 1, 2, 3, 4]);
}

#[test]
fn timed_scenario_third_task_waits_for_a_slot() {
    // two workers; T1 and T2 occupy both, T3 may start only once one ends
    let mut p = pool_of(2);
    let t1 = p.submit().unwrap();
    let t2 = p.submit().unwrap();
    let t3 = p.submit().unwrap();
    assert_eq!(p.next_action(0), WorkerAction::Run(t1));
    assert_eq!(p.next_action(1), WorkerAction::Run(t2));
    assert_eq!(p.queued(), 1);
    p.task_done(0, TaskOutcome::Completed);
    assert_eq!(p.next_action(0), WorkerAction::Run(t3));
    p.task_done(1, TaskOutcome::Completed);
    p.task_done(0, TaskOutcome::Completed);
    p.shutdown();
    assert_eq!(p.next_action(0), WorkerAction::Stop);
    assert_eq!(p.next_action(1), WorkerAction::Stop);
    assert!(p.is_finished());
}

#[test]
fn worker_survives_a_faulting_task() {
    let mut p = pool_of(1);
    let bad = p.submit().unwrap();
    assert_eq!(p.next_action(0), WorkerAction::Run(bad));
    p.task_done(0, TaskOutcome::Faulted);
    assert_eq!(p.worker_state(0), WorkerState::Idle);
    let good = p.submit().unwrap();
    assert_eq!(p.next_action(0), WorkerAction::Run(good));
}

#[test]
fn shutdown_refuses_new_tasks_and_drains_the_queue() {
    let mut p = pool_of(1);
    assert_eq!(p.submit(), Ok(0));
    assert_eq!(p.submit(), Ok(1));
    assert_eq!(p.next_action(0), WorkerAction::Run(0));
    p.shutdown();
    assert!(!p.is_open());
    assert_eq!(p.submit(), Err(PoolError::Closed));
    assert_eq!(p.queued(), 1);
    // the running task is not interrupted
    assert_eq!(p.worker_state(0), WorkerState::Running(0));
    assert!(!p.is_finished());
    p.task_done(0, TaskOutcome::Completed);
    assert_eq!(p.next_action(0), WorkerAction::Run(1));
    p.task_done(0, TaskOutcome::Completed);
    assert_eq!(p.next_action(0), WorkerAction::Stop);
    assert_eq!(p.worker_state(0), WorkerState::Terminated);
    assert!(p.is_finished());
    // shutting down again changes nothing
    p.shutdown();
    assert!(p.is_finished());
    assert_eq!(p.next_ticket(), 2);
}
