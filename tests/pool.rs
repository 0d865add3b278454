use rust_book::pool::{Action, ThreadPool, WorkerState};

/// Drives every worker in turn until all have left their loops. `fault_on`
/// names a job whose run raises a fault. Returns the jobs that returned
/// normally, in the order they finished.
fn drain(pool: &mut ThreadPool, fault_on: Option<u64>) -> Vec<u64> {
    let mut done = Vec::new();
    loop {
        let mut live = false;
        for w in 0..pool.size() {
            if pool.worker(w).state() == WorkerState::Idle {
                live = true;
                match pool.next_action(w) {
                    Action::Run(job) => {
                        let faulted = fault_on == Some(job);
                        pool.finish_job(w, faulted);
                        if !faulted {
                            done.push(job);
                        }
                    }
                    Action::Exit => {}
                    Action::Wait => panic!("a closed queue never asks a worker to wait"),
                }
            }
        }
        if !live {
            return done;
        }
    }
}

fn run_jobs(size: usize, k: u64) -> Vec<u64> {
    let mut pool = ThreadPool::new(size);
    for expected in 0..k {
        assert_eq!(pool.execute(), expected);
    }
    let joined = pool.shutdown();
    assert_eq!(joined, (0..size).collect::<Vec<usize>>());
    let done = drain(&mut pool, None);
    assert_eq!(pool.completed(), k);
    assert_eq!(pool.pending(), 0);
    done
}

fn assert_each_once(done: &[u64], k: u64) {
    let mut seen = vec![0u32; k as usize];
    for &job in done {
        seen[job as usize] += 1;
    }
    assert!(seen.iter().all(|&n| n == 1));
    assert_eq!(done.len() as u64, k);
}

#[test]
fn new_pool_has_size_idle_workers() {
    for size in [1usize, 2, 4, 8] {
        let pool = ThreadPool::new(size);
        assert_eq!(pool.size(), size);
        for w in 0..size {
            assert_eq!(pool.worker(w).id(), w);
            assert_eq!(pool.worker(w).state(), WorkerState::Idle);
        }
        assert!(pool.is_accepting());
        assert_eq!(pool.submitted(), 0);
    }
}

#[test]
fn build_rejects_zero_workers() {
    match ThreadPool::build(0) {
        Err(e) => assert_eq!(e.0, 0),
        Ok(_) => panic!("a pool of no workers was built"),
    }
    assert_eq!(ThreadPool::build(3).map(|p| p.size()).ok(), Some(3));
}

#[test]
fn counter_reaches_k_below_at_and_above_size() {
    assert_each_once(&run_jobs(4, 2), 2);
    assert_each_once(&run_jobs(4, 4), 4);
    assert_each_once(&run_jobs(4, 9), 9);
}

#[test]
fn no_job_lost_or_repeated_across_sizes() {
    for size in [1usize, 2, 8] {
        for k in [0u64, 1, 7, 10_000] {
            assert_each_once(&run_jobs(size, k), k);
        }
    }
}

#[test]
fn idle_worker_waits_while_queue_open_and_empty() {
    let mut pool = ThreadPool::new(2);
    assert_eq!(pool.next_action(0), Action::Wait);
    let job = pool.execute();
    assert_eq!(pool.next_action(1), Action::Run(job));
    assert_eq!(pool.worker(1).state(), WorkerState::Executing(job));
    assert_eq!(pool.next_action(0), Action::Wait);
}

#[test]
fn shutdown_waits_for_backlog() {
    let mut pool = ThreadPool::new(1);
    let first = pool.execute();
    assert_eq!(pool.next_action(0), Action::Run(first));
    pool.execute();
    pool.execute();
    pool.shutdown();
    assert!(!pool.is_accepting());
    // The job in flight finishes, and the queued ones still run before the
    // worker is let go.
    pool.finish_job(0, false);
    assert_eq!(pool.next_action(0), Action::Run(1));
    pool.finish_job(0, false);
    assert_eq!(pool.next_action(0), Action::Run(2));
    pool.finish_job(0, false);
    assert_eq!(pool.next_action(0), Action::Exit);
    assert_eq!(pool.worker(0).state(), WorkerState::Terminated);
    assert_eq!(pool.completed(), 3);
}

#[test]
fn second_shutdown_joins_nothing() {
    let mut pool = ThreadPool::new(3);
    pool.execute();
    assert_eq!(pool.shutdown(), vec![0, 1, 2]);
    assert_eq!(pool.shutdown(), Vec::<usize>::new());
    let done = drain(&mut pool, None);
    assert_eq!(done, vec![0]);
    assert_eq!(pool.shutdown(), Vec::<usize>::new());
}

#[test]
fn fault_ends_only_its_worker() {
    let mut pool = ThreadPool::new(3);
    for _ in 0..10 {
        pool.execute();
    }
    pool.shutdown();
    let done = drain(&mut pool, Some(0));
    assert_eq!(pool.worker(0).state(), WorkerState::Faulted(0));
    assert_eq!(pool.worker(1).state(), WorkerState::Terminated);
    assert_eq!(pool.worker(2).state(), WorkerState::Terminated);
    assert_eq!(pool.completed(), 9);
    let mut sorted = done.clone();
    sorted.sort();
    assert_eq!(sorted, (1..10).collect::<Vec<u64>>());
}

#[test]
fn two_workers_five_jobs_each_index_once() {
    let mut pool = ThreadPool::new(2);
    for _ in 0..5 {
        pool.execute();
    }
    pool.shutdown();
    let mut list = drain(&mut pool, None);
    assert_eq!(list.len(), 5);
    list.sort();
    assert_eq!(list, vec![0, 1, 2, 3, 4]);
}

#[test]
fn no_live_worker_once_every_worker_faulted() {
    let mut pool = ThreadPool::new(2);
    assert!(pool.has_live_worker());
    pool.execute();
    pool.execute();
    assert_eq!(pool.next_action(0), Action::Run(0));
    pool.finish_job(0, true);
    assert!(pool.has_live_worker());
    assert_eq!(pool.next_action(1), Action::Run(1));
    pool.finish_job(1, true);
    assert!(!pool.has_live_worker());
    assert_eq!(pool.completed(), 0);
}

#[test]
fn repeated_shutdowns_join_each_worker_once() {
    let mut pool = ThreadPool::new(4);
    let mut joined = pool.shutdown();
    for _ in 0..5 {
        joined.extend(pool.shutdown());
    }
    assert_eq!(joined, vec![0, 1, 2, 3]);
    for w in 0..4 {
        assert!(pool.worker(w).reclaimed);
    }
}
