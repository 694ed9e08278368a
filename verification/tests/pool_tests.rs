use workpool::pool::{PoolCore, PoolError, Taken, WorkerStep};

#[test]
fn zero_workers_fails_fast() {
    let r = PoolCore::<u32>::new(0);
    assert!(matches!(r, Err(PoolError::ZeroWorkers)));
}

#[test]
fn construction_counts() {
    let p = PoolCore::<u32>::new(4).unwrap();
    assert_eq!(p.state.live_worker_count, 4);
    assert_eq!(p.state.target_worker_count, 4);
    assert_eq!(p.state.queued_count, 0);
    assert_eq!(p.state.active_count, 0);
    assert_eq!(p.state.failure_count, 0);
    assert_eq!(p.state.submitted_count, 0);
    assert_eq!(p.state.completed_count, 0);
    assert!(p.state.open);
    assert!(!p.has_work());
}

#[test]
fn jobs_hand_out_in_fifo_order() {
    let mut p = PoolCore::<u32>::new(2).unwrap();
    p.submit(1).unwrap();
    p.submit(2).unwrap();
    assert!(p.has_work());
    match p.worker_take() {
        Taken::Run(id) => assert_eq!(id, 1),
        _ => panic!("expected the first job"),
    }
    p.submit(3).unwrap();
    match p.worker_take() {
        Taken::Run(id) => assert_eq!(id, 2),
        _ => panic!("expected the second job"),
    }
    p.finish(false);
    p.finish(false);
    match p.worker_take() {
        Taken::Run(id) => assert_eq!(id, 3),
        _ => panic!("expected the third job"),
    }
    p.finish(false);
    assert!(!p.has_work());
}

#[test]
fn no_job_loss_under_interleaved_submission() {
    // Three producers, five jobs each, submissions interleaved; every job
    // must be executed exactly once.
    let mut p = PoolCore::<u32>::new(2).unwrap();
    let mut expected: Vec<u32> = Vec::new();
    for j in 0..5u32 {
        for producer in 0..3u32 {
            let id = producer * 100 + j;
            p.submit(id).unwrap();
            expected.push(id);
        }
    }
    assert_eq!(p.state.submitted_count, 15);
    assert_eq!(p.state.queued_count, 15);

    let mut executed: Vec<u32> = Vec::new();
    while p.has_work() {
        match p.worker_take() {
            Taken::Run(id) => {
                executed.push(id);
                p.finish(false);
            }
            _ => panic!("open pool with queued work must hand out a job"),
        }
    }
    executed.sort();
    expected.sort();
    assert_eq!(executed, expected);
    assert_eq!(p.state.completed_count, 15);
    // Conservation law on concrete values: submitted = completed + queued + active.
    assert_eq!(
        p.state.submitted_count,
        p.state.completed_count + p.state.queued_count + p.state.active_count
    );
}

#[test]
fn idle_wait_returns_only_when_all_done() {
    // Submit seven jobs; the idle condition must not hold until every one
    // of them has completed.
    let mut p = PoolCore::<u32>::new(3).unwrap();
    for id in 0..7u32 {
        p.submit(id).unwrap();
    }
    let mut done: usize = 0;
    while p.has_work() {
        match p.worker_take() {
            Taken::Run(_) => {
                done += 1;
                p.finish(false);
            }
            _ => panic!("open pool with queued work must hand out a job"),
        }
    }
    // has_work() is false: the barrier would return here, and indeed all
    // seven jobs have completed.
    assert_eq!(done, 7);
    assert_eq!(p.state.completed_count, 7);
    assert_eq!(p.state.submitted_count, 7);
}

#[test]
fn mid_run_has_work_never_signals_idle() {
    let mut p = PoolCore::<u32>::new(2).unwrap();
    p.submit(1).unwrap();
    assert!(p.has_work());
    match p.worker_take() {
        Taken::Run(_) => {}
        _ => panic!("expected a job"),
    }
    // Claimed but still running: the pool must not look idle.
    assert!(p.has_work());
    p.finish(false);
    assert!(!p.has_work());
}

#[test]
fn failure_isolation_counts_and_preserves_capacity() {
    // Eight jobs, three of which fail; all normal jobs complete, the
    // failure counter equals the number of failing jobs, and the live
    // worker count is unchanged once failures settle.
    let mut p = PoolCore::<u32>::new(4).unwrap();
    for id in 0..8u32 {
        p.submit(id).unwrap();
    }
    let mut normal_done: Vec<u32> = Vec::new();
    let mut replacements: usize = 0;
    while p.has_work() {
        match p.worker_take() {
            Taken::Run(id) => {
                let fails = id % 3 == 0;  // ids 0, 3, 6 fail
                let replace = p.finish(fails);
                assert_eq!(replace, fails);
                if replace {
                    replacements += 1;
                } else {
                    normal_done.push(id);
                }
            }
            _ => panic!("open pool with queued work must hand out a job"),
        }
    }
    assert_eq!(p.state.failure_count, 3);
    assert_eq!(replacements, 3);
    assert_eq!(normal_done, vec![1, 2, 4, 5, 7]);
    assert_eq!(p.state.completed_count, 8);
    assert_eq!(p.state.live_worker_count, 4);
}

#[test]
fn resize_up_spawns_difference_and_raises_concurrency() {
    let mut p = PoolCore::<u32>::new(2).unwrap();
    for id in 0..6u32 {
        p.submit(id).unwrap();
    }
    // With two live workers at most two jobs run at once.
    while p.state.active_count < p.state.live_worker_count {
        match p.worker_take() {
            Taken::Run(_) => {}
            _ => panic!("expected a job"),
        }
    }
    assert_eq!(p.state.active_count, 2);

    let to_spawn = p.resize(5);
    assert_eq!(to_spawn, 3);
    assert_eq!(p.state.live_worker_count, 5);
    assert_eq!(p.state.target_worker_count, 5);
    // The two jobs already running were not disturbed.
    assert_eq!(p.state.active_count, 2);

    // Now up to five jobs can run at once, and no more.
    while p.state.active_count < p.state.live_worker_count {
        match p.worker_take() {
            Taken::Run(_) => {}
            _ => panic!("expected a job"),
        }
    }
    assert_eq!(p.state.active_count, 5);
    assert!(p.state.active_count <= p.state.live_worker_count);
}

#[test]
fn resize_down_is_lazy_and_never_interrupts() {
    let mut p = PoolCore::<u32>::new(5).unwrap();
    for id in 0..3u32 {
        p.submit(id).unwrap();
    }
    for _ in 0..3 {
        match p.worker_take() {
            Taken::Run(_) => {}
            _ => panic!("expected a job"),
        }
    }
    assert_eq!(p.state.active_count, 3);

    let to_spawn = p.resize(2);
    assert_eq!(to_spawn, 0);
    // No in-flight job was interrupted and no worker was stopped yet.
    assert_eq!(p.state.active_count, 3);
    assert_eq!(p.state.live_worker_count, 5);
    assert_eq!(p.state.target_worker_count, 2);

    for _ in 0..3 {
        p.finish(false);
    }
    // As idle workers return to the loop top, exactly the excess retires.
    let mut retired: usize = 0;
    while p.state.live_worker_count > p.state.target_worker_count {
        match p.worker_poll() {
            WorkerStep::Retire => retired += 1,
            WorkerStep::Claim => panic!("excess worker must retire"),
        }
    }
    assert_eq!(retired, 3);
    assert_eq!(p.state.live_worker_count, 2);
    assert!(matches!(p.worker_poll(), WorkerStep::Claim));
}

#[test]
fn resize_to_largest_target() {
    let mut p = PoolCore::<u32>::new(1).unwrap();
    let to_spawn = p.resize(usize::MAX);
    assert_eq!(to_spawn, usize::MAX - 1);
    assert_eq!(p.state.live_worker_count, usize::MAX);
    assert_eq!(p.state.target_worker_count, usize::MAX);
}

#[test]
fn graceful_shutdown_drains_thousand_jobs() {
    let mut p = PoolCore::<u32>::new(3).unwrap();
    for id in 0..1000u32 {
        p.submit(id).unwrap();
    }
    p.close();
    // Submissions after close are refused, not silently dropped.
    assert!(matches!(p.submit(5000), Err(PoolError::Closed)));

    // Each worker drains jobs until it finds the closed queue empty, then
    // exits; shutdown returns only after all three have exited.
    let mut executed: usize = 0;
    let mut exited: usize = 0;
    while exited < 3 {
        match p.worker_poll() {
            WorkerStep::Claim => {}
            WorkerStep::Retire => panic!("no shrink was requested"),
        }
        match p.worker_take() {
            Taken::Run(_) => {
                executed += 1;
                p.finish(false);
            }
            Taken::Exit => exited += 1,
            Taken::Wait => panic!("a closed pool never parks a worker"),
        }
    }
    // All 1000 jobs ran before shutdown could return.
    assert_eq!(executed, 1000);
    assert_eq!(p.state.completed_count, 1000);
    assert_eq!(p.state.submitted_count, 1000);
    assert_eq!(p.state.live_worker_count, 0);
    assert!(!p.has_work());
}

#[test]
fn drain_returns_all_jobs_in_order() {
    let mut p = PoolCore::<u32>::new(2).unwrap();
    for id in 0..100u32 {
        p.submit(id).unwrap();
    }
    p.close();
    let jobs = p.drain();
    let expected: Vec<u32> = (0..100).collect();
    assert_eq!(jobs, expected);
    assert_eq!(p.state.completed_count, 100);
    assert_eq!(p.state.queued_count, 0);
    assert_eq!(p.state.live_worker_count, 1);
    assert!(!p.has_work());
}

#[test]
fn submit_after_close_reports_closed() {
    let mut p = PoolCore::<u32>::new(1).unwrap();
    p.close();
    assert!(matches!(p.submit(1), Err(PoolError::Closed)));
    assert_eq!(p.state.submitted_count, 0);
    assert_eq!(p.state.queued_count, 0);
}

#[test]
fn signal_stop_sends_one_sentinel_per_worker() {
    let mut p = PoolCore::<u32>::new(4).unwrap();
    p.submit(1).unwrap();
    p.submit(2).unwrap();
    let n = p.stop_all();
    assert_eq!(n, 4);

    // Jobs ahead of the sentinels are still consumed first, in order.
    match p.worker_take() {
        Taken::Run(id) => assert_eq!(id, 1),
        _ => panic!("expected the first job"),
    }
    p.finish(false);
    match p.worker_take() {
        Taken::Run(id) => assert_eq!(id, 2),
        _ => panic!("expected the second job"),
    }
    p.finish(false);
    // Then each of the four workers dequeues one sentinel and exits.
    for _ in 0..4 {
        assert!(matches!(p.worker_take(), Taken::Exit));
    }
    assert_eq!(p.state.live_worker_count, 0);
    assert_eq!(p.state.completed_count, 2);
}

#[test]
fn open_empty_pool_parks_workers() {
    let mut p = PoolCore::<u32>::new(2).unwrap();
    assert!(matches!(p.worker_take(), Taken::Wait));
    assert_eq!(p.state.live_worker_count, 2);
    assert_eq!(p.state.active_count, 0);
}
