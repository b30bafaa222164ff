use notify_scheduler::guard::{
    jobs_to_start, PeriodicJob, StartupGuard, FANOUT_INTERVAL_SECS, HEALTH_INTERVAL_SECS,
    JANITOR_INTERVAL_SECS,
};
use std::sync::atomic::{AtomicUsize, Ordering};
use std::sync::Arc;

#[test]
fn first_call_is_admitted() {
    let guard = StartupGuard::new();
    assert!(guard.admit_once());
}

#[test]
fn later_calls_are_refused() {
    let guard = StartupGuard::new();
    assert!(guard.admit_once());
    for _ in 0..100 {
        assert!(!guard.admit_once());
    }
}

#[test]
fn guards_do_not_share_their_state() {
    let one = StartupGuard::new();
    let other = StartupGuard::new();
    assert!(one.admit_once());
    assert!(other.admit_once());
    assert!(!one.admit_once());
    assert!(!other.admit_once());
}

#[test]
fn racing_calls_admit_exactly_one() {
    let runtime = tokio::runtime::Builder::new_multi_thread().worker_threads(4).build().unwrap();
    for callers in [1usize, 2, 8, 64] {
        let guard = Arc::new(StartupGuard::new());
        let granted = Arc::new(AtomicUsize::new(0));
        let refused = Arc::new(AtomicUsize::new(0));
        runtime.block_on(async {
            let mut tasks = Vec::new();
            for _ in 0..callers {
                let guard = Arc::clone(&guard);
                let granted = Arc::clone(&granted);
                let refused = Arc::clone(&refused);
                tasks.push(tokio::spawn(async move {
                    if guard.admit_once() {
                        granted.fetch_add(1, Ordering::SeqCst);
                    } else {
                        refused.fetch_add(1, Ordering::SeqCst);
                    }
                }));
            }
            for task in tasks {
                task.await.unwrap();
            }
        });
        assert_eq!(granted.load(Ordering::SeqCst), 1);
        assert_eq!(refused.load(Ordering::SeqCst), callers - 1);
    }
}

#[test]
fn first_connection_starts_all_three_jobs() {
    let guard = StartupGuard::new();
    assert_eq!(
        guard.on_connected(),
        vec![PeriodicJob::FanOut, PeriodicJob::HealthPing, PeriodicJob::Janitor]
    );
}

#[test]
fn reconnection_starts_nothing() {
    let guard = StartupGuard::new();
    guard.on_connected();
    assert_eq!(guard.on_connected(), vec![]);
    assert_eq!(guard.on_connected(), vec![]);
}

#[test]
fn jobs_follow_the_admission() {
    assert_eq!(
        jobs_to_start(true),
        vec![PeriodicJob::FanOut, PeriodicJob::HealthPing, PeriodicJob::Janitor]
    );
    assert_eq!(jobs_to_start(false), vec![]);
}

#[test]
fn each_job_has_its_interval() {
    assert_eq!(PeriodicJob::FanOut.interval_secs(), 60);
    assert_eq!(PeriodicJob::HealthPing.interval_secs(), 60);
    assert_eq!(PeriodicJob::Janitor.interval_secs(), 86_400);
    assert_eq!(FANOUT_INTERVAL_SECS, 60);
    assert_eq!(HEALTH_INTERVAL_SECS, 60);
    assert_eq!(JANITOR_INTERVAL_SECS, 86_400);
}
