use robots::path::ActorPath;
use robots::reference::ActorRef;
use robots::scheduler::{RunQueue, WorkerPool};

#[test]
fn run_queue_is_first_in_first_out() {
    let mut q = RunQueue::new();
    q.enqueue(ActorRef::with_cell(1, ActorPath::new_local("/user/a".to_owned())));
    q.enqueue(ActorRef::with_cell(2, ActorPath::new_local("/user/b".to_owned())));
    assert_eq!(q.len(), 2);
    assert_eq!(q.pop().unwrap().path().logical_path(), "/user/a");
    assert_eq!(q.pop().unwrap().path().logical_path(), "/user/b");
    assert!(q.pop().is_none());
}

#[test]
fn panics_keep_the_worker_count() {
    let mut p = WorkerPool::new();
    assert_eq!(p.spawn_threads(3), 3);
    for _ in 0..5 {
        assert!(p.worker_panicked());
    }
    assert_eq!(p.live(), 3);
}

#[test]
fn stopping_workers_is_bounded_by_the_live_count() {
    let mut p = WorkerPool::new();
    p.spawn_threads(2);
    assert_eq!(p.terminate_threads(1), 1);
    assert_eq!(p.terminate_threads(5), 1);
    assert_eq!(p.live(), 0);
}

#[test]
fn pool_shutdown_twice_is_a_no_op() {
    let mut p = WorkerPool::new();
    p.spawn_threads(4);
    assert_eq!(p.shutdown(), 4);
    assert!(p.is_shut_down());
    assert_eq!(p.shutdown(), 0);
    assert_eq!(p.spawn_threads(2), 0);
    assert!(!p.worker_panicked());
}
