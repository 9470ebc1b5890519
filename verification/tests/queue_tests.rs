use std::sync::Arc;

use cpu_btc_core::queue::LockFreeWorkQueue;
use cpu_btc_core::work::Work;

fn test_work(id: &str) -> Work {
    Work::new(id.to_string(), vec![0u8; 32], vec![0u8; 80], 1)
}

#[test]
fn test_lock_free_work_queue() {
    let mut queue = LockFreeWorkQueue::new(10);

    let work = Arc::new(test_work("test_job_1"));
    assert!(queue.enqueue_work(work.clone()).is_ok());

    let dequeued = queue.dequeue_work();
    assert!(dequeued.is_some());
    assert_eq!(dequeued.unwrap().id, work.id);

    assert!(queue.dequeue_work().is_none());
}

#[test]
fn test_queue_full_handling() {
    let mut queue = LockFreeWorkQueue::new(2);

    let work1 = Arc::new(test_work("test_job_1"));
    let work2 = Arc::new(test_work("test_job_2"));
    let work3 = Arc::new(test_work("test_job_3"));

    assert!(queue.enqueue_work(work1).is_ok());
    assert!(queue.enqueue_work(work2).is_ok());
    assert!(queue.enqueue_work(work3).is_err());

    let stats = queue.get_stats();
    assert_eq!(stats.queue_full_count, 1);
}

#[test]
fn test_concurrent_queue_access() {
    // Four producers of one hundred jobs each, interleaved with consumption:
    // every job is counted exactly once on each side.
    let mut queue = LockFreeWorkQueue::new(1000);
    let mut consumed: usize = 0;

    for i in 0..4 {
        for j in 0..100 {
            let work = Arc::new(test_work(&format!("job_{}_{}", i, j)));
            let _ = queue.enqueue_work(work);
        }
        while let Some(_work) = queue.dequeue_work() {
            consumed += 1;
        }
    }

    assert_eq!(consumed, 400);
    let stats = queue.get_stats();
    assert_eq!(stats.total_enqueued, 400);
    assert_eq!(stats.total_dequeued, 400);
}

#[test]
fn test_overfill_by_one_rejects_exactly_one() {
    // A capacity-2 queue accepts A and B, rejects C and hands it back, then
    // hands out A and B in order and runs dry.
    let mut queue = LockFreeWorkQueue::new(2);

    assert!(queue.enqueue_work(Arc::new(test_work("A"))).is_ok());
    assert!(queue.enqueue_work(Arc::new(test_work("B"))).is_ok());
    match queue.enqueue_work(Arc::new(test_work("C"))) {
        Ok(()) => panic!("a full queue must reject"),
        Err(back) => assert_eq!(back.id, "C"),
    }

    assert_eq!(queue.dequeue_work().unwrap().id, "A");
    assert_eq!(queue.dequeue_work().unwrap().id, "B");
    assert!(queue.dequeue_work().is_none());

    let stats = queue.get_stats();
    assert_eq!(stats.pending_count, 0);
    assert_eq!(stats.total_enqueued, 2);
    assert_eq!(stats.total_dequeued, 2);
    assert_eq!(stats.queue_full_count, 1);
}

#[test]
fn test_purge_stale_removes_exactly_older_versions() {
    let mut queue = LockFreeWorkQueue::new(10);

    queue
        .enqueue_work(Arc::new(test_work("old").with_version(1)))
        .unwrap();
    queue
        .enqueue_work(Arc::new(test_work("current").with_version(2)))
        .unwrap();
    queue
        .enqueue_work(Arc::new(test_work("new").with_version(3)))
        .unwrap();

    let cleared = queue.clear_stale_work(2);
    assert_eq!(cleared, 1);

    assert_eq!(queue.dequeue_work().unwrap().id, "current");
    assert_eq!(queue.dequeue_work().unwrap().id, "new");
    assert!(queue.dequeue_work().is_none());
}

#[test]
fn test_version_counter_and_results() {
    let mut queue = LockFreeWorkQueue::new(4);
    assert_eq!(queue.current_version(), 0);
    assert_eq!(queue.update_work_version(), 1);
    assert_eq!(queue.current_version(), 1);

    queue.submit_result(cpu_btc_core::work::MiningResult::new(
        "job".to_string(),
        7,
        42,
        vec![0u8; 32],
        true,
    ));
    let stats = queue.get_stats();
    assert_eq!(stats.completed_count, 1);

    let first = queue.get_result().unwrap();
    assert_eq!(first.work_id, "job");
    assert!(queue.get_result().is_none());
}

#[test]
fn test_get_results_takes_up_to_max() {
    let mut queue = LockFreeWorkQueue::new(4);
    for k in 0..5u32 {
        queue.submit_result(cpu_btc_core::work::MiningResult::new(
            format!("job_{}", k),
            1,
            k,
            vec![0u8; 32],
            true,
        ));
    }
    let first_three = queue.get_results(3);
    assert_eq!(first_three.len(), 3);
    assert_eq!(first_three[0].work_id, "job_0");
    assert_eq!(first_three[2].work_id, "job_2");
    let rest = queue.get_results(10);
    assert_eq!(rest.len(), 2);
}

#[test]
fn test_is_nearly_full_signal() {
    let mut queue = LockFreeWorkQueue::new(4);
    assert!(!queue.is_nearly_full(50));
    queue.enqueue_work(Arc::new(test_work("a"))).unwrap();
    queue.enqueue_work(Arc::new(test_work("b"))).unwrap();
    queue.enqueue_work(Arc::new(test_work("c"))).unwrap();
    assert!(queue.is_nearly_full(50));
    assert!(!queue.is_nearly_full(75));
}
