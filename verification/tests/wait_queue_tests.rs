use scheduler::wait_queue::{CancelActions, WaitQueue, WaitStep, Wakeup};

fn queue_of(tasks: &[usize]) -> WaitQueue<String> {
    let mut wq = WaitQueue::new();
    for t in tasks {
        assert_eq!(wq.wait(*t, format!("task {}", t)), WaitStep::Block);
    }
    wq
}

fn drain(wq: &mut WaitQueue<String>) -> Vec<usize> {
    wq.notify_all(false).iter().map(|w| w.id).collect()
}

fn woke(w: Option<Wakeup<String>>) -> Option<(usize, String, bool)> {
    w.map(|w| (w.id, w.task, w.resched))
}

#[test]
fn wait_queue_starts_empty() {
    let wq: WaitQueue<u8> = WaitQueue::new();
    assert!(wq.is_empty());
    assert_eq!(wq.len(), 0);
    let wq: WaitQueue<u8> = WaitQueue::with_capacity(16);
    assert!(wq.is_empty());
    assert_eq!(wq.len(), 0);
}

#[test]
fn wait_blocks_until_notified() {
    let mut wq = WaitQueue::new();
    assert_eq!(wq.wait(7, "seven".to_string()), WaitStep::Block);
    assert_eq!(wq.len(), 1);
    assert!(!wq.is_empty());
    assert!(wq.notify_task(false, 8).is_none());
    assert_eq!(wq.len(), 1);
    assert_eq!(woke(wq.notify_one(true)), Some((7, "seven".to_string(), true)));
    assert!(wq.is_empty());
}

#[test]
fn notify_one_on_empty_queue() {
    let mut wq: WaitQueue<String> = WaitQueue::new();
    assert!(wq.notify_one(true).is_none());
    assert!(wq.notify_one(false).is_none());
    assert!(wq.is_empty());
    assert_eq!(wq.len(), 0);
}

#[test]
fn notify_one_wakes_front_to_back() {
    let mut wq = queue_of(&[3, 1, 2]);
    assert_eq!(wq.len(), 3);
    assert_eq!(woke(wq.notify_one(false)), Some((3, "task 3".to_string(), false)));
    assert_eq!(wq.len(), 2);
    assert_eq!(woke(wq.notify_one(true)), Some((1, "task 1".to_string(), true)));
    assert_eq!(wq.len(), 1);
    assert_eq!(woke(wq.notify_one(false)), Some((2, "task 2".to_string(), false)));
    assert_eq!(wq.len(), 0);
    assert!(wq.notify_one(false).is_none());
}

#[test]
fn notify_all_wakes_everyone_in_order() {
    let mut wq = queue_of(&[5, 6, 7, 8]);
    let woken = wq.notify_all(true);
    let seen: Vec<(usize, String, bool)> =
        woken.into_iter().map(|w| (w.id, w.task, w.resched)).collect();
    assert_eq!(
        seen,
        vec![
            (5, "task 5".to_string(), true),
            (6, "task 6".to_string(), true),
            (7, "task 7".to_string(), true),
            (8, "task 8".to_string(), true),
        ]
    );
    assert!(wq.is_empty());
    assert!(wq.notify_all(true).is_empty());
}

#[test]
fn notify_task_removes_by_identity() {
    let mut wq = queue_of(&[1, 2, 3]);
    assert_eq!(wq.wait(2, "second two".to_string()), WaitStep::Block);
    assert!(wq.notify_task(true, 9).is_none());
    assert_eq!(wq.len(), 4);
    assert_eq!(woke(wq.notify_task(true, 2)), Some((2, "task 2".to_string(), true)));
    assert_eq!(wq.len(), 3);
    assert_eq!(drain(&mut wq), vec![1, 3, 2]);
    let mut wq = queue_of(&[1, 2, 3]);
    assert_eq!(woke(wq.notify_task(false, 3)), Some((3, "task 3".to_string(), false)));
    assert!(wq.notify_task(false, 3).is_none());
    assert_eq!(drain(&mut wq), vec![1, 2]);
}

#[test]
fn requeue_moves_from_front_to_tail() {
    let mut src = queue_of(&[1, 2, 3, 4]);
    let mut dst = queue_of(&[9]);
    assert_eq!(src.requeue(2, &mut dst), 2);
    assert_eq!(src.len(), 2);
    assert_eq!(dst.len(), 3);
    assert_eq!(drain(&mut dst), vec![9, 1, 2]);
    assert_eq!(drain(&mut src), vec![3, 4]);
}

#[test]
fn requeue_moves_at_most_what_is_there() {
    let mut src = queue_of(&[1, 2, 3]);
    let mut dst = WaitQueue::new();
    assert_eq!(src.requeue(0, &mut dst), 0);
    assert_eq!((src.len(), dst.len()), (3, 0));
    assert_eq!(src.requeue(10, &mut dst), 3);
    assert_eq!((src.len(), dst.len()), (0, 3));
    assert_eq!(src.requeue(10, &mut dst), 0);
    assert_eq!((src.len(), dst.len()), (0, 3));
    assert_eq!(dst.requeue(usize::MAX, &mut src), 3);
    assert_eq!(drain(&mut src), vec![1, 2, 3]);
}

#[test]
fn requeue_conserves_the_tasks() {
    for count in 0..8 {
        let mut src = queue_of(&[1, 2, 3, 4, 5]);
        let mut dst = queue_of(&[6, 7]);
        let moved = src.requeue(count, &mut dst);
        assert_eq!(moved, count.min(5));
        assert_eq!(src.len() + dst.len(), 7);
        assert_eq!(src.len(), 5 - moved);
    }
}

#[test]
fn requeue_does_not_wake() {
    let mut src = queue_of(&[1, 2]);
    let mut dst = WaitQueue::new();
    assert_eq!(src.requeue(1, &mut dst), 1);
    assert_eq!(woke(dst.notify_task(false, 1)), Some((1, "task 1".to_string(), false)));
    assert!(src.notify_task(false, 1).is_none());
}

#[test]
fn cancel_events_after_notify_changes_nothing() {
    let mut wq = queue_of(&[1, 2, 1]);
    let r = wq.cancel_events(1, false, false);
    assert_eq!(r, CancelActions { clear_in_wait_queue: false, expire_timer_ticket: false });
    assert_eq!(wq.len(), 3);
}

#[test]
fn cancel_events_removes_a_task_still_marked() {
    let mut wq = queue_of(&[1, 2, 1, 3, 1]);
    let r = wq.cancel_events(1, true, true);
    assert_eq!(r, CancelActions { clear_in_wait_queue: true, expire_timer_ticket: true });
    assert_eq!(drain(&mut wq), vec![2, 3]);
    let mut wq = queue_of(&[4, 5]);
    let r = wq.cancel_events(6, true, false);
    assert_eq!(r, CancelActions { clear_in_wait_queue: true, expire_timer_ticket: false });
    assert_eq!(drain(&mut wq), vec![4, 5]);
}

#[test]
fn wait_until_proceeds_only_on_condition() {
    let mut wq = WaitQueue::new();
    assert_eq!(wq.wait_until(4, 'a', true), WaitStep::Proceed);
    assert!(wq.is_empty());
    assert_eq!(wq.wait_until(4, 'b', false), WaitStep::Block);
    assert_eq!(wq.len(), 1);
    assert_eq!(wq.notify_one(false).map(|w| (w.id, w.task)), Some((4, 'b')));
    assert_eq!(wq.wait_until(4, 'c', false), WaitStep::Block);
    assert_eq!(wq.notify_one(false).map(|w| (w.id, w.task)), Some((4, 'c')));
    assert_eq!(wq.wait_until(4, 'd', true), WaitStep::Proceed);
    assert!(wq.is_empty());
    let r = wq.cancel_events(4, false, false);
    assert!(!r.clear_in_wait_queue);
}
