use scheduler::fifo::{FiFoTaskRef, FifoScheduler, FifoTask, WeakFiFoTaskRef, FIFO_CAPACITY};
use scheduler::table::{TaskTable, DANGLING};

fn three_tasks() -> (TaskTable<FifoTask<&'static str>>, usize, usize, usize) {
    let mut tasks = TaskTable::new();
    let a = tasks.insert(FifoTask::new("a"));
    let b = tasks.insert(FifoTask::new("b"));
    let c = tasks.insert(FifoTask::new("c"));
    (tasks, a, b, c)
}

#[test]
fn fifo_picks_in_arrival_order() {
    let (mut tasks, a, b, c) = three_tasks();
    let mut sched: FifoScheduler<&'static str> = FifoScheduler::new();
    sched.init();
    sched.add_task(&mut tasks, FiFoTaskRef::new(a));
    sched.add_task(&mut tasks, FiFoTaskRef::new(b));
    sched.add_task(&mut tasks, FiFoTaskRef::new(c));
    let first = sched.pick_next_task().unwrap();
    let second = sched.pick_next_task().unwrap();
    let third = sched.pick_next_task().unwrap();
    assert_eq!(first.slot(), a);
    assert_eq!(second.slot(), b);
    assert_eq!(third.slot(), c);
    assert_eq!(*first.deref(&tasks).inner(), "a");
    assert_eq!(*third.deref(&tasks).inner(), "c");
    assert!(sched.pick_next_task().is_none());
}

#[test]
fn fifo_pick_on_empty_is_none() {
    let mut sched: FifoScheduler<u8> = FifoScheduler::new();
    assert!(sched.pick_next_task().is_none());
    assert!(sched.pick_next_task().is_none());
}

#[test]
fn fifo_put_prev_goes_to_the_tail() {
    let (mut tasks, a, b, c) = three_tasks();
    let mut sched: FifoScheduler<&'static str> = FifoScheduler::new();
    sched.add_task(&mut tasks, FiFoTaskRef::new(a));
    sched.add_task(&mut tasks, FiFoTaskRef::new(b));
    sched.add_task(&mut tasks, FiFoTaskRef::new(c));
    let running = sched.pick_next_task().unwrap();
    assert_eq!(running.slot(), a);
    sched.put_prev_task(&mut tasks, running, true);
    assert_eq!(sched.pick_next_task().unwrap().slot(), b);
    assert_eq!(sched.pick_next_task().unwrap().slot(), c);
    assert_eq!(sched.pick_next_task().unwrap().slot(), a);
    assert!(sched.pick_next_task().is_none());
}

#[test]
fn fifo_round_robin_never_starves() {
    let (mut tasks, a, b, c) = three_tasks();
    let mut sched: FifoScheduler<&'static str> = FifoScheduler::new();
    sched.add_task(&mut tasks, FiFoTaskRef::new(a));
    sched.add_task(&mut tasks, FiFoTaskRef::new(b));
    sched.add_task(&mut tasks, FiFoTaskRef::new(c));
    let mut order = Vec::new();
    for _ in 0..9 {
        let t = sched.pick_next_task().unwrap();
        order.push(t.slot());
        sched.put_prev_task(&mut tasks, t, false);
    }
    assert_eq!(order, vec![a, b, c, a, b, c, a, b, c]);
}

#[test]
fn fifo_full_queue_drops_the_capability() {
    let mut tasks: TaskTable<FifoTask<usize>> = TaskTable::new();
    let mut sched: FifoScheduler<usize> = FifoScheduler::new();
    let mut slots = Vec::new();
    for i in 0..FIFO_CAPACITY {
        let s = tasks.insert(FifoTask::new(i));
        slots.push(s);
        sched.add_task(&mut tasks, FiFoTaskRef::new(s));
    }
    let extra = tasks.insert(FifoTask::new(1000));
    let shared = tasks.insert(FifoTask::new(2000));
    let keep = FiFoTaskRef::<usize>::new(shared).clone(&mut tasks);
    assert_eq!(keep.strong_count(&tasks), 2);
    sched.add_task(&mut tasks, FiFoTaskRef::new(extra));
    sched.add_task(&mut tasks, FiFoTaskRef::new(shared));
    assert!(!tasks.contains(extra));
    assert!(tasks.contains(shared));
    assert_eq!(keep.strong_count(&tasks), 1);
    for s in slots {
        assert!(tasks.contains(s));
        assert_eq!(sched.pick_next_task().unwrap().slot(), s);
    }
    assert!(sched.pick_next_task().is_none());
}

#[test]
fn fifo_tick_never_reschedules() {
    let (mut tasks, a, b, _c) = three_tasks();
    let mut sched: FifoScheduler<&'static str> = FifoScheduler::new();
    sched.add_task(&mut tasks, FiFoTaskRef::new(b));
    let current = FiFoTaskRef::new(a);
    for _ in 0..100 {
        assert!(!sched.task_tick(&current));
    }
}

#[test]
fn fifo_set_priority_is_refused() {
    let (_tasks, a, _b, _c) = three_tasks();
    let sched: FifoScheduler<&'static str> = FifoScheduler::new();
    let task = FiFoTaskRef::new(a);
    assert!(!sched.set_priority(&task, 0));
    assert!(!sched.set_priority(&task, -20));
    assert!(!sched.set_priority(&task, 19));
    assert!(!sched.set_priority(&task, 20));
}

#[test]
fn fifo_scheduler_name() {
    assert_eq!(FifoScheduler::<u8>::scheduler_name(), "FIFO");
}

#[test]
fn fifo_task_wraps_inner() {
    let t = FifoTask::new(42u32);
    assert_eq!(*t.inner(), 42);
}

#[test]
fn fifo_capability_clone_and_drop() {
    let mut tasks: TaskTable<FifoTask<u32>> = TaskTable::new();
    let slot = tasks.insert(FifoTask::new(7));
    let cap = FiFoTaskRef::new(slot);
    assert_eq!(cap.strong_count(&tasks), 1);
    let mut clones = Vec::new();
    for i in 0..5 {
        let c = cap.clone(&mut tasks);
        assert!(c.ptr_eq(&cap));
        assert_eq!(c.strong_count(&tasks), i + 2);
        clones.push(c);
    }
    for c in clones {
        c.drop(&mut tasks);
    }
    assert_eq!(cap.strong_count(&tasks), 1);
    assert_eq!(*cap.deref(&tasks).inner(), 7);
    cap.drop(&mut tasks);
    assert!(!tasks.contains(slot));
}

#[test]
fn fifo_capability_identity() {
    let mut tasks: TaskTable<FifoTask<u32>> = TaskTable::new();
    let a = tasks.insert(FifoTask::new(1));
    let b = tasks.insert(FifoTask::new(1));
    let ra = FiFoTaskRef::<u32>::new(a);
    let rb = FiFoTaskRef::<u32>::new(b);
    assert!(!ra.ptr_eq(&rb));
    assert!(ra.ptr_eq(&FiFoTaskRef::new(a)));
    assert!(!ra.is_empty());
    assert!(FiFoTaskRef::<u32>::new(DANGLING).is_empty());
    let weak = ra.weak_clone();
    assert_eq!(weak.slot(), a);
    assert_eq!(ra.strong_count(&tasks), 1);
    assert_eq!(*weak.deref(&tasks).inner(), 1);
    assert_eq!(WeakFiFoTaskRef::<u32>::new(b).slot(), b);
}
