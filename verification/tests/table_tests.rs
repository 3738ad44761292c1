use scheduler::table::{TaskTable, DANGLING};

#[test]
fn table_insert_counts_one() {
    let mut t: TaskTable<&'static str> = TaskTable::new();
    assert_eq!(t.len(), 0);
    let a = t.insert("a");
    let b = t.insert("b");
    assert_eq!(a, 0);
    assert_eq!(b, 1);
    assert_eq!(t.len(), 2);
    assert!(t.contains(a));
    assert!(t.contains(b));
    assert!(!t.contains(2));
    assert!(!t.contains(DANGLING));
    assert_eq!(t.strong_count(a), 1);
    assert_eq!(*t.get(b), "b");
}

#[test]
fn table_retain_and_release() {
    let mut t: TaskTable<u32> = TaskTable::new();
    let a = t.insert(10);
    t.retain(a);
    t.retain(a);
    assert_eq!(t.strong_count(a), 3);
    assert_eq!(t.release(a), None);
    assert_eq!(t.strong_count(a), 2);
    assert_eq!(t.release(a), None);
    assert_eq!(t.strong_count(a), 1);
    assert_eq!(t.release(a), Some(10));
    assert!(!t.contains(a));
    assert_eq!(t.release(a), None);
    assert_eq!(t.release(99), None);
    assert_eq!(t.len(), 1);
}

#[test]
fn table_reuses_first_vacant_slot() {
    let mut t: TaskTable<u32> = TaskTable::new();
    let a = t.insert(1);
    let b = t.insert(2);
    let c = t.insert(3);
    assert_eq!((a, b, c), (0, 1, 2));
    assert_eq!(t.release(b), Some(2));
    assert_eq!(t.release(a), Some(1));
    assert_eq!(t.insert(4), 0);
    assert_eq!(t.insert(5), 1);
    assert_eq!(t.insert(6), 3);
    assert_eq!(*t.get(0), 4);
    assert_eq!(*t.get(1), 5);
    assert_eq!(*t.get(2), 3);
    assert_eq!(t.len(), 4);
}

#[test]
fn table_get_mut_keeps_the_count() {
    let mut t: TaskTable<u32> = TaskTable::new();
    let a = t.insert(1);
    t.retain(a);
    *t.get_mut(a) = 9;
    assert_eq!(*t.get(a), 9);
    assert_eq!(t.strong_count(a), 2);
}
