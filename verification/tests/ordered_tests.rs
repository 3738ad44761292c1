use scheduler::ordered::OrderedQueue;

#[test]
fn ordered_pops_in_key_order() {
    let mut q: OrderedQueue<&'static str, 8> = OrderedQueue::new();
    assert!(q.is_empty());
    assert!(q.first_key_value().is_none());
    assert!(q.insert((5, 0), "five").is_ok());
    assert!(q.insert((-3, 7), "minus three").is_ok());
    assert!(q.insert((5, -1), "five low id").is_ok());
    assert!(q.insert((0, 0), "zero").is_ok());
    assert_eq!(q.len(), 4);
    assert_eq!(q.first_key_value(), Some(((-3, 7), &"minus three")));
    assert_eq!(q.pop_first(), Some(((-3, 7), "minus three")));
    assert_eq!(q.pop_first(), Some(((0, 0), "zero")));
    assert_eq!(q.pop_first(), Some(((5, -1), "five low id")));
    assert_eq!(q.pop_first(), Some(((5, 0), "five")));
    assert_eq!(q.pop_first(), None);
    assert!(q.is_empty());
}

#[test]
fn ordered_equal_keys_leave_in_arrival_order() {
    let mut q: OrderedQueue<u8, 8> = OrderedQueue::new();
    assert!(q.insert((1, 1), 10).is_ok());
    assert!(q.insert((1, 1), 20).is_ok());
    assert!(q.insert((0, 9), 5).is_ok());
    assert!(q.insert((1, 1), 30).is_ok());
    assert_eq!(q.pop_first(), Some(((0, 9), 5)));
    assert_eq!(q.pop_first(), Some(((1, 1), 10)));
    assert_eq!(q.pop_first(), Some(((1, 1), 20)));
    assert_eq!(q.pop_first(), Some(((1, 1), 30)));
}

#[test]
fn ordered_full_queue_hands_the_value_back() {
    let mut q: OrderedQueue<u8, 2> = OrderedQueue::new();
    assert_eq!(q.insert((2, 0), 1), Ok(()));
    assert_eq!(q.insert((1, 0), 2), Ok(()));
    assert_eq!(q.insert((0, 0), 3), Err(3));
    assert_eq!(q.len(), 2);
    assert_eq!(q.pop_first(), Some(((1, 0), 2)));
    assert_eq!(q.insert((0, 0), 3), Ok(()));
    assert_eq!(q.pop_first(), Some(((0, 0), 3)));
    assert_eq!(q.pop_first(), Some(((2, 0), 1)));
    let mut none: OrderedQueue<u8, 0> = OrderedQueue::new();
    assert_eq!(none.insert((0, 0), 1), Err(1));
}
