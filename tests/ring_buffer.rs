use msg_filter::RingBuffer;

#[test]
fn capacity_two_push_three_evicts_first() {
    let mut ring = RingBuffer::new(2);
    assert_eq!(ring.push('A'), None);
    assert_eq!(ring.push('B'), None);
    assert_eq!(ring.push('C'), Some('A'));
    assert_eq!(ring.take(), vec!['B', 'C']);
    assert_eq!(ring.len(), 0);
    assert_eq!(ring.take(), Vec::<char>::new());
}

#[test]
fn push_beyond_capacity_keeps_last_items_in_order() {
    let mut ring = RingBuffer::new(4);
    let mut evicted = Vec::new();
    for i in 0..10u32 {
        if let Some(e) = ring.push(i) {
            evicted.push(e);
        }
    }
    assert_eq!(evicted, vec![0, 1, 2, 3, 4, 5]);
    assert_eq!(ring.len(), 4);
    assert_eq!(ring.take(), vec![6, 7, 8, 9]);
    assert_eq!(ring.len(), 0);
}

#[test]
fn push_exactly_capacity_evicts_nothing() {
    let mut ring = RingBuffer::new(3);
    assert_eq!(ring.push(1), None);
    assert_eq!(ring.push(2), None);
    assert_eq!(ring.push(3), None);
    assert_eq!(ring.capacity(), 3);
    assert_eq!(ring.take(), vec![1, 2, 3]);
}

#[test]
fn zero_capacity_retains_nothing() {
    let mut ring = RingBuffer::new(0);
    assert_eq!(ring.push(7), Some(7));
    assert_eq!(ring.len(), 0);
    assert_eq!(ring.take(), Vec::<i32>::new());
}

#[test]
fn pop_returns_oldest() {
    let mut ring = RingBuffer::new(2);
    assert_eq!(ring.pop(), None);
    ring.push(10);
    ring.push(20);
    assert_eq!(ring.pop(), Some(10));
    assert_eq!(ring.take(), vec![20]);
}

#[test]
fn take_after_take_is_empty_and_push_resumes() {
    let mut ring = RingBuffer::new(2);
    ring.push("x");
    assert_eq!(ring.take(), vec!["x"]);
    assert_eq!(ring.push("y"), None);
    assert_eq!(ring.push("z"), None);
    assert_eq!(ring.push("w"), Some("y"));
}
