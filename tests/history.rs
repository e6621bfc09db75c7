use netflux::HistoryBuffer;

#[test]
fn overfull_buffer_keeps_last_values() {
    let mut h = HistoryBuffer::new(3);
    for v in 1..=5u64 {
        h.push(v);
    }
    assert_eq!(h.len(), 3);
    assert_eq!(h.snapshot(), vec![3, 4, 5]);
    assert_eq!(h.get(0), 3);
    assert_eq!(h.capacity(), 3);
}

#[test]
fn buffer_below_capacity_keeps_all() {
    let mut h = HistoryBuffer::new(4);
    assert!(h.is_empty());
    h.push(9);
    h.push(2);
    assert_eq!(h.snapshot(), vec![9, 2]);
    assert!(!h.is_empty());
}

#[test]
fn max_of_empty_is_one() {
    let h = HistoryBuffer::new(8);
    assert_eq!(h.max(), 1);
}

#[test]
fn max_of_values() {
    let mut h = HistoryBuffer::new(8);
    h.push(0);
    assert_eq!(h.max(), 0);
    h.push(70);
    h.push(30);
    assert_eq!(h.max(), 70);
}

#[test]
fn max_forgets_evicted() {
    let mut h = HistoryBuffer::new(2);
    h.push(100);
    h.push(1);
    h.push(2);
    assert_eq!(h.max(), 2);
}

#[test]
fn zero_capacity_keeps_nothing() {
    let mut h = HistoryBuffer::new(0);
    h.push(5);
    assert_eq!(h.len(), 0);
    assert_eq!(h.snapshot(), Vec::<u64>::new());
}
