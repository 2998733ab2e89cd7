use nanonet_agent::buffer::MetricBuffer;

#[test]
fn disconnected_buffering_caps_drops_and_drains_fifo() {
    // Capacity 3; five frames arrive while disconnected: the two oldest
    // are evicted, the rest drain in FIFO order, and the buffer empties.
    let mut b = MetricBuffer::new(3);
    for i in 1..=5u32 {
        b.push(format!("m{}", i));
    }
    assert_eq!(b.len(), 3);
    assert_eq!(b.dropped_count(), 2);
    assert_eq!(b.total_buffered(), 5);
    let drained = b.drain();
    assert_eq!(drained, vec!["m3".to_string(), "m4".to_string(), "m5".to_string()]);
    assert_eq!(b.len(), 0);
    assert_eq!(b.dropped_count(), 2);
    assert_eq!(b.total_buffered(), 5);
}

#[test]
fn push_below_capacity_keeps_everything_in_order() {
    let mut b = MetricBuffer::new(10);
    b.push("a".to_string());
    b.push("b".to_string());
    assert_eq!(b.len(), 2);
    assert_eq!(b.dropped_count(), 0);
    assert_eq!(b.total_buffered(), 2);
    assert_eq!(b.drain(), vec!["a".to_string(), "b".to_string()]);
}

#[test]
fn eviction_removes_the_oldest_frame() {
    let mut b = MetricBuffer::new(1);
    b.push("old".to_string());
    b.push("new".to_string());
    assert_eq!(b.dropped_count(), 1);
    assert_eq!(b.drain(), vec!["new".to_string()]);
}

#[test]
fn drain_of_empty_buffer_is_empty() {
    let mut b = MetricBuffer::new(4);
    assert_eq!(b.drain(), Vec::<String>::new());
    assert_eq!(b.len(), 0);
}

#[test]
fn accounting_holds_across_pushes_and_drains() {
    // total pushed == dropped + drained + still held, at every point.
    let mut b = MetricBuffer::new(2);
    b.push("1".to_string());
    b.push("2".to_string());
    b.push("3".to_string());
    let drained = b.drain();
    assert_eq!(drained.len(), 2);
    assert_eq!(
        b.total_buffered(),
        b.dropped_count() + drained.len() as u64 + b.len() as u64
    );
}
