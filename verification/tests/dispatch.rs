use pullomatic::dispatch::DispatchQueue;

#[test]
fn handles_come_out_in_dispatch_order() {
    let mut q = DispatchQueue::new(3);
    assert!(q.try_send(7));
    assert!(q.try_send(8));
    assert!(q.try_send(9));
    assert_eq!(q.try_recv(), Some(7));
    assert_eq!(q.try_recv(), Some(8));
    assert_eq!(q.try_recv(), Some(9));
    assert_eq!(q.try_recv(), None);
}

#[test]
fn full_queue_refuses_without_dropping() {
    let mut q = DispatchQueue::new(2);
    assert!(q.try_send(1));
    assert!(q.try_send(2));
    assert!(q.is_full());
    // The producer is told to wait; nothing queued is lost or reordered.
    assert!(!q.try_send(3));
    assert_eq!(q.len(), 2);
    assert_eq!(q.try_recv(), Some(1));
    // Room again: the retried offer is accepted.
    assert!(q.try_send(3));
    assert_eq!(q.try_recv(), Some(2));
    assert_eq!(q.try_recv(), Some(3));
}

#[test]
fn redundant_enqueue_of_same_handle_is_tolerated() {
    let mut q = DispatchQueue::new(4);
    assert!(q.try_send(5));
    assert!(q.try_send(5));
    assert_eq!(q.try_recv(), Some(5));
    assert_eq!(q.try_recv(), Some(5));
}

#[test]
fn zero_capacity_queue_is_always_full() {
    let mut q = DispatchQueue::new(0);
    assert!(q.is_full());
    assert!(!q.try_send(1));
    assert_eq!(q.try_recv(), None);
}

#[test]
fn empty_queue_receives_nothing() {
    let mut q = DispatchQueue::new(1);
    assert_eq!(q.len(), 0);
    assert!(!q.is_full());
    assert_eq!(q.try_recv(), None);
    assert_eq!(q.len(), 0);
}
