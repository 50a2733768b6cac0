use ipfee::{BoundedQueue, IpFeeMsg, MAX_BUFFERED_IPFEE_MESSAGES};

fn numbered(n: u64) -> IpFeeMsg {
    IpFeeMsg::Fee { signature: [0u8; 64], cu_limit: n, cu_used: 0, fee: 0 }
}

#[test]
fn the_bound_is_ten_thousand() {
    assert_eq!(MAX_BUFFERED_IPFEE_MESSAGES, 10_000);
}

#[test]
fn new_queue_is_empty() {
    let mut q = BoundedQueue::new();
    assert_eq!(q.pending_count(), 0);
    assert_eq!(q.dequeue(), None);
    assert_eq!(q.purge(), 0);
}

#[test]
fn events_leave_in_arrival_order() {
    let mut q = BoundedQueue::new();
    assert!(q.enqueue(numbered(1)));
    assert!(q.enqueue(numbered(2)));
    assert!(q.enqueue(numbered(3)));
    assert_eq!(q.pending_count(), 3);
    assert_eq!(q.dequeue(), Some(numbered(1)));
    assert_eq!(q.dequeue(), Some(numbered(2)));
    assert_eq!(q.dequeue(), Some(numbered(3)));
    assert_eq!(q.dequeue(), None);
}

#[test]
fn full_queue_refuses_and_keeps_what_it_has() {
    let mut q = BoundedQueue::new();
    for n in 0..MAX_BUFFERED_IPFEE_MESSAGES as u64 {
        assert!(q.enqueue(numbered(n)));
    }
    assert!(!q.enqueue(numbered(99_999)));
    assert!(!q.enqueue(numbered(99_998)));
    assert_eq!(q.pending_count(), MAX_BUFFERED_IPFEE_MESSAGES);
    for n in 0..MAX_BUFFERED_IPFEE_MESSAGES as u64 {
        assert_eq!(q.dequeue(), Some(numbered(n)));
    }
    assert_eq!(q.dequeue(), None);
}

#[test]
fn room_returns_after_a_dequeue() {
    let mut q = BoundedQueue::new();
    for n in 0..MAX_BUFFERED_IPFEE_MESSAGES as u64 {
        assert!(q.enqueue(numbered(n)));
    }
    assert_eq!(q.dequeue(), Some(numbered(0)));
    assert!(q.enqueue(numbered(77)));
    assert!(!q.enqueue(numbered(78)));
    assert_eq!(q.pending_count(), MAX_BUFFERED_IPFEE_MESSAGES);
}

#[test]
fn purge_discards_everything_and_counts_it() {
    let mut q = BoundedQueue::new();
    for n in 0..5u64 {
        assert!(q.enqueue(numbered(n)));
    }
    assert_eq!(q.purge(), 5);
    assert_eq!(q.pending_count(), 0);
    assert!(q.enqueue(numbered(9)));
    assert_eq!(q.dequeue(), Some(numbered(9)));
}
