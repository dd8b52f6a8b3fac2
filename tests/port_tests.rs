use gbsd_kernel::port::{Port, PORT_CAPACITY};

fn message(tag: u64) -> [u64; 8] {
    [tag, tag + 1, tag + 2, tag + 3, tag + 4, tag + 5, tag + 6, tag + 7]
}

#[test]
fn messages_come_out_in_the_order_they_went_in() {
    let mut port = Port::new(7, 2);
    for k in 0..64u64 {
        assert!(port.push_message(&message(k * 10)));
    }
    for k in 0..64u64 {
        assert_eq!(port.pop_message(), Some(message(k * 10)));
    }
    assert_eq!(port.pop_message(), None);
}

#[test]
fn fifo_order_holds_across_the_ring_boundary() {
    let mut port = Port::new(1, 1);
    for k in 0..50u64 {
        assert!(port.push_message(&message(k)));
    }
    for k in 0..50u64 {
        assert_eq!(port.pop_message(), Some(message(k)));
    }
    for k in 100..130u64 {
        assert!(port.push_message(&message(k)));
    }
    assert_eq!(port.queue_head, 50);
    assert_eq!(port.queue_tail, 16);
    for k in 100..130u64 {
        assert_eq!(port.pop_message(), Some(message(k)));
    }
    assert!(port.is_empty());
}

#[test]
fn full_empty_cycle_returns_ring_to_its_start() {
    let mut port = Port::new(3, 2);
    for k in 0..5u64 {
        assert!(port.push_message(&message(k)));
        assert!(port.pop_message().is_some());
    }
    let head = port.queue_head;
    for k in 0..64u64 {
        assert!(port.push_message(&message(k)));
    }
    assert!(port.is_full());
    assert_eq!(port.queue_size, 64);
    assert_eq!(port.queue_head, port.queue_tail);
    for _ in 0..64 {
        assert!(port.pop_message().is_some());
    }
    assert_eq!(port.queue_size, 0);
    assert_eq!(port.queue_head, port.queue_tail);
    assert_eq!(port.queue_head, head);
    assert!(port.is_empty());
    assert!(!port.is_full());
}

#[test]
fn pop_on_empty_port_changes_nothing() {
    let mut port = Port::new(1, 1);
    assert_eq!(port.pop_message(), None);
    assert_eq!(port.queue_head, 0);
    assert_eq!(port.queue_tail, 0);
    assert_eq!(port.queue_size, 0);
}

#[test]
fn push_on_full_port_keeps_contents() {
    let mut port = Port::new(1, 1);
    for k in 0..64u64 {
        assert!(port.push_message(&message(k)));
    }
    assert!(!port.push_message(&message(999)));
    assert_eq!(port.queue_size, 64);
    assert_eq!(port.max_queue_size, PORT_CAPACITY);
    assert_eq!(port.pop_message(), Some(message(0)));
}
