//! Behavior of the buffer-pool bridge: reuse, backpressure, closure.

use tracing_statusbar::log_bridge::{init, init_with_capacity};
use tracing_statusbar::{SendOutcome, TryRecvError};

#[test]
fn send_then_recv_round_trips_payload() {
    let (mut tx, mut rx) = init();
    assert!(matches!(tx.write(&mut rx, b"hello"), SendOutcome::Sent));
    assert_eq!(rx.queue_len(), 1);
    let entry = rx.recv().expect("a payload was queued");
    assert_eq!(entry.bytes(), b"hello");
    entry.release(&mut rx);
    assert_eq!(rx.queue_len(), 0);
}

#[test]
fn buffer_reuse_allocates_at_most_one_buffer() {
    let (mut tx, mut rx) = init_with_capacity(4);

    // The first (cold) send has no reclaimed buffer to draw from.
    assert_eq!(rx.pool_len(), 0);
    assert!(matches!(tx.write(&mut rx, b"payload 0"), SendOutcome::Sent));
    assert_eq!(rx.pool_len(), 0);
    let entry = rx.recv().expect("a payload was queued");
    assert_eq!(entry.bytes(), b"payload 0");
    entry.release(&mut rx);
    assert_eq!(rx.pool_len(), 1);

    // Every later cycle takes that one buffer out of the free list and puts
    // it back: the bridge never holds more than one buffer in total.
    for i in 1..6u8 {
        let payload = vec![b'p', b'0' + i];
        assert!(matches!(tx.write(&mut rx, &payload), SendOutcome::Sent));
        assert_eq!(rx.pool_len(), 0, "the send reused the pooled buffer");
        assert_eq!(rx.queue_len(), 1);
        let entry = rx.recv().expect("a payload was queued");
        assert_eq!(entry.bytes(), &payload[..]);
        entry.release(&mut rx);
        assert_eq!(rx.pool_len(), 1, "the buffer went back to the free list");
        assert_eq!(rx.queue_len(), 0);
    }
}

#[test]
fn backpressure_bounds_the_queue() {
    let (mut tx, mut rx) = init_with_capacity(2);
    assert!(matches!(tx.write(&mut rx, b"one"), SendOutcome::Sent));
    assert!(matches!(tx.write(&mut rx, b"two"), SendOutcome::Sent));
    // The queue is at capacity: nothing is enqueued and nothing grows; a
    // concurrent deployment blocks the producer at this point.
    assert!(matches!(tx.write(&mut rx, b"three"), SendOutcome::Full));
    assert_eq!(rx.queue_len(), 2);
    assert!(matches!(tx.write(&mut rx, b"three"), SendOutcome::Full));
    assert_eq!(rx.queue_len(), 2);
}

#[test]
fn close_then_send_falls_back_without_error() {
    let (mut tx, mut rx) = init();
    tx.close(&mut rx);
    let out = tx.write(&mut rx, b"hello");
    assert!(matches!(out, SendOutcome::Fallback));
    assert_eq!(rx.queue_len(), 0);
    assert_eq!(tx.fallback_output().as_slice(), b"hello");
}

#[test]
fn close_is_idempotent() {
    let (mut tx, mut rx) = init();
    tx.close(&mut rx);
    tx.close(&mut rx);
    assert!(matches!(tx.write(&mut rx, b"a"), SendOutcome::Fallback));
    assert!(matches!(tx.write(&mut rx, b"b"), SendOutcome::Fallback));
    assert_eq!(tx.fallback_output().as_slice(), b"ab");
}

#[test]
fn pending_payloads_survive_closure() {
    let (mut tx, mut rx) = init();
    assert!(matches!(tx.write(&mut rx, b"before"), SendOutcome::Sent));
    tx.close(&mut rx);
    let entry = rx.recv().expect("the payload sent before closing is still deliverable");
    assert_eq!(entry.bytes(), b"before");
    entry.release(&mut rx);
    assert!(rx.recv().is_none(), "a drained, closed channel reports closure");
}

#[test]
fn try_recv_reports_empty_on_an_open_channel() {
    let (_tx, mut rx) = init();
    assert!(matches!(rx.try_recv(), Err(TryRecvError::Empty)));
}

#[test]
fn try_recv_reports_closed_after_drain() {
    let (mut tx, mut rx) = init();
    assert!(matches!(tx.write(&mut rx, b"x"), SendOutcome::Sent));
    tx.close(&mut rx);
    let entry = rx.try_recv().ok().expect("the queued payload comes first");
    assert_eq!(entry.bytes(), b"x");
    entry.release(&mut rx);
    assert!(matches!(rx.try_recv(), Err(TryRecvError::Closed)));
    assert!(matches!(rx.try_recv(), Err(TryRecvError::Closed)));
}

#[test]
fn pool_is_bounded() {
    let (mut tx, mut rx) = init_with_capacity(2);
    // Two cold sends allocate two buffers; hold both entries in flight.
    assert!(matches!(tx.write(&mut rx, b"a"), SendOutcome::Sent));
    assert!(matches!(tx.write(&mut rx, b"b"), SendOutcome::Sent));
    let ea = rx.recv().expect("queued");
    let eb = rx.recv().expect("queued");
    // With the free list empty again, two more cold sends allocate two more.
    assert!(matches!(tx.write(&mut rx, b"c"), SendOutcome::Sent));
    assert!(matches!(tx.write(&mut rx, b"d"), SendOutcome::Sent));
    // Returning the first two fills the free list to its bound.
    ea.release(&mut rx);
    eb.release(&mut rx);
    assert_eq!(rx.pool_len(), 2);
    // A release against a full free list drops the buffer instead of growing.
    let ec = rx.recv().expect("queued");
    ec.release(&mut rx);
    assert_eq!(rx.pool_len(), 2);
}
