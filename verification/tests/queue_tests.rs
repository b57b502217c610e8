//! Tests of the dispatcher queue: capacity bound, backpressure, order,
//! and the closed-queue behavior.

use deepwell_rpc::api::Request;
use deepwell_rpc::envelope::Envelope;
use deepwell_rpc::queue::{DispatcherQueue, Polled, SubmitError, QUEUE_CAPACITY};

fn ping_envelope() -> Envelope {
    Envelope::new(Request::Ping)
}

#[test]
fn queue_accepts_exactly_its_capacity() {
    let mut queue = DispatcherQueue::new();
    for i in 0..QUEUE_CAPACITY {
        assert_eq!(queue.len(), i);
        assert!(queue.submit(ping_envelope()).is_ok());
    }
    assert_eq!(queue.len(), QUEUE_CAPACITY);
    // The sixty-fifth submission is refused with the envelope handed
    // back: the submitter suspends, the call is not lost.
    match queue.submit(ping_envelope()) {
        Err(SubmitError::Full(envelope)) => {
            assert!(matches!(envelope.request(), Request::Ping));
        }
        _ => panic!("expected the queue to be full"),
    }
    assert_eq!(queue.len(), QUEUE_CAPACITY);

    // Draining one entry frees exactly one slot.
    assert!(matches!(queue.poll(), Polled::Entry(_)));
    assert!(queue.submit(ping_envelope()).is_ok());
    match queue.submit(ping_envelope()) {
        Err(SubmitError::Full(_)) => {}
        _ => panic!("expected the queue to be full again"),
    }
}

#[test]
fn queue_delivers_in_arrival_order() {
    let mut queue = DispatcherQueue::new();
    for id in 0..5u64 {
        assert!(queue
            .submit(Envelope::new(Request::GetUserFromId { user_id: id }))
            .is_ok());
    }
    for id in 0..5u64 {
        match queue.poll() {
            Polled::Entry(envelope) => match envelope.request() {
                Request::GetUserFromId { user_id } => assert_eq!(*user_id, id),
                _ => panic!("unexpected request"),
            },
            _ => panic!("expected an entry"),
        }
    }
    assert!(matches!(queue.poll(), Polled::Empty));
}

#[test]
fn closed_queue_refuses_submissions_and_reports_disconnect() {
    let mut queue = DispatcherQueue::new();
    queue.close();
    match queue.submit(ping_envelope()) {
        Err(SubmitError::Closed(_)) => {}
        _ => panic!("expected the queue to be closed"),
    }
    assert!(matches!(queue.poll(), Polled::Disconnected));
}
