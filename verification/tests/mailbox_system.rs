use actor_mailbox::errors::{ResourceError, SubmissionError};
use actor_mailbox::mailbox::{DequeueOutcome, EnqueueStatus, Mailbox, Request};
use actor_mailbox::owner::{
    on_write_result, owner_step, run_owner, FailurePolicy, OwnerEvent, OwnerState, ReplyAction,
    WriteDecision,
};
use actor_mailbox::reply::{abandon, fulfill, try_take, FulfillOutcome, ReplySlot};

fn request(slot: usize, payload: &[u8]) -> Request {
    Request { slot, payload: payload.to_vec() }
}

/// The resource of the echo scenario: it answers any write with the
/// payload's length as the 4-byte fixed value.
fn echo_outcomes(payloads: &[&[u8]]) -> Vec<Result<u32, ResourceError>> {
    payloads.iter().map(|p| Ok(p.len() as u32)).collect()
}

#[test]
fn fifo_three_sequential_requests() {
    let mut mb = Mailbox::new(8);
    assert_eq!(mb.try_enqueue(request(0, b"one")), EnqueueStatus::Accepted);
    assert_eq!(mb.try_enqueue(request(1, b"two")), EnqueueStatus::Accepted);
    assert_eq!(mb.try_enqueue(request(2, b"three")), EnqueueStatus::Accepted);
    mb.close_senders();
    let mut slots = vec![ReplySlot::Pending, ReplySlot::Pending, ReplySlot::Pending];
    let outcomes = vec![Ok(1), Ok(2), Ok(3)];
    let serviced = run_owner(&mut mb, &mut slots, &outcomes, FailurePolicy::IsolatedFailures);
    // Responses are produced in exactly the order the requests were queued.
    assert_eq!(serviced, vec![0, 1, 2]);
    assert_eq!(try_take(&slots[0]), Some(Ok(1)));
    assert_eq!(try_take(&slots[1]), Some(Ok(2)));
    assert_eq!(try_take(&slots[2]), Some(Ok(3)));
}

#[test]
fn isolated_failure_does_not_affect_next_request() {
    let mut mb = Mailbox::new(8);
    assert_eq!(mb.try_enqueue(request(0, b"bad")), EnqueueStatus::Accepted);
    assert_eq!(mb.try_enqueue(request(1, b"good")), EnqueueStatus::Accepted);
    mb.close_senders();
    let mut slots = vec![ReplySlot::Pending, ReplySlot::Pending];
    let outcomes = vec![Err(ResourceError { code: 7 }), Ok(4)];
    let serviced = run_owner(&mut mb, &mut slots, &outcomes, FailurePolicy::IsolatedFailures);
    assert_eq!(serviced, vec![0, 1]);
    // The failing request's caller gets its own error...
    assert_eq!(
        try_take(&slots[0]),
        Some(Err(SubmissionError::Resource(ResourceError { code: 7 })))
    );
    // ...and the next request still succeeds.
    assert_eq!(try_take(&slots[1]), Some(Ok(4)));
}

#[test]
fn fatal_failure_terminates_owner_and_drops_the_rest() {
    let mut mb = Mailbox::new(8);
    assert_eq!(mb.try_enqueue(request(0, b"ok")), EnqueueStatus::Accepted);
    assert_eq!(mb.try_enqueue(request(1, b"bad")), EnqueueStatus::Accepted);
    assert_eq!(mb.try_enqueue(request(2, b"late")), EnqueueStatus::Accepted);
    mb.close_senders();
    let mut slots = vec![ReplySlot::Pending, ReplySlot::Pending, ReplySlot::Pending];
    let outcomes = vec![Ok(2), Err(ResourceError { code: 9 }), Ok(4)];
    let serviced = run_owner(&mut mb, &mut slots, &outcomes, FailurePolicy::FatalOnError);
    // Only the error-free prefix was answered.
    assert_eq!(serviced, vec![0]);
    assert_eq!(try_take(&slots[0]), Some(Ok(2)));
    // The failing request and everything queued behind it observe the
    // mailbox as gone — but nobody is left waiting forever.
    assert_eq!(try_take(&slots[1]), Some(Err(SubmissionError::Closed)));
    assert_eq!(try_take(&slots[2]), Some(Err(SubmissionError::Closed)));
    // The mailbox now refuses new work.
    assert_eq!(mb.try_enqueue(request(3, b"more")), EnqueueStatus::Closed);
}

#[test]
fn no_pending_caller_after_owner_returns() {
    let mut mb = Mailbox::new(8);
    for slot in 0..4 {
        assert_eq!(mb.try_enqueue(request(slot, b"x")), EnqueueStatus::Accepted);
    }
    mb.close_senders();
    let mut slots = vec![ReplySlot::Pending; 4];
    let outcomes = vec![Ok(1), Err(ResourceError { code: 1 }), Ok(1), Ok(1)];
    run_owner(&mut mb, &mut slots, &outcomes, FailurePolicy::FatalOnError);
    // Every pending caller observes a definite outcome.
    for slot in &slots {
        assert!(try_take(slot).is_some());
    }
}

#[test]
fn abandoned_slot_is_a_silent_no_op_for_the_owner() {
    // Directly: delivering into an abandoned slot is discarded quietly.
    let mut slot = ReplySlot::Pending;
    abandon(&mut slot);
    let out = fulfill(&mut slot, Ok(42));
    assert_eq!(out, FulfillOutcome::AbandonedReply);
    assert!(matches!(slot, ReplySlot::Abandoned));

    // Through the run loop: an abandoned caller does not fail or block
    // the owner, and its neighbours are served normally.
    let mut mb = Mailbox::new(8);
    assert_eq!(mb.try_enqueue(request(0, b"gone")), EnqueueStatus::Accepted);
    assert_eq!(mb.try_enqueue(request(1, b"here")), EnqueueStatus::Accepted);
    mb.close_senders();
    let mut slots = vec![ReplySlot::Pending, ReplySlot::Pending];
    abandon(&mut slots[0]);
    let outcomes = vec![Ok(7), Ok(8)];
    let serviced = run_owner(&mut mb, &mut slots, &outcomes, FailurePolicy::IsolatedFailures);
    assert_eq!(serviced, vec![0, 1]);
    assert!(matches!(slots[0], ReplySlot::Abandoned));
    assert_eq!(try_take(&slots[1]), Some(Ok(8)));
}

#[test]
fn backpressure_at_capacity() {
    let mut mb = Mailbox::new(2);
    assert_eq!(mb.try_enqueue(request(0, b"a")), EnqueueStatus::Accepted);
    assert_eq!(mb.try_enqueue(request(1, b"b")), EnqueueStatus::Accepted);
    // The (C+1)-th concurrent enqueue finds the queue full: this is where
    // a concurrent producer suspends.
    assert_eq!(mb.try_enqueue(request(2, b"c")), EnqueueStatus::Full);
    assert_eq!(mb.len(), 2);
    // As soon as one request is dequeued, the late enqueue goes through.
    assert!(matches!(mb.try_dequeue(), DequeueOutcome::Received(_)));
    assert_eq!(mb.try_enqueue(request(2, b"c")), EnqueueStatus::Accepted);
    assert_eq!(mb.len(), 2);
}

#[test]
fn dequeue_distinguishes_waiting_from_end_of_stream() {
    let mut mb = Mailbox::new(4);
    // Empty but producers remain: the consumer would suspend.
    assert!(matches!(mb.try_dequeue(), DequeueOutcome::WouldWait));
    // Empty and every handle dropped: graceful termination.
    mb.close_senders();
    assert!(matches!(mb.try_dequeue(), DequeueOutcome::EndOfStream));
}

#[test]
fn dequeue_order_matches_enqueue_order() {
    let mut mb = Mailbox::new(4);
    assert_eq!(mb.try_enqueue(request(5, b"first")), EnqueueStatus::Accepted);
    assert_eq!(mb.try_enqueue(request(9, b"second")), EnqueueStatus::Accepted);
    match mb.try_dequeue() {
        DequeueOutcome::Received(r) => {
            assert_eq!(r.slot, 5);
            assert_eq!(r.payload, b"first".to_vec());
        }
        _ => panic!("expected a request"),
    }
    match mb.try_dequeue() {
        DequeueOutcome::Received(r) => {
            assert_eq!(r.slot, 9);
            assert_eq!(r.payload, b"second".to_vec());
        }
        _ => panic!("expected a request"),
    }
}

#[test]
fn close_receiver_drains_in_order_and_closes() {
    let mut mb = Mailbox::new(4);
    assert_eq!(mb.try_enqueue(request(0, b"a")), EnqueueStatus::Accepted);
    assert_eq!(mb.try_enqueue(request(1, b"b")), EnqueueStatus::Accepted);
    let drained = mb.close_receiver();
    assert_eq!(drained.len(), 2);
    assert_eq!(drained[0].slot, 0);
    assert_eq!(drained[1].slot, 1);
    assert_eq!(mb.len(), 0);
    assert_eq!(mb.try_enqueue(request(2, b"c")), EnqueueStatus::Closed);
}

#[test]
fn owner_step_transitions() {
    // End-of-stream terminates a running owner.
    let step = owner_step(
        OwnerState::Running,
        FailurePolicy::IsolatedFailures,
        OwnerEvent::EndOfStream,
    );
    assert_eq!(step.next, OwnerState::Terminated);
    assert!(matches!(step.action, ReplyAction::NoRequest));

    // A successful execution delivers and keeps running.
    let step = owner_step(
        OwnerState::Running,
        FailurePolicy::FatalOnError,
        OwnerEvent::Executed(Ok(3)),
    );
    assert_eq!(step.next, OwnerState::Running);
    assert!(matches!(step.action, ReplyAction::Deliver(Ok(3))));

    // An error under the fatal policy terminates without delivering.
    let step = owner_step(
        OwnerState::Running,
        FailurePolicy::FatalOnError,
        OwnerEvent::Executed(Err(ResourceError { code: 2 })),
    );
    assert_eq!(step.next, OwnerState::Terminated);
    assert!(matches!(step.action, ReplyAction::DropSlot));

    // An error under the isolated policy is delivered to its caller.
    let step = owner_step(
        OwnerState::Running,
        FailurePolicy::IsolatedFailures,
        OwnerEvent::Executed(Err(ResourceError { code: 2 })),
    );
    assert_eq!(step.next, OwnerState::Running);
    assert!(matches!(
        step.action,
        ReplyAction::Deliver(Err(ResourceError { code: 2 }))
    ));

    // Termination is absorbing.
    let step = owner_step(
        OwnerState::Terminated,
        FailurePolicy::IsolatedFailures,
        OwnerEvent::Executed(Ok(1)),
    );
    assert_eq!(step.next, OwnerState::Terminated);
    assert!(matches!(step.action, ReplyAction::NoRequest));
}

#[test]
fn write_result_decision() {
    assert!(matches!(on_write_result(Ok(())), WriteDecision::ProceedToRead));
    assert!(matches!(
        on_write_result(Err(ResourceError { code: 11 })),
        WriteDecision::Abort(ResourceError { code: 11 })
    ));
}

#[test]
fn scenario_echo_length_header() {
    // A resource that echoes a 4-byte length header back for any write:
    // submitting "hello" yields the fixed value 5.
    let mut mb = Mailbox::new(8);
    assert_eq!(mb.try_enqueue(request(0, b"hello")), EnqueueStatus::Accepted);
    mb.close_senders();
    let mut slots = vec![ReplySlot::Pending];
    let outcomes = echo_outcomes(&[b"hello"]);
    run_owner(&mut mb, &mut slots, &outcomes, FailurePolicy::IsolatedFailures);
    assert_eq!(try_take(&slots[0]), Some(Ok(5)));

    // Two payloads submitted concurrently through two cloned handles:
    // two independent replies, each matching its own payload's length,
    // with no cross-delivery.
    let mut mb = Mailbox::new(8);
    assert_eq!(mb.try_enqueue(request(0, b"ab")), EnqueueStatus::Accepted);
    assert_eq!(mb.try_enqueue(request(1, b"cde")), EnqueueStatus::Accepted);
    mb.close_senders();
    let mut slots = vec![ReplySlot::Pending, ReplySlot::Pending];
    let outcomes = echo_outcomes(&[b"ab", b"cde"]);
    run_owner(&mut mb, &mut slots, &outcomes, FailurePolicy::IsolatedFailures);
    assert_eq!(try_take(&slots[0]), Some(Ok(2)));
    assert_eq!(try_take(&slots[1]), Some(Ok(3)));
}
