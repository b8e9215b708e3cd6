//! Tests for the event-intake batching state machine.

use lnpay::intake::{EventIntake, IntakeStep, PollResult};
use lnpay::processor::PaymentEvent;

fn event(n: u64) -> PaymentEvent {
    PaymentEvent::RequestCreated { payment_id: format!("evt-{}", n), invoice: None }
}

#[test]
fn fifteen_events_make_batches_of_ten_and_five() {
    let mut intake = EventIntake::new(10);
    let mut batches: Vec<Vec<PaymentEvent>> = Vec::new();

    // Fifteen events arrive in immediate succession, then the channel
    // runs empty.
    for n in 0..15 {
        match intake.on_poll(PollResult::Event(event(n))) {
            IntakeStep::Continue => {}
            IntakeStep::Dispatch(b) => batches.push(b),
            IntakeStep::Shutdown => panic!("channel is still open"),
        }
    }
    match intake.on_poll(PollResult::Empty) {
        IntakeStep::Dispatch(b) => batches.push(b),
        _ => panic!("the remainder should be dispatched"),
    }

    assert_eq!(batches.len(), 2);
    assert_eq!(batches[0].len(), 10);
    assert_eq!(batches[1].len(), 5);

    // The batches partition the events in arrival order.
    for (n, e) in batches.iter().flatten().enumerate() {
        match e {
            PaymentEvent::RequestCreated { payment_id, .. } => {
                assert_eq!(payment_id, &format!("evt-{}", n));
            }
            _ => panic!("unexpected event shape"),
        }
    }
}

#[test]
fn empty_poll_with_nothing_collected_keeps_waiting() {
    let mut intake = EventIntake::new(10);
    assert!(matches!(intake.on_poll(PollResult::Empty), IntakeStep::Continue));
    assert!(matches!(intake.on_poll(PollResult::Empty), IntakeStep::Continue));
}

#[test]
fn partial_batch_is_dispatched_when_the_channel_runs_empty() {
    let mut intake = EventIntake::new(10);
    for n in 0..3 {
        assert!(matches!(intake.on_poll(PollResult::Event(event(n))), IntakeStep::Continue));
    }
    match intake.on_poll(PollResult::Empty) {
        IntakeStep::Dispatch(b) => assert_eq!(b.len(), 3),
        _ => panic!("a non-empty batch should be dispatched"),
    }
}

#[test]
fn disconnect_is_terminal() {
    let mut intake = EventIntake::new(10);
    intake.on_poll(PollResult::Event(event(0)));
    assert!(matches!(intake.on_poll(PollResult::Disconnected), IntakeStep::Shutdown));
}

#[test]
fn ceiling_one_dispatches_every_event() {
    let mut intake = EventIntake::new(1);
    for n in 0..4 {
        match intake.on_poll(PollResult::Event(event(n))) {
            IntakeStep::Dispatch(b) => assert_eq!(b.len(), 1),
            _ => panic!("each event fills a ceiling-one batch"),
        }
    }
}
