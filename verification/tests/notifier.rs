use std::time::Duration;
use steam_bridge::notifier::{
    channel, classify, classify_unbounded, Delivery, Listener, WaitKind, WaitOutcome,
};
use tokio::runtime::{Builder, Runtime};
use tokio::sync::oneshot::error::RecvError;
use tokio::sync::oneshot::Receiver;
use tokio::time::error::Elapsed;

fn runtime() -> Runtime {
    Builder::new_current_thread().enable_time().build().unwrap()
}

fn wait<T>(receiver: Receiver<T>, millis: u64) -> Result<Result<T, RecvError>, Elapsed> {
    runtime().block_on(async { tokio::time::timeout(Duration::from_millis(millis), receiver).await })
}

#[test]
fn fresh_producer_is_armed() {
    let (producer, _receiver) = channel::<u8>();
    assert!(producer.is_armed());
}

#[test]
fn sent_value_reaches_the_receiver() {
    let (mut producer, receiver) = channel::<String>();
    let delivery = producer.send(String::from("answer"));
    assert!(delivery.is_sent());
    assert!(delivery.was_attempted());
    assert!(!producer.is_armed());
    assert_eq!(receiver.blocking_recv(), Ok(String::from("answer")));
}

#[test]
fn second_send_is_a_duplicate_and_does_not_replace_the_first() {
    let (mut producer, receiver) = channel::<u32>();
    assert!(matches!(producer.send(1), Delivery::Sent));
    let second = producer.send(2);
    assert!(matches!(second, Delivery::Duplicate));
    assert!(!second.was_attempted());
    assert!(matches!(producer.send(3), Delivery::Duplicate));
    assert_eq!(receiver.blocking_recv(), Ok(1));
}

#[test]
fn send_after_the_receiver_went_away_returns_the_value() {
    let (mut producer, receiver) = channel::<u32>();
    drop(receiver);
    let delivery = producer.send(11);
    assert!(matches!(delivery, Delivery::ReceiverGone(11)));
    assert!(delivery.was_attempted());
    assert!(!delivery.is_sent());
    assert!(!producer.is_armed());
    assert!(matches!(producer.send(12), Delivery::Duplicate));
}

#[test]
fn listener_passes_on_the_first_matching_notification_only() {
    let (producer, receiver) = channel::<&'static str>();
    let mut listener = Listener::new(42, producer);
    assert_eq!(listener.correlation_key(), 42);
    assert!(listener.is_armed());
    assert!(matches!(listener.on_notification(41, "other"), Delivery::Unrelated));
    assert!(listener.is_armed());
    assert!(matches!(listener.on_notification(42, "first"), Delivery::Sent));
    assert!(!listener.is_armed());
    assert!(matches!(listener.on_notification(42, "second"), Delivery::Duplicate));
    assert!(matches!(listener.on_notification(42, "third"), Delivery::Duplicate));
    assert!(matches!(listener.on_notification(7, "other"), Delivery::Unrelated));
    assert_eq!(receiver.blocking_recv(), Ok("first"));
}

#[test]
fn listener_offers_at_most_once_over_many_notifications() {
    let (producer, receiver) = channel::<u64>();
    let mut listener = Listener::new(3, producer);
    let subjects: [u64; 8] = [1, 3, 3, 2, 3, 9, 3, 3];
    let mut offered = 0;
    let mut accepted = 0;
    for (n, subject) in subjects.iter().enumerate() {
        let delivery = listener.on_notification(*subject, n as u64);
        if delivery.was_attempted() {
            offered += 1;
        }
        if delivery.is_sent() {
            accepted += 1;
        }
    }
    assert_eq!(offered, 1);
    assert_eq!(accepted, 1);
    assert_eq!(receiver.blocking_recv(), Ok(1));
}

#[test]
fn listener_for_another_key_never_offers() {
    let (producer, receiver) = channel::<u64>();
    let mut listener = Listener::new(100, producer);
    for subject in 0..50u64 {
        assert!(matches!(listener.on_notification(subject, subject), Delivery::Unrelated));
    }
    assert!(listener.is_armed());
    drop(listener);
    assert!(receiver.blocking_recv().is_err());
}

#[test]
fn delivered_wait_is_classified_with_its_value() {
    let (mut producer, receiver) = channel::<u32>();
    producer.send(5);
    let outcome = classify(wait(receiver, 1000));
    assert_eq!(outcome.kind(), WaitKind::Delivered);
    assert_eq!(outcome.into_value(), Some(5));
}

#[test]
fn timed_out_wait_is_classified_as_timeout() {
    let (producer, receiver) = channel::<u32>();
    let outcome = classify(wait(receiver, 5));
    assert_eq!(outcome.kind(), WaitKind::TimedOut);
    assert_eq!(outcome.into_value(), None);
    drop(producer);
}

#[test]
fn wait_on_a_dropped_producer_is_classified_as_such() {
    let (producer, receiver) = channel::<u32>();
    drop(producer);
    let outcome = classify(wait(receiver, 1000));
    assert_eq!(outcome.kind(), WaitKind::ProducerDropped);
    assert_eq!(outcome.into_value(), None);
}

#[test]
fn notification_after_the_deadline_is_ignored_not_fatal() {
    let (producer, receiver) = channel::<u32>();
    let mut listener = Listener::new(7, producer);
    let outcome = classify(wait(receiver, 5));
    assert!(matches!(outcome, WaitOutcome::TimedOut));
    assert!(matches!(listener.on_notification(7, 42), Delivery::ReceiverGone(42)));
    assert!(matches!(listener.on_notification(7, 43), Delivery::Duplicate));
}

#[test]
fn unbounded_wait_is_classified() {
    let (mut producer, receiver) = channel::<u32>();
    producer.send(8);
    let delivered = classify_unbounded(receiver.blocking_recv());
    assert_eq!(delivered.kind(), WaitKind::Delivered);
    assert_eq!(delivered.into_value(), Some(8));
    let (producer, receiver) = channel::<u32>();
    drop(producer);
    assert_eq!(classify_unbounded(receiver.blocking_recv()).kind(), WaitKind::ProducerDropped);
}
