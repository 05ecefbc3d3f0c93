//! The one-value handoff between the thread that the native layer calls
//! listeners on and the caller that waits for the answer.
//!
//! The channel itself is tokio's `oneshot`. This module adds what the bridge
//! needs around it: a producer half that can be asked to send any number of
//! times and sends at most once, a listener that filters notifications by the
//! key a request waits for, and the reading of what a bounded wait returned.

use tokio::sync::oneshot::error::RecvError;
use tokio::sync::oneshot::{Receiver, Sender};
use tokio::time::error::Elapsed;
use vstd::prelude::*;

verus! {

/// tokio's sending half of a one-value channel.
#[verifier::external_type_specification]
#[verifier::external_body]
#[verifier::reject_recursive_types(T)]
pub struct ExSender<T>(Sender<T>);

/// tokio's receiving half of a one-value channel.
#[verifier::external_type_specification]
#[verifier::external_body]
#[verifier::reject_recursive_types(T)]
pub struct ExReceiver<T>(Receiver<T>);

/// tokio's error for a receiver whose sender went away without sending.
#[verifier::external_type_specification]
#[verifier::external_body]
pub struct ExRecvError(RecvError);

/// tokio's error for a wait that reached its deadline.
#[verifier::external_type_specification]
#[verifier::external_body]
pub struct ExElapsed(Elapsed);

/// `tokio::sync::oneshot::channel`: a fresh pair of halves. Nothing is stated
/// of them.
#[verifier::external_body]
fn oneshot_channel<T>() -> (Sender<T>, Receiver<T>) {
    tokio::sync::oneshot::channel()
}

/// `tokio::sync::oneshot::Sender::send`. Whether the value is accepted depends
/// on whether the receiver is still there, which this side cannot know; what
/// is claimed is only that a refused value comes back as it was given.
#[verifier::external_body]
fn oneshot_send<T>(sender: Sender<T>, value: T) -> (sent: Result<(), T>)
    ensures
        sent matches Err(back) ==> back == value,
{
    sender.send(value)
}

/// What became of a value offered to a producer or a listener.
pub enum Delivery<T> {
    /// The channel accepted the value.
    Sent,
    /// The consumer had gone (it timed out, or was dropped); the value comes
    /// back and nobody will receive it.
    ReceiverGone(T),
    /// A value had been offered before; this one was not offered.
    Duplicate,
    /// The notification was about another subject; nothing was offered.
    Unrelated,
}

impl<T> Delivery<T> {
    /// Whether the value was offered to the channel.
    pub open spec fn attempted(self) -> bool {
        self is Sent || self is ReceiverGone
    }

    /// Whether the channel accepted the value.
    pub fn is_sent(&self) -> (sent: bool)
        ensures
            sent == (self is Sent),
    {
        match self {
            Delivery::Sent => true,
            _ => false,
        }
    }

    /// Whether the value was offered to the channel, accepted or not.
    pub fn was_attempted(&self) -> (attempted: bool)
        ensures
            attempted == self.attempted(),
    {
        match self {
            Delivery::Sent => true,
            Delivery::ReceiverGone(_) => true,
            _ => false,
        }
    }
}

/// The sending side of a notifier. It is armed until the first `send`.
#[verifier::reject_recursive_types(T)]
pub struct Producer<T> {
    sender: Option<Sender<T>>,
}

impl<T> Producer<T> {
    /// Whether no value has been offered yet.
    pub closed spec fn armed(&self) -> bool {
        self.sender is Some
    }

    /// Whether no value has been offered yet.
    pub fn is_armed(&self) -> (armed: bool)
        ensures
            armed == self.armed(),
    {
        self.sender.is_some()
    }

    /// Offers `value` to the channel if nothing was offered before, and
    /// disarms the producer either way.
    pub fn send(&mut self, value: T) -> (delivery: Delivery<T>)
        ensures
            !final(self).armed(),
            !old(self).armed() ==> delivery is Duplicate,
            old(self).armed() ==> delivery is Sent || delivery == Delivery::ReceiverGone(value),
    {
        match self.sender.take() {
            Some(sender) => match oneshot_send(sender, value) {
                Ok(()) => Delivery::Sent,
                Err(back) => Delivery::ReceiverGone(back),
            },
            None => Delivery::Duplicate,
        }
    }
}

/// A fresh notifier: an armed producer and the receiver to wait on.
pub fn channel<T>() -> (halves: (Producer<T>, Receiver<T>))
    ensures
        halves.0.armed(),
{
    let (sender, receiver) = oneshot_channel();
    (Producer { sender: Some(sender) }, receiver)
}

/// Whether a notification about `subject`, arriving at a listener for `key`
/// in the given state, is offered to the channel.
pub open spec fn offers(armed: bool, key: u64, subject: u64) -> bool {
    armed && subject == key
}

/// Whether the listener is armed after that notification.
pub open spec fn armed_after(armed: bool, key: u64, subject: u64) -> bool {
    armed && subject != key
}

/// How many of the notifications `subjects`, arriving in this order, are
/// offered to the channel.
pub open spec fn offers_made(armed: bool, key: u64, subjects: Seq<u64>) -> nat
    decreases subjects.len(),
{
    if subjects.len() == 0 {
        0
    } else {
        let first: nat = if offers(armed, key, subjects[0]) {
            1
        } else {
            0
        };
        first + offers_made(armed_after(armed, key, subjects[0]), key, subjects.drop_first())
    }
}

/// The handler of one pending request: it watches notifications for the
/// request's key and passes the first matching one on.
#[verifier::reject_recursive_types(T)]
pub struct Listener<T> {
    key: u64,
    producer: Producer<T>,
}

impl<T> Listener<T> {
    /// The key this listener waits for.
    pub closed spec fn key(&self) -> u64 {
        self.key
    }

    /// Whether the listener has not passed a notification on yet.
    pub closed spec fn armed(&self) -> bool {
        self.producer.armed()
    }

    /// A listener for `key` that sends through `producer`.
    pub fn new(key: u64, producer: Producer<T>) -> (listener: Self)
        ensures
            listener.key() == key,
            listener.armed() == producer.armed(),
    {
        Listener { key, producer }
    }

    /// The key this listener waits for.
    pub fn correlation_key(&self) -> (key: u64)
        ensures
            key == self.key(),
    {
        self.key
    }

    /// Whether the listener has not passed a notification on yet.
    pub fn is_armed(&self) -> (armed: bool)
        ensures
            armed == self.armed(),
    {
        self.producer.is_armed()
    }

    /// Handles one native notification about `subject`. The first one whose
    /// subject is the key is offered to the channel; one about another subject
    /// and any later match are left alone.
    pub fn on_notification(&mut self, subject: u64, payload: T) -> (delivery: Delivery<T>)
        ensures
            final(self).key() == old(self).key(),
            final(self).armed() == armed_after(old(self).armed(), old(self).key(), subject),
            delivery.attempted() == offers(old(self).armed(), old(self).key(), subject),
            subject != old(self).key() ==> delivery is Unrelated,
            subject == old(self).key() && !old(self).armed() ==> delivery is Duplicate,
            delivery matches Delivery::ReceiverGone(back) ==> back == payload,
    {
        if subject == self.key {
            self.producer.send(payload)
        } else {
            Delivery::Unrelated
        }
    }
}

/// How a bounded wait on a notifier ended.
pub enum WaitOutcome<T> {
    /// The value arrived before the deadline.
    Delivered(T),
    /// The deadline passed first.
    TimedOut,
    /// The producer went away without sending.
    ProducerDropped,
}

/// `WaitOutcome` without the value.
#[derive(Clone, Copy, Debug, PartialEq, Eq, Structural)]
pub enum WaitKind {
    Delivered,
    TimedOut,
    ProducerDropped,
}

impl<T> WaitOutcome<T> {
    /// The outcome without the value it may carry.
    pub open spec fn spec_kind(self) -> WaitKind {
        match self {
            WaitOutcome::Delivered(_) => WaitKind::Delivered,
            WaitOutcome::TimedOut => WaitKind::TimedOut,
            WaitOutcome::ProducerDropped => WaitKind::ProducerDropped,
        }
    }

    /// The outcome without the value it may carry.
    pub fn kind(&self) -> (kind: WaitKind)
        ensures
            kind == self.spec_kind(),
    {
        match self {
            WaitOutcome::Delivered(_) => WaitKind::Delivered,
            WaitOutcome::TimedOut => WaitKind::TimedOut,
            WaitOutcome::ProducerDropped => WaitKind::ProducerDropped,
        }
    }

    /// The value, where one arrived.
    pub fn into_value(self) -> (value: Option<T>)
        ensures
            value == match self {
                WaitOutcome::Delivered(v) => Some(v),
                _ => None::<T>,
            },
    {
        match self {
            WaitOutcome::Delivered(v) => Some(v),
            _ => None,
        }
    }
}

/// What a wait with a deadline returned, read as an outcome. The deadline
/// takes precedence: a wait that timed out is `TimedOut` whatever the channel
/// holds by now.
pub open spec fn outcome_of<T>(waited: Result<Result<T, RecvError>, Elapsed>) -> WaitOutcome<T> {
    match waited {
        Err(_) => WaitOutcome::TimedOut,
        Ok(Err(_)) => WaitOutcome::ProducerDropped,
        Ok(Ok(value)) => WaitOutcome::Delivered(value),
    }
}

/// Reads the result of `tokio::time::timeout` around a receiver.
pub fn classify<T>(waited: Result<Result<T, RecvError>, Elapsed>) -> (outcome: WaitOutcome<T>)
    ensures
        outcome == outcome_of(waited),
{
    match waited {
        Err(_) => WaitOutcome::TimedOut,
        Ok(Err(_)) => WaitOutcome::ProducerDropped,
        Ok(Ok(value)) => WaitOutcome::Delivered(value),
    }
}

/// What a wait without a deadline returned, read as an outcome.
pub fn classify_unbounded<T>(received: Result<T, RecvError>) -> (outcome: WaitOutcome<T>)
    ensures
        outcome == outcome_of::<T>(Ok(received)),
{
    match received {
        Err(_) => WaitOutcome::ProducerDropped,
        Ok(value) => WaitOutcome::Delivered(value),
    }
}

/// However many notifications a listener sees, and whatever they are about,
/// it offers at most one of them to the channel; it offers exactly one if it
/// was armed and one of them is about its key, and the first such one disarms
/// it for good.
pub proof fn lemma_at_most_one_offer(armed: bool, key: u64, subjects: Seq<u64>)
    ensures
        offers_made(armed, key, subjects) <= 1,
        offers_made(armed, key, subjects) == 1 <==> armed && subjects.contains(key),
    decreases subjects.len(),
{
    if subjects.len() > 0 {
        let rest = subjects.drop_first();
        lemma_at_most_one_offer(armed_after(armed, key, subjects[0]), key, rest);
        assert(subjects.contains(key) <==> subjects[0] == key || rest.contains(key)) by {
            if subjects.contains(key) {
                let i = choose|i: int| 0 <= i < subjects.len() && subjects[i] == key;
                if i > 0 {
                    assert(rest[i - 1] == key);
                }
            }
            if rest.contains(key) {
                let j = choose|j: int| 0 <= j < rest.len() && rest[j] == key;
                assert(subjects[j + 1] == key);
            }
        }
    }
}

} // verus!
