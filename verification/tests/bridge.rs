use std::sync::{Arc, Mutex};
use std::time::Duration;
use steam_bridge::bridge::{
    deadline_seconds, upstream, Action, Bridge, BridgeError, Event, FailurePolicy, Phase,
    DEFAULT_TIMEOUT_SECONDS,
};
use steam_bridge::callback::{register, Registry, SteamCallback};
use steam_bridge::client::{set_client, ClientSlot};
use steam_bridge::notifier::{channel, classify, Listener, WaitKind};
use tokio::runtime::Builder;
use tokio::sync::oneshot::Receiver;

/// One time unit of these tests, in milliseconds.
const UNIT: u64 = 20;

/// A native layer that runs in memory: it answers requests from a script,
/// keeps the listeners that were registered with it, and hands
/// notifications to them when pumped.
struct Native {
    next_subscription: u32,
    listeners: Vec<(u32, Listener<u64>)>,
    answers: Vec<bool>,
    requests: u32,
    cache: u64,
}

impl Native {
    fn new(answers: &[bool]) -> Arc<Mutex<Native>> {
        Arc::new(Mutex::new(Native {
            next_subscription: 0,
            listeners: Vec::new(),
            answers: answers.to_vec(),
            requests: 0,
            cache: 0,
        }))
    }
}

/// What the native layer returns for a registration; dropping it ends the
/// subscription.
struct Subscription {
    native: Arc<Mutex<Native>>,
    id: u32,
}

impl Drop for Subscription {
    fn drop(&mut self) {
        let mut native = self.native.lock().unwrap();
        native.listeners.retain(|(id, _)| *id != self.id);
    }
}

fn subscribe(native: &Arc<Mutex<Native>>, listener: Listener<u64>) -> Subscription {
    let mut inner = native.lock().unwrap();
    let id = inner.next_subscription;
    inner.next_subscription += 1;
    inner.listeners.push((id, listener));
    Subscription { native: Arc::clone(native), id }
}

fn issue_request(native: &Arc<Mutex<Native>>) -> bool {
    let mut inner = native.lock().unwrap();
    let at = inner.requests as usize;
    inner.requests += 1;
    if at < inner.answers.len() {
        inner.answers[at]
    } else {
        false
    }
}

/// Delivers one notification about `subject` to every listener and returns
/// how many of them passed it on.
fn notify(native: &Arc<Mutex<Native>>, subject: u64, payload: u64) -> u32 {
    let mut inner = native.lock().unwrap();
    inner.cache = payload;
    let mut sent = 0;
    for (_, listener) in inner.listeners.iter_mut() {
        if listener.on_notification(subject, payload).is_sent() {
            sent += 1;
        }
    }
    sent
}

fn listeners(native: &Arc<Mutex<Native>>) -> usize {
    native.lock().unwrap().listeners.len()
}

fn fetch(native: &Arc<Mutex<Native>>) -> u64 {
    native.lock().unwrap().cache
}

/// What is to happen while a request waits.
enum Meanwhile {
    Nothing,
    NotifyAfter { units: u64, subject: u64, payload: u64 },
    DropListeners,
}

fn wait(
    native: &Arc<Mutex<Native>>,
    receiver: Receiver<u64>,
    seconds: u64,
    meanwhile: Meanwhile,
) -> WaitKind {
    let runtime = Builder::new_current_thread().enable_time().build().unwrap();
    let native = Arc::clone(native);
    let waited = runtime.block_on(async move {
        match meanwhile {
            Meanwhile::Nothing => {}
            Meanwhile::DropListeners => {
                let dropped: Vec<(u32, Listener<u64>)> =
                    native.lock().unwrap().listeners.drain(..).collect();
                drop(dropped);
            }
            Meanwhile::NotifyAfter { units, subject, payload } => {
                tokio::spawn(async move {
                    tokio::time::sleep(Duration::from_millis(units * UNIT)).await;
                    notify(&native, subject, payload);
                });
            }
        }
        tokio::time::timeout(Duration::from_millis(seconds * UNIT), receiver).await
    });
    classify(waited).kind()
}

/// Drives one request to its end, as a caller of the bridge does, and
/// returns its result with the actions the bridge asked for.
fn request(
    native: &Arc<Mutex<Native>>,
    registry: &mut Registry<Subscription>,
    key: u64,
    timeout: Option<u32>,
    policy: FailurePolicy,
    meanwhile: Meanwhile,
) -> (Result<u64, BridgeError>, Vec<Action>, u64) {
    let (producer, receiver) = channel::<u64>();
    let subscription = subscribe(native, Listener::new(key, producer));
    let bridge = Bridge::open(
        registry,
        SteamCallback::PersonaStateChange,
        subscription,
        key,
        timeout,
        policy,
    );
    let id = bridge.token_id();
    let mut receiver = Some(receiver);
    let mut meanwhile = Some(meanwhile);
    let mut actions = Vec::new();
    let wait_needed = issue_request(native);
    let (mut bridge, mut action) = bridge.advance(registry, Event::RequestIssued { wait_needed });
    loop {
        actions.push(action);
        let event = match action {
            Action::Await { seconds } => Event::Waited(wait(
                native,
                receiver.take().unwrap(),
                seconds,
                meanwhile.take().unwrap(),
            )),
            Action::Reissue => Event::RequestIssued { wait_needed: issue_request(native) },
            Action::Fetch => {
                assert_eq!(bridge.outcome(), Some(Ok(())));
                return (Ok(fetch(native)), actions, id);
            }
            Action::Fail(error) => {
                assert_eq!(bridge.outcome(), Some(Err(error)));
                return (Err(error), actions, id);
            }
            Action::Rejected => panic!("the bridge rejected a report of its own driver"),
        };
        let next = bridge.advance(registry, event);
        bridge = next.0;
        action = next.1;
    }
}

#[test]
fn default_deadline_is_ten() {
    assert_eq!(DEFAULT_TIMEOUT_SECONDS, 10);
    assert_eq!(deadline_seconds(None), 10);
    assert_eq!(deadline_seconds(Some(0)), 0);
    assert_eq!(deadline_seconds(Some(3)), 3);
    assert_eq!(deadline_seconds(Some(u32::MAX)), 4294967295);
}

#[test]
fn cached_answer_returns_at_once() {
    let native = Native::new(&[false]);
    native.lock().unwrap().cache = 77;
    let mut registry = Registry::new();
    let (result, actions, id) =
        request(&native, &mut registry, 5, Some(10), FailurePolicy::Fail, Meanwhile::Nothing);
    assert_eq!(result, Ok(77));
    assert_eq!(actions, vec![Action::Fetch]);
    assert!(!registry.contains(id));
    assert_eq!(registry.len(), 0);
    assert_eq!(listeners(&native), 0);
}

#[test]
fn notification_before_the_deadline_resolves() {
    let native = Native::new(&[true]);
    let mut registry = Registry::new();
    let (result, actions, id) = request(
        &native,
        &mut registry,
        5,
        Some(10),
        FailurePolicy::Fail,
        Meanwhile::NotifyAfter { units: 2, subject: 5, payload: 1234 },
    );
    assert_eq!(result, Ok(1234));
    assert_eq!(actions, vec![Action::Await { seconds: 10 }, Action::Fetch]);
    assert!(!registry.contains(id));
    assert_eq!(registry.len(), 0);
    assert_eq!(listeners(&native), 0);
}

#[test]
fn no_notification_before_the_deadline_times_out() {
    let native = Native::new(&[true]);
    let mut registry = Registry::new();
    let (result, actions, id) =
        request(&native, &mut registry, 5, Some(1), FailurePolicy::Fail, Meanwhile::Nothing);
    assert_eq!(result, Err(BridgeError::RequestTimeout));
    assert_eq!(
        actions,
        vec![Action::Await { seconds: 1 }, Action::Fail(BridgeError::RequestTimeout)]
    );
    assert!(!registry.contains(id));
    assert_eq!(registry.len(), 0);
    assert_eq!(listeners(&native), 0);
}

#[test]
fn two_requests_for_one_key_both_resolve() {
    let native = Native::new(&[true, true]);
    let mut registry = Registry::new();
    let (first_producer, first_receiver) = channel::<u64>();
    let (second_producer, second_receiver) = channel::<u64>();
    let first = Bridge::open(
        &mut registry,
        SteamCallback::PersonaStateChange,
        subscribe(&native, Listener::new(9, first_producer)),
        9,
        Some(10),
        FailurePolicy::Fail,
    );
    let second = Bridge::open(
        &mut registry,
        SteamCallback::PersonaStateChange,
        subscribe(&native, Listener::new(9, second_producer)),
        9,
        Some(10),
        FailurePolicy::Fail,
    );
    assert_eq!(registry.len(), 2);
    assert!(first.token_id() != second.token_id());
    let (first, action) =
        first.advance(&mut registry, Event::RequestIssued { wait_needed: issue_request(&native) });
    assert_eq!(action, Action::Await { seconds: 10 });
    let (second, action) =
        second.advance(&mut registry, Event::RequestIssued { wait_needed: issue_request(&native) });
    assert_eq!(action, Action::Await { seconds: 10 });

    assert_eq!(notify(&native, 9, 555), 2);

    let kind = wait(&native, first_receiver, 10, Meanwhile::Nothing);
    assert_eq!(kind, WaitKind::Delivered);
    let (first, action) = first.advance(&mut registry, Event::Waited(kind));
    assert_eq!(action, Action::Fetch);
    assert_eq!(registry.len(), 1);
    let kind = wait(&native, second_receiver, 10, Meanwhile::Nothing);
    assert_eq!(kind, WaitKind::Delivered);
    let (second, action) = second.advance(&mut registry, Event::Waited(kind));
    assert_eq!(action, Action::Fetch);

    assert_eq!(first.outcome(), Some(Ok(())));
    assert_eq!(second.outcome(), Some(Ok(())));
    assert_eq!(fetch(&native), 555);
    assert_eq!(registry.len(), 0);
    assert_eq!(listeners(&native), 0);
}

#[test]
fn notification_about_another_subject_does_not_resolve() {
    let native = Native::new(&[true]);
    let mut registry = Registry::new();
    let (result, _, id) = request(
        &native,
        &mut registry,
        5,
        Some(3),
        FailurePolicy::Fail,
        Meanwhile::NotifyAfter { units: 1, subject: 6, payload: 1 },
    );
    assert_eq!(result, Err(BridgeError::RequestTimeout));
    assert!(!registry.contains(id));
}

#[test]
fn timeout_wins_over_a_late_notification() {
    let native = Native::new(&[true]);
    let mut registry = Registry::new();
    let (result, _, id) = request(
        &native,
        &mut registry,
        5,
        Some(1),
        FailurePolicy::Fail,
        Meanwhile::NotifyAfter { units: 3, subject: 5, payload: 99 },
    );
    assert_eq!(result, Err(BridgeError::RequestTimeout));
    assert!(!registry.contains(id));
    assert_eq!(listeners(&native), 0);
    assert_eq!(notify(&native, 5, 99), 0);
    assert_eq!(fetch(&native), 99);
}

#[test]
fn broken_notifier_fails_with_internal_error() {
    let native = Native::new(&[true]);
    let mut registry = Registry::new();
    let (result, actions, id) = request(
        &native,
        &mut registry,
        5,
        None,
        FailurePolicy::Fail,
        Meanwhile::DropListeners,
    );
    assert_eq!(result, Err(BridgeError::BridgeInternalError));
    assert_eq!(
        actions,
        vec![Action::Await { seconds: 10 }, Action::Fail(BridgeError::BridgeInternalError)]
    );
    assert!(!registry.contains(id));
    assert_eq!(registry.len(), 0);
}

#[test]
fn broken_notifier_with_retry_asks_until_cached() {
    let native = Native::new(&[true, true, true, false]);
    native.lock().unwrap().cache = 31;
    let mut registry = Registry::new();
    let (result, actions, id) = request(
        &native,
        &mut registry,
        5,
        None,
        FailurePolicy::RetryUntilCached,
        Meanwhile::DropListeners,
    );
    assert_eq!(result, Ok(31));
    assert_eq!(
        actions,
        vec![
            Action::Await { seconds: 10 },
            Action::Reissue,
            Action::Reissue,
            Action::Reissue,
            Action::Fetch
        ]
    );
    assert_eq!(native.lock().unwrap().requests, 4);
    assert!(!registry.contains(id));
    assert_eq!(registry.len(), 0);
}

#[test]
fn listener_is_held_exactly_while_listening() {
    let mut registry: Registry<u8> = Registry::new();
    let bridge = Bridge::open(
        &mut registry,
        SteamCallback::PersonaStateChange,
        0,
        1,
        None,
        FailurePolicy::RetryUntilCached,
    );
    let id = bridge.token_id();
    assert_eq!(bridge.key(), 1);
    assert_eq!(bridge.phase(), Phase::Listening);
    assert_eq!(bridge.outcome(), None);
    assert!(bridge.is_listening());
    assert!(registry.contains(id));
    let (bridge, _) = bridge.advance(&mut registry, Event::RequestIssued { wait_needed: true });
    assert_eq!(bridge.phase(), Phase::Waiting);
    assert!(bridge.is_listening());
    assert!(registry.contains(id));
    let (bridge, action) = bridge.advance(&mut registry, Event::Waited(WaitKind::ProducerDropped));
    assert_eq!(action, Action::Reissue);
    assert_eq!(bridge.phase(), Phase::Retrying);
    assert_eq!(bridge.outcome(), None);
    assert!(!bridge.is_listening());
    assert!(!registry.contains(id));
    let (bridge, action) = bridge.advance(&mut registry, Event::RequestIssued { wait_needed: true });
    assert_eq!(action, Action::Reissue);
    assert_eq!(bridge.phase(), Phase::Retrying);
    let (bridge, action) = bridge.advance(&mut registry, Event::RequestIssued { wait_needed: false });
    assert_eq!(action, Action::Fetch);
    assert_eq!(bridge.phase(), Phase::Succeeded);
    assert_eq!(bridge.token_id(), id);
    assert_eq!(registry.len(), 0);
}

#[test]
fn reports_out_of_place_are_rejected_and_change_nothing() {
    let mut registry: Registry<u8> = Registry::new();
    let bridge =
        Bridge::open(&mut registry, SteamCallback::PersonaStateChange, 0, 1, None, FailurePolicy::Fail);
    let id = bridge.token_id();
    let (bridge, action) = bridge.advance(&mut registry, Event::Waited(WaitKind::Delivered));
    assert_eq!(action, Action::Rejected);
    assert_eq!(bridge.phase(), Phase::Listening);
    assert!(registry.contains(id));
    let (bridge, _) = bridge.advance(&mut registry, Event::RequestIssued { wait_needed: true });
    let (bridge, action) = bridge.advance(&mut registry, Event::RequestIssued { wait_needed: false });
    assert_eq!(action, Action::Rejected);
    assert_eq!(bridge.phase(), Phase::Waiting);
    assert!(registry.contains(id));
    let (bridge, action) = bridge.advance(&mut registry, Event::Waited(WaitKind::TimedOut));
    assert_eq!(action, Action::Fail(BridgeError::RequestTimeout));
    let (bridge, action) = bridge.advance(&mut registry, Event::Waited(WaitKind::Delivered));
    assert_eq!(action, Action::Rejected);
    assert_eq!(bridge.phase(), Phase::Failed(BridgeError::RequestTimeout));
    let (bridge, action) = bridge.advance(&mut registry, Event::RequestIssued { wait_needed: false });
    assert_eq!(action, Action::Rejected);
    assert_eq!(bridge.outcome(), Some(Err(BridgeError::RequestTimeout)));
    assert_eq!(registry.len(), 0);
}

#[test]
fn other_registrations_survive_a_request() {
    let native = Native::new(&[true]);
    let mut registry = Registry::new();
    let (long_lived, _receiver) = channel::<u64>();
    let kept = register(
        &mut registry,
        SteamCallback::LobbyChatMessage,
        subscribe(&native, Listener::new(1000, long_lived)),
    );
    let (result, _, id) =
        request(&native, &mut registry, 5, Some(1), FailurePolicy::Fail, Meanwhile::Nothing);
    assert_eq!(result, Err(BridgeError::RequestTimeout));
    assert!(id != kept.id());
    assert!(registry.contains(kept.id()));
    assert_eq!(registry.len(), 1);
    assert_eq!(listeners(&native), 1);
}

#[test]
fn errors_have_their_reasons() {
    assert_eq!(BridgeError::RequestTimeout.reason(), "Steam did not callback in time");
    assert_eq!(BridgeError::UpstreamUnavailable.reason(), "Steam client's not initialized.");
    assert_eq!(
        BridgeError::BridgeInternalError.reason(),
        "The notifier closed before Steam called back"
    );
}

#[test]
fn request_without_a_client_is_unavailable() {
    let mut slot: ClientSlot<u8> = ClientSlot::new();
    assert_eq!(upstream(&slot).err(), Some(BridgeError::UpstreamUnavailable));
    set_client(&mut slot, 4);
    assert_eq!(upstream(&slot).map(|client| *client), Ok(4));
}

#[test]
fn abandoned_request_releases_its_listener() {
    let native = Native::new(&[true]);
    let mut registry = Registry::new();
    let (producer, _receiver) = channel::<u64>();
    let bridge = Bridge::open(
        &mut registry,
        SteamCallback::PersonaStateChange,
        subscribe(&native, Listener::new(5, producer)),
        5,
        None,
        FailurePolicy::RetryUntilCached,
    );
    let id = bridge.token_id();
    let (bridge, _) = bridge.advance(&mut registry, Event::RequestIssued { wait_needed: true });
    assert!(registry.contains(id));
    assert_eq!(listeners(&native), 1);
    let (bridge, action) = bridge.advance(&mut registry, Event::Abandoned);
    assert_eq!(action, Action::Fail(BridgeError::BridgeInternalError));
    assert_eq!(bridge.phase(), Phase::Failed(BridgeError::BridgeInternalError));
    assert!(!bridge.is_listening());
    assert!(!registry.contains(id));
    assert_eq!(listeners(&native), 0);
    let (bridge, action) = bridge.advance(&mut registry, Event::Abandoned);
    assert_eq!(action, Action::Rejected);
    assert_eq!(bridge.outcome(), Some(Err(BridgeError::BridgeInternalError)));
}

#[test]
fn request_can_be_abandoned_in_every_unfinished_phase() {
    let mut registry: Registry<u8> = Registry::new();
    let listening =
        Bridge::open(&mut registry, SteamCallback::PersonaStateChange, 0, 1, None, FailurePolicy::Fail);
    let (listening, action) = listening.advance(&mut registry, Event::Abandoned);
    assert_eq!(action, Action::Fail(BridgeError::BridgeInternalError));
    assert_eq!(listening.outcome(), Some(Err(BridgeError::BridgeInternalError)));
    assert_eq!(registry.len(), 0);

    let retrying = Bridge::open(
        &mut registry,
        SteamCallback::PersonaStateChange,
        0,
        1,
        None,
        FailurePolicy::RetryUntilCached,
    );
    let (retrying, _) = retrying.advance(&mut registry, Event::RequestIssued { wait_needed: true });
    let (retrying, _) = retrying.advance(&mut registry, Event::Waited(WaitKind::ProducerDropped));
    assert_eq!(retrying.phase(), Phase::Retrying);
    assert_eq!(registry.len(), 0);
    let (retrying, action) = retrying.advance(&mut registry, Event::Abandoned);
    assert_eq!(action, Action::Fail(BridgeError::BridgeInternalError));
    assert_eq!(retrying.phase(), Phase::Failed(BridgeError::BridgeInternalError));

    let done =
        Bridge::open(&mut registry, SteamCallback::PersonaStateChange, 0, 1, None, FailurePolicy::Fail);
    let (done, _) = done.advance(&mut registry, Event::RequestIssued { wait_needed: false });
    let (done, action) = done.advance(&mut registry, Event::Abandoned);
    assert_eq!(action, Action::Rejected);
    assert_eq!(done.outcome(), Some(Ok(())));
}
