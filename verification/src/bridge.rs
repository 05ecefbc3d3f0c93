//! The request/response bridge: one native request, answered asynchronously
//! by a notification, turned into one operation with a deadline.
//!
//! The bridge decides; its driver acts. The driver registers the listener,
//! opens a bridge with it, issues the native request, and from then on
//! performs each action the bridge names and reports what came of it. The
//! bridge holds the token of the listener and disconnects it on the way to
//! every end, so that no listener outlives its request. A driver that cannot
//! go on, or is cancelled, reports `Abandoned`, which ends the request and
//! releases the listener like every other end.

use crate::callback::{register, Handle, HandleView, Registry, RegistryView, SteamCallback};
use crate::client::{get_client, ClientSlot};
use crate::notifier::WaitKind;
use std::sync::Arc;
use vstd::prelude::*;

verus! {

/// The number of seconds a request waits when its caller names none.
pub const DEFAULT_TIMEOUT_SECONDS: u32 = 10;

/// The ways a request fails.
#[derive(Clone, Copy, Debug, PartialEq, Eq, Structural)]
pub enum BridgeError {
    /// The deadline passed and no notification had been seen.
    RequestTimeout,
    /// The notifier broke on this side: its producer went away without
    /// sending.
    BridgeInternalError,
    /// There is no native client to ask.
    UpstreamUnavailable,
}

impl BridgeError {
    /// The words in which this error is reported.
    pub open spec fn spec_reason(self) -> Seq<char> {
        match self {
            BridgeError::RequestTimeout => "Steam did not callback in time"@,
            BridgeError::BridgeInternalError => "The notifier closed before Steam called back"@,
            BridgeError::UpstreamUnavailable => "Steam client's not initialized."@,
        }
    }

    /// The words in which this error is reported.
    pub fn reason(self) -> (reason: &'static str)
        ensures
            reason@ == self.spec_reason(),
    {
        match self {
            BridgeError::RequestTimeout => "Steam did not callback in time",
            BridgeError::BridgeInternalError => "The notifier closed before Steam called back",
            BridgeError::UpstreamUnavailable => "Steam client's not initialized.",
        }
    }
}

/// The client that a request is to ask, or `UpstreamUnavailable` where the
/// slot holds none. A request fails on this before it registers anything.
pub fn upstream<C>(slot: &ClientSlot<C>) -> (client: Result<Arc<C>, BridgeError>)
    ensures
        match client {
            Ok(shared) => slot@ == Some(*shared),
            Err(error) => slot@ is None && error == BridgeError::UpstreamUnavailable,
        },
{
    match get_client(slot) {
        Ok(shared) => Ok(shared),
        Err(_) => Err(BridgeError::UpstreamUnavailable),
    }
}

/// What a request does when its notifier breaks.
#[derive(Clone, Copy, Debug, PartialEq, Eq, Structural)]
pub enum FailurePolicy {
    /// Fail with `BridgeInternalError`.
    Fail,
    /// Ask the native layer again, and again, until it reports the answer as
    /// cached. This blocks for as long as the native layer takes.
    RetryUntilCached,
}

/// Where a request stands.
#[derive(Clone, Copy, Debug, PartialEq, Eq, Structural)]
pub enum Phase {
    /// The listener is registered; the native request is to be issued.
    Listening,
    /// The native request is out; the notifier is being waited on.
    Waiting,
    /// The notifier broke; the native request is being repeated.
    Retrying,
    /// The answer can be read from the native cache.
    Succeeded,
    /// The request failed.
    Failed(BridgeError),
}

/// What the driver reports to the bridge.
#[derive(Clone, Copy, Debug, PartialEq, Eq, Structural)]
pub enum Event {
    /// The native request was issued. `wait_needed` is the native layer's
    /// answer: `true` if a notification will follow, `false` if the answer is
    /// cached already.
    RequestIssued { wait_needed: bool },
    /// The wait on the notifier ended.
    Waited(WaitKind),
    /// The driver gives the request up: it was cancelled, or cannot go on.
    Abandoned,
}

/// What the bridge asks of the driver.
#[derive(Clone, Copy, Debug, PartialEq, Eq, Structural)]
pub enum Action {
    /// Pump the native layer once, wait on the notifier for at most
    /// `seconds`, and report `Waited`.
    Await { seconds: u64 },
    /// Issue the native request again and report `RequestIssued`.
    Reissue,
    /// Read the answer from the native cache and return it.
    Fetch,
    /// Return this error.
    Fail(BridgeError),
    /// The event has no meaning where the request stands; nothing changed.
    Rejected,
}

/// The deadline of a request in seconds: the caller's choice, or the default.
pub open spec fn deadline_of(timeout_seconds: Option<u32>) -> u64 {
    match timeout_seconds {
        Some(seconds) => seconds as u64,
        None => DEFAULT_TIMEOUT_SECONDS as u64,
    }
}

/// The deadline of a request in seconds: the caller's choice, or the default.
pub fn deadline_seconds(timeout_seconds: Option<u32>) -> (seconds: u64)
    ensures
        seconds == deadline_of(timeout_seconds),
{
    match timeout_seconds {
        Some(seconds) => seconds as u64,
        None => DEFAULT_TIMEOUT_SECONDS as u64,
    }
}

/// What a bridge is, mathematically.
pub struct BridgeView {
    /// The token of the request's listener.
    pub token: HandleView,
    /// The subject whose notification the request waits for.
    pub key: u64,
    /// The deadline of the wait.
    pub seconds: u64,
    pub policy: FailurePolicy,
    pub phase: Phase,
}

impl BridgeView {
    /// The bridge of a request that has just registered its listener in
    /// `registry`.
    pub open spec fn opened<H>(
        registry: RegistryView<H>,
        key: u64,
        timeout_seconds: Option<u32>,
        policy: FailurePolicy,
    ) -> Self {
        BridgeView {
            token: HandleView::issued(registry),
            key,
            seconds: deadline_of(timeout_seconds),
            policy,
            phase: Phase::Listening,
        }
    }

    /// Whether the request still holds its listener.
    pub open spec fn listening(self) -> bool {
        self.phase is Listening || self.phase is Waiting
    }

    /// Whether the request has ended.
    pub open spec fn finished(self) -> bool {
        self.phase is Succeeded || self.phase is Failed
    }

    /// The listener is connected exactly while the request holds it.
    pub open spec fn wf(self) -> bool {
        self.token.disconnected == !self.listening()
    }

    /// The phase that `event` leads to.
    pub open spec fn next_phase(self, event: Event) -> Phase {
        match (self.phase, event) {
            (Phase::Listening, Event::RequestIssued { wait_needed }) => if wait_needed {
                Phase::Waiting
            } else {
                Phase::Succeeded
            },
            (Phase::Waiting, Event::Waited(WaitKind::Delivered)) => Phase::Succeeded,
            (Phase::Waiting, Event::Waited(WaitKind::TimedOut)) => Phase::Failed(
                BridgeError::RequestTimeout,
            ),
            (Phase::Waiting, Event::Waited(WaitKind::ProducerDropped)) => match self.policy {
                FailurePolicy::Fail => Phase::Failed(BridgeError::BridgeInternalError),
                FailurePolicy::RetryUntilCached => Phase::Retrying,
            },
            (Phase::Retrying, Event::RequestIssued { wait_needed }) => if wait_needed {
                Phase::Retrying
            } else {
                Phase::Succeeded
            },
            (Phase::Listening, Event::Abandoned) => Phase::Failed(BridgeError::BridgeInternalError),
            (Phase::Waiting, Event::Abandoned) => Phase::Failed(BridgeError::BridgeInternalError),
            (Phase::Retrying, Event::Abandoned) => Phase::Failed(BridgeError::BridgeInternalError),
            _ => self.phase,
        }
    }

    /// Whether `event` means something where the request stands.
    pub open spec fn accepts(self, event: Event) -> bool {
        match (self.phase, event) {
            (Phase::Listening, Event::RequestIssued { .. }) => true,
            (Phase::Waiting, Event::Waited(_)) => true,
            (Phase::Retrying, Event::RequestIssued { .. }) => true,
            (Phase::Listening, Event::Abandoned) => true,
            (Phase::Waiting, Event::Abandoned) => true,
            (Phase::Retrying, Event::Abandoned) => true,
            _ => false,
        }
    }

    /// Whether the listener is released on `event`: on every accepted event
    /// that makes the request leave the phases in which it holds the
    /// listener.
    pub open spec fn releases(self, event: Event) -> bool {
        self.listening() && self.accepts(event) && !(self.next_phase(event) is Waiting)
    }

    /// The bridge after `event`.
    pub open spec fn step(self, event: Event) -> Self {
        BridgeView {
            token: if self.releases(event) {
                self.token.after_disconnect()
            } else {
                self.token
            },
            key: self.key,
            seconds: self.seconds,
            policy: self.policy,
            phase: self.next_phase(event),
        }
    }

    /// What the driver is asked to do on `event`.
    pub open spec fn action(self, event: Event) -> Action {
        if !self.accepts(event) {
            Action::Rejected
        } else {
            match self.next_phase(event) {
                Phase::Listening => Action::Rejected,
                Phase::Waiting => Action::Await { seconds: self.seconds },
                Phase::Retrying => Action::Reissue,
                Phase::Succeeded => Action::Fetch,
                Phase::Failed(error) => Action::Fail(error),
            }
        }
    }

    /// The registry after `event`, where it was `registry` before.
    pub open spec fn registry_after<H>(self, event: Event, registry: RegistryView<H>)
        -> RegistryView<H> {
        if self.releases(event) {
            registry.disconnected(self.token)
        } else {
            registry
        }
    }

    /// The bridge after the events of `events`, in order.
    pub open spec fn run(self, events: Seq<Event>) -> Self
        decreases events.len(),
    {
        if events.len() == 0 {
            self
        } else {
            self.step(events[0]).run(events.drop_first())
        }
    }

    /// How many times the listener is released over the events of `events`.
    pub open spec fn releases_along(self, events: Seq<Event>) -> nat
        decreases events.len(),
    {
        if events.len() == 0 {
            0
        } else {
            let first: nat = if self.releases(events[0]) {
                1
            } else {
                0
            };
            first + self.step(events[0]).releases_along(events.drop_first())
        }
    }

    /// How many times the driver is asked to wait over the events of
    /// `events`.
    pub open spec fn waits_along(self, events: Seq<Event>) -> nat
        decreases events.len(),
    {
        if events.len() == 0 {
            0
        } else {
            let first: nat = if self.action(events[0]) is Await {
                1
            } else {
                0
            };
            first + self.step(events[0]).waits_along(events.drop_first())
        }
    }

    /// The registry after the events of `events`, where it was `registry`
    /// before the first.
    pub open spec fn registry_along<H>(self, events: Seq<Event>, registry: RegistryView<H>)
        -> RegistryView<H>
        decreases events.len(),
    {
        if events.len() == 0 {
            registry
        } else {
            self.step(events[0]).registry_along(
                events.drop_first(),
                self.registry_after(events[0], registry),
            )
        }
    }
}

/// One request in flight.
pub struct Bridge {
    token: Handle,
    key: u64,
    seconds: u64,
    policy: FailurePolicy,
    phase: Phase,
}

impl View for Bridge {
    type V = BridgeView;

    closed spec fn view(&self) -> BridgeView {
        BridgeView {
            token: self.token@,
            key: self.key,
            seconds: self.seconds,
            policy: self.policy,
            phase: self.phase,
        }
    }
}

impl Bridge {
    #[verifier::type_invariant]
    spec fn holds_listener_while_listening(self) -> bool {
        self@.wf()
    }

    /// Begins a request for `key`: stores the native subscription of its
    /// listener in the registry and keeps the token. The native request is to
    /// be issued next.
    pub fn open<H>(
        registry: &mut Registry<H>,
        steam_callback: SteamCallback,
        native: H,
        key: u64,
        timeout_seconds: Option<u32>,
        policy: FailurePolicy,
    ) -> (bridge: Bridge)
        requires
            old(registry)@.next_id < u64::MAX,
        ensures
            final(registry)@ == old(registry)@.registered(steam_callback, native),
            final(registry)@.wf(),
            bridge@ == BridgeView::opened(old(registry)@, key, timeout_seconds, policy),
            bridge@.wf(),
    {
        let token = register(registry, steam_callback, native);
        Bridge {
            token,
            key,
            seconds: deadline_seconds(timeout_seconds),
            policy,
            phase: Phase::Listening,
        }
    }

    /// Takes the driver's report of `event` and returns the bridge after it
    /// together with what to do next. On the way out of the phases in which
    /// the request holds its listener, the token is disconnected against
    /// `registry`.
    pub fn advance<H>(self, registry: &mut Registry<H>, event: Event) -> (next: (Bridge, Action))
        ensures
            next.0@ == self@.step(event),
            next.1 == self@.action(event),
            final(registry)@ == self@.registry_after(event, old(registry)@),
            final(registry)@.wf(),
            next.0@.wf(),
    {
        proof {
            use_type_invariant(&self);
            use_type_invariant(&*registry);
        }
        let phase = match (self.phase, event) {
            (Phase::Listening, Event::RequestIssued { wait_needed }) => if wait_needed {
                Phase::Waiting
            } else {
                Phase::Succeeded
            },
            (Phase::Waiting, Event::Waited(WaitKind::Delivered)) => Phase::Succeeded,
            (Phase::Waiting, Event::Waited(WaitKind::TimedOut)) => Phase::Failed(
                BridgeError::RequestTimeout,
            ),
            (Phase::Waiting, Event::Waited(WaitKind::ProducerDropped)) => match self.policy {
                FailurePolicy::Fail => Phase::Failed(BridgeError::BridgeInternalError),
                FailurePolicy::RetryUntilCached => Phase::Retrying,
            },
            (Phase::Retrying, Event::RequestIssued { wait_needed }) => if wait_needed {
                Phase::Retrying
            } else {
                Phase::Succeeded
            },
            (Phase::Listening, Event::Abandoned) => Phase::Failed(BridgeError::BridgeInternalError),
            (Phase::Waiting, Event::Abandoned) => Phase::Failed(BridgeError::BridgeInternalError),
            (Phase::Retrying, Event::Abandoned) => Phase::Failed(BridgeError::BridgeInternalError),
            _ => {
                return (self, Action::Rejected);
            },
        };
        let Bridge { token, key, seconds, policy, phase: _ } = self;
        let mut token = token;
        let action = match phase {
            Phase::Listening => Action::Rejected,
            Phase::Waiting => Action::Await { seconds },
            Phase::Retrying => Action::Reissue,
            Phase::Succeeded => Action::Fetch,
            Phase::Failed(error) => Action::Fail(error),
        };
        match phase {
            Phase::Listening | Phase::Waiting => {},
            _ => {
                token.disconnect(registry);
            },
        }
        (Bridge { token, key, seconds, policy, phase }, action)
    }

    /// The subject whose notification the request waits for.
    pub fn key(&self) -> (key: u64)
        ensures
            key == self@.key,
    {
        self.key
    }

    /// The id under which the request's listener is, or was, registered.
    pub fn token_id(&self) -> (id: u64)
        ensures
            id == self@.token.id,
    {
        self.token.id()
    }

    /// Where the request stands.
    pub fn phase(&self) -> (phase: Phase)
        ensures
            phase == self@.phase,
            self@.wf(),
    {
        proof {
            use_type_invariant(self);
        }
        self.phase
    }

    /// Whether the request still holds its listener.
    pub fn is_listening(&self) -> (listening: bool)
        ensures
            listening == self@.listening(),
            listening == !self@.token.disconnected,
    {
        proof {
            use_type_invariant(self);
        }
        !self.token.is_disconnected()
    }

    /// How the request ended, if it has: `Ok` where the answer is to be read
    /// from the native cache, and the error otherwise.
    pub fn outcome(&self) -> (outcome: Option<Result<(), BridgeError>>)
        ensures
            outcome == match self@.phase {
                Phase::Succeeded => Some(Ok::<(), BridgeError>(())),
                Phase::Failed(error) => Some(Err::<(), BridgeError>(error)),
                _ => None,
            },
    {
        match self.phase {
            Phase::Succeeded => Some(Ok(())),
            Phase::Failed(error) => Some(Err(error)),
            _ => None,
        }
    }
}

/// A request that is well formed stays so, whatever is reported to it.
pub proof fn lemma_step_keeps_wf(bridge: BridgeView, event: Event)
    requires
        bridge.wf(),
    ensures
        bridge.step(event).wf(),
{
}

/// A request that has ended stays as it ended: every later report is
/// rejected and changes nothing, in the bridge or in the registry.
pub proof fn lemma_finished_is_final(bridge: BridgeView, later: Seq<Event>)
    requires
        bridge.finished(),
    ensures
        bridge.run(later) == bridge,
        bridge.releases_along(later) == 0,
        bridge.waits_along(later) == 0,
        forall|event: Event| #[trigger] bridge.action(event) == Action::Rejected,
    decreases later.len(),
{
    if later.len() > 0 {
        assert(bridge.step(later[0]) == bridge);
        lemma_finished_is_final(bridge, later.drop_first());
    }
}

/// Over any run of reports, the listener is released once if the run takes
/// the request out of the phases in which it holds the listener, and not at
/// all otherwise; and a request that has let its listener go never holds it
/// again. The registry loses the listener's entry on that release and is
/// otherwise left alone.
pub proof fn lemma_release_count<H>(
    bridge: BridgeView,
    events: Seq<Event>,
    registry: RegistryView<H>,
)
    requires
        bridge.wf(),
    ensures
        bridge.run(events).wf(),
        bridge.run(events).token.id == bridge.token.id,
        !bridge.listening() ==> !bridge.run(events).listening(),
        bridge.releases_along(events) == if bridge.listening() && !bridge.run(events).listening() {
            1nat
        } else {
            0nat
        },
        bridge.registry_along(events, registry) == if bridge.listening() && !bridge.run(
            events,
        ).listening() {
            registry.disconnected(bridge.token)
        } else {
            registry
        },
    decreases events.len(),
{
    if events.len() > 0 {
        let next = bridge.step(events[0]);
        lemma_release_count(next, events.drop_first(), bridge.registry_after(events[0], registry));
        if !next.listening() {
            assert(registry.disconnected(bridge.token).disconnected(next.token)
                == registry.disconnected(bridge.token));
        }
    }
}

/// Cleanup is unconditional: whichever way a request reaches its end
/// (answer cached, answer delivered, deadline passed, notifier broken, with
/// or without retries), its listener has been released exactly once by then,
/// and the registry holds no entry under the listener's id.
pub proof fn lemma_listener_released_exactly_once<H>(
    bridge: BridgeView,
    events: Seq<Event>,
    registry: RegistryView<H>,
)
    requires
        bridge.wf(),
        bridge.listening(),
        bridge.run(events).finished(),
    ensures
        bridge.releases_along(events) == 1,
        bridge.run(events).token.disconnected,
        bridge.registry_along(events, registry).entries == registry.entries.remove(bridge.token.id),
        !bridge.registry_along(events, registry).entries.contains_key(bridge.token.id),
{
    lemma_release_count(bridge, events, registry);
}

/// Giving a request up ends it wherever it stands: it fails with
/// `BridgeInternalError`, and the listener is released on that report if the
/// request still held it.
pub proof fn lemma_abandoning_ends_the_request(bridge: BridgeView)
    requires
        !bridge.finished(),
    ensures
        bridge.action(Event::Abandoned) == Action::Fail(BridgeError::BridgeInternalError),
        bridge.step(Event::Abandoned).phase == Phase::Failed(BridgeError::BridgeInternalError),
        bridge.releases(Event::Abandoned) == bridge.listening(),
        bridge.wf() ==> bridge.step(Event::Abandoned).token.disconnected,
{
}

/// The deadline takes precedence: once a wait is reported as timed out, the
/// request fails with `RequestTimeout`, and nothing that is reported later
/// (a notification that arrived just after the deadline included) changes
/// that.
pub proof fn lemma_timeout_takes_precedence(bridge: BridgeView, later: Seq<Event>)
    requires
        bridge.phase is Waiting,
    ensures
        bridge.action(Event::Waited(WaitKind::TimedOut)) == Action::Fail(
            BridgeError::RequestTimeout,
        ),
        bridge.releases(Event::Waited(WaitKind::TimedOut)),
        bridge.step(Event::Waited(WaitKind::TimedOut)).run(later).phase == Phase::Failed(
            BridgeError::RequestTimeout,
        ),
{
    lemma_finished_is_final(bridge.step(Event::Waited(WaitKind::TimedOut)), later);
}

/// The fast path: where the native layer reports the answer as cached, the
/// request succeeds at once, releases its listener on that very report, and
/// asks for no wait, then or later.
pub proof fn lemma_cached_answer_needs_no_wait(bridge: BridgeView, later: Seq<Event>)
    requires
        bridge.phase is Listening,
    ensures
        bridge.action(Event::RequestIssued { wait_needed: false }) == Action::Fetch,
        bridge.releases(Event::RequestIssued { wait_needed: false }),
        bridge.step(Event::RequestIssued { wait_needed: false }).run(later).phase
            == Phase::Succeeded,
        bridge.waits_along(seq![Event::RequestIssued { wait_needed: false }] + later) == 0,
{
    let cached = Event::RequestIssued { wait_needed: false };
    let events = seq![cached] + later;
    lemma_finished_is_final(bridge.step(cached), later);
    assert(events[0] == cached);
    assert(events.drop_first() == later);
}

} // verus!
