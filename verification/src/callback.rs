//! The callback registry and the tokens it hands out.
//!
//! A native subscription stays alive for as long as the value that the native
//! layer returned for it is alive. The registry owns those values, keyed by
//! ids that only grow, so that a subscription ends when its token is
//! disconnected and at no other moment: a token that is merely discarded
//! leaves its registration where it is.

use std::collections::HashMap;
use vstd::prelude::*;

verus! {

broadcast use vstd::std_specs::hash::group_hash_axioms;

/// The native notifications a listener can subscribe to.
#[derive(Clone, Copy, Debug, PartialEq, Eq, Structural)]
pub enum SteamCallback {
    PersonaStateChange,
    SteamServersConnected,
    SteamServersDisconnected,
    SteamServerConnectFailure,
    LobbyDataUpdate,
    LobbyChatUpdate,
    P2PSessionRequest,
    P2PSessionConnectFail,
    GameLobbyJoinRequested,
    MicroTxnAuthorizationResponse,
    LobbyChatMessage,
}

/// One live subscription: the kind of notification it listens to and the
/// native value whose release ends it.
pub struct Registration<H> {
    pub kind: SteamCallback,
    pub native: H,
}

/// What a registry is, mathematically: the id the next registration gets and
/// the registrations that are alive, by id.
pub struct RegistryView<H> {
    pub next_id: u64,
    pub entries: Map<u64, Registration<H>>,
}

impl<H> RegistryView<H> {
    /// Ids are handed out in increasing order, so every live id is below the
    /// next one.
    pub open spec fn wf(self) -> bool {
        forall|id: u64| #[trigger] self.entries.contains_key(id) ==> id < self.next_id
    }

    /// The registry before anything was registered.
    pub open spec fn empty() -> Self {
        RegistryView { next_id: 0, entries: Map::empty() }
    }

    /// The registry after one more registration.
    pub open spec fn registered(self, kind: SteamCallback, native: H) -> Self {
        RegistryView {
            next_id: (self.next_id + 1) as u64,
            entries: self.entries.insert(self.next_id, Registration { kind, native }),
        }
    }

    /// The registry after `token` was disconnected against it.
    pub open spec fn disconnected(self, token: HandleView) -> Self {
        if token.disconnected {
            self
        } else {
            RegistryView { next_id: self.next_id, entries: self.entries.remove(token.id) }
        }
    }
}

/// What a token is, mathematically.
pub struct HandleView {
    pub id: u64,
    pub disconnected: bool,
}

impl HandleView {
    /// The token that a registration made in `registry` returns.
    pub open spec fn issued<H>(registry: RegistryView<H>) -> Self {
        HandleView { id: registry.next_id, disconnected: false }
    }

    /// The token after it was disconnected.
    pub open spec fn after_disconnect(self) -> Self {
        HandleView { id: self.id, disconnected: true }
    }
}

/// The caller's handle on one registration. It names the registration by id
/// and does not own the native subscription: the registry does.
pub struct Handle {
    id: u64,
    disconnected: bool,
}

impl View for Handle {
    type V = HandleView;

    closed spec fn view(&self) -> HandleView {
        HandleView { id: self.id, disconnected: self.disconnected }
    }
}

/// The table of live registrations.
pub struct Registry<H> {
    entries: HashMap<u64, Registration<H>>,
    next_id: u64,
}

impl<H> View for Registry<H> {
    type V = RegistryView<H>;

    closed spec fn view(&self) -> RegistryView<H> {
        RegistryView { next_id: self.next_id, entries: self.entries@ }
    }
}

impl<H> Registry<H> {
    #[verifier::type_invariant]
    pub(crate) open spec fn ids_below_next(self) -> bool {
        self@.wf()
    }

    /// A registry with no registrations, whose first id will be 0.
    pub fn new() -> (registry: Self)
        ensures
            registry@ == RegistryView::<H>::empty(),
            registry@.wf(),
    {
        Registry { entries: HashMap::new(), next_id: 0 }
    }

    /// The id that the next registration will get.
    pub fn next_id(&self) -> (id: u64)
        ensures
            id == self@.next_id,
            self@.wf(),
    {
        proof {
            use_type_invariant(self);
        }
        self.next_id
    }

    /// The number of live registrations.
    pub fn len(&self) -> (n: usize)
        ensures
            n == self@.entries.len(),
            self@.entries.dom().finite(),
    {
        self.entries.len()
    }

    /// Whether no registration is alive.
    pub fn is_empty(&self) -> (empty: bool)
        ensures
            empty <==> self@.entries =~= Map::<u64, Registration<H>>::empty(),
    {
        let n = self.entries.len();
        proof {
            if n == 0 {
                assert(self.entries@.dom() =~= Set::<u64>::empty());
            }
        }
        n == 0
    }

    /// Whether the registration with this id is alive.
    pub fn contains(&self, id: u64) -> (present: bool)
        ensures
            present == self@.entries.contains_key(id),
    {
        self.entries.contains_key(&id)
    }

    /// The kind of notification that registration `id` listens to, if it is
    /// alive.
    pub fn kind_of(&self, id: u64) -> (kind: Option<SteamCallback>)
        ensures
            kind == if self@.entries.contains_key(id) {
                Some(self@.entries[id].kind)
            } else {
                None
            },
    {
        match self.entries.get(&id) {
            Some(registration) => Some(registration.kind),
            None => None,
        }
    }
}

/// Stores a native subscription under the next id and returns the token for
/// it. The id is the one no registration of this registry ever had.
pub fn register<H>(registry: &mut Registry<H>, steam_callback: SteamCallback, native: H) -> (token:
    Handle)
    requires
        old(registry)@.next_id < u64::MAX,
    ensures
        final(registry)@ == old(registry)@.registered(steam_callback, native),
        token@ == HandleView::issued(old(registry)@),
        !old(registry)@.entries.contains_key(token@.id),
        final(registry)@.wf(),
{
    proof {
        use_type_invariant(&*registry);
    }
    let id = registry.next_id;
    let mut entries = HashMap::new();
    std::mem::swap(&mut entries, &mut registry.entries);
    entries.insert(id, Registration { kind: steam_callback, native });
    assert(entries@ == old(registry)@.entries.insert(
        id,
        Registration { kind: steam_callback, native },
    ));
    registry.next_id = id + 1;
    registry.entries = entries;
    Handle { id, disconnected: false }
}

impl Handle {
    /// The id of the registration this token names.
    pub fn id(&self) -> (id: u64)
        ensures
            id == self@.id,
    {
        self.id
    }

    /// Whether `disconnect` was called on this token.
    pub fn is_disconnected(&self) -> (disconnected: bool)
        ensures
            disconnected == self@.disconnected,
    {
        self.disconnected
    }

    /// Ends the registration this token names: its entry leaves the registry,
    /// and with it the native subscription is released. On a token that was
    /// disconnected before, nothing happens.
    pub fn disconnect<H>(&mut self, registry: &mut Registry<H>)
        ensures
            final(self)@ == old(self)@.after_disconnect(),
            final(registry)@ == old(registry)@.disconnected(old(self)@),
            final(registry)@.wf(),
    {
        proof {
            use_type_invariant(&*registry);
        }
        if !self.disconnected {
            let mut entries = HashMap::new();
            std::mem::swap(&mut entries, &mut registry.entries);
            entries.remove(&self.id);
            assert(entries@ == old(registry)@.entries.remove(self.id));
            registry.entries = entries;
            self.disconnected = true;
        }
    }

    /// Gives the token up without disconnecting. The registry is not touched,
    /// so the registration stays alive; the result says whether one was left
    /// behind, which is when a diagnostic is owed.
    pub fn discard(self) -> (left_active: bool)
        ensures
            left_active == !self@.disconnected,
    {
        !self.disconnected
    }
}

/// A registration is alive from the moment it is made, under an id that no
/// live registration has, and making it disturbs no other. Nothing but a
/// disconnect ends it: giving the token up takes no registry, so it cannot.
pub proof fn lemma_registration_outlives_token<H>(
    registry: RegistryView<H>,
    kind: SteamCallback,
    native: H,
)
    requires
        registry.wf(),
        registry.next_id < u64::MAX,
    ensures
        ({
            let token = HandleView::issued(registry);
            let live = registry.registered(kind, native);
            &&& !token.disconnected
            &&& !registry.entries.contains_key(token.id)
            &&& live.entries.contains_key(token.id)
            &&& live.entries[token.id] == Registration { kind, native }
            &&& live.entries.remove(token.id) == registry.entries
            &&& live.wf()
        }),
{
    let token = HandleView::issued(registry);
    let live = registry.registered(kind, native);
    assert(live.entries.remove(token.id) =~= registry.entries);
}

/// Disconnecting a connected token removes the entry under its id, and that
/// entry only.
pub proof fn lemma_disconnect_removes<H>(registry: RegistryView<H>, token: HandleView)
    requires
        !token.disconnected,
    ensures
        !registry.disconnected(token).entries.contains_key(token.id),
        forall|id: u64|
            id != token.id ==> (#[trigger] registry.disconnected(token).entries.contains_key(id)
                == registry.entries.contains_key(id)),
        forall|id: u64|
            id != token.id && registry.entries.contains_key(id) ==> #[trigger] registry.disconnected(
                token,
            ).entries[id] == registry.entries[id],
        registry.disconnected(token).next_id == registry.next_id,
        registry.wf() ==> registry.disconnected(token).wf(),
{
}

/// A second disconnect is a no-op: it changes neither the registry nor the
/// token.
pub proof fn lemma_second_disconnect_is_noop<H>(registry: RegistryView<H>, token: HandleView)
    ensures
        registry.disconnected(token).disconnected(token.after_disconnect())
            == registry.disconnected(token),
        token.after_disconnect().after_disconnect() == token.after_disconnect(),
{
}

/// Registering and then disconnecting leaves the registrations as they
/// were; only the next id has moved on, so the id is never handed out again.
pub proof fn lemma_register_then_disconnect<H>(
    registry: RegistryView<H>,
    kind: SteamCallback,
    native: H,
)
    requires
        registry.wf(),
        registry.next_id < u64::MAX,
    ensures
        ({
            let token = HandleView::issued(registry);
            let after = registry.registered(kind, native).disconnected(token);
            &&& after.entries == registry.entries
            &&& after.next_id == registry.next_id + 1
            &&& HandleView::issued(after).id != token.id
        }),
{
    lemma_registration_outlives_token(registry, kind, native);
}

} // verus!
