//! The slot that holds the one native client of the process.
//!
//! The slot is plain state: whoever owns it decides how it is shared and
//! locked. The client is kept behind an `Arc`, so that operations in flight
//! keep it alive, and it can only be taken out of the slot again when nobody
//! else holds it.

use std::sync::Arc;
use vstd::prelude::*;

verus! {

/// The message of the error that `get_client` returns on an empty slot.
pub open spec fn not_initialized() -> Seq<char> {
    "Steam client's not initialized."@
}

/// `Arc::clone`: one more handle on the same client.
#[verifier::external_body]
fn share<C>(client: &Arc<C>) -> (shared: Arc<C>)
    ensures
        shared == *client,
{
    Arc::clone(client)
}

/// `Arc::try_unwrap`: the value inside if this handle is the only one, and
/// otherwise the same handle back. Which of the two happens depends on who
/// else holds the client, so neither is promised.
#[verifier::external_body]
fn try_unwrap<C>(client: Arc<C>) -> (unwrapped: Result<C, Arc<C>>)
    ensures
        match unwrapped {
            Ok(inner) => inner == *client,
            Err(same) => same == client,
        },
{
    Arc::try_unwrap(client)
}

/// What an attempt to let the client go came to.
#[derive(Clone, Copy, Debug, PartialEq, Eq, Structural)]
pub enum ClientRelease {
    /// The slot was empty.
    NoClient,
    /// The client was taken out of the slot and released.
    Released,
    /// Others still hold the client; it was put back.
    StillShared,
}

/// The place of the process-wide client: empty, or holding one.
pub struct ClientSlot<C> {
    client: Option<Arc<C>>,
}

impl<C> View for ClientSlot<C> {
    type V = Option<C>;

    closed spec fn view(&self) -> Option<C> {
        match self.client {
            Some(client) => Some(*client),
            None => None,
        }
    }
}

impl<C> ClientSlot<C> {
    /// An empty slot.
    pub fn new() -> (slot: Self)
        ensures
            slot@ is None,
    {
        ClientSlot { client: None }
    }

    /// Settles the slot once the attempt to unwrap its client has returned:
    /// a client that came out is released and the slot is left empty, one
    /// that is still shared goes back into the slot.
    pub fn settle(&mut self, unwrapped: Result<C, Arc<C>>) -> (release: ClientRelease)
        ensures
            match unwrapped {
                Ok(_) => release == ClientRelease::Released && final(self)@ is None,
                Err(shared) => release == ClientRelease::StillShared && final(self)@ == Some(
                    *shared,
                ),
            },
    {
        match unwrapped {
            Ok(_client) => {
                self.client = None;
                ClientRelease::Released
            },
            Err(shared) => {
                self.client = Some(shared);
                ClientRelease::StillShared
            },
        }
    }
}

/// Whether the slot holds a client.
pub fn has_client<C>(slot: &ClientSlot<C>) -> (present: bool)
    ensures
        present == (slot@ is Some),
{
    slot.client.is_some()
}

/// A handle on the client in the slot, or the error for an empty slot.
pub fn get_client<C>(slot: &ClientSlot<C>) -> (client: Result<Arc<C>, &'static str>)
    ensures
        match client {
            Ok(shared) => slot@ == Some(*shared),
            Err(message) => slot@ is None && message@ == not_initialized(),
        },
{
    match &slot.client {
        Some(client) => Ok(share(client)),
        None => Err("Steam client's not initialized."),
    }
}

/// Puts `client` into the slot, in place of whatever was there.
pub fn set_client<C>(slot: &mut ClientSlot<C>, client: C)
    ensures
        final(slot)@ == Some(client),
{
    slot.client = Some(Arc::new(client));
}

/// Lets the client go if nobody else holds it. An empty slot stays empty; a
/// client that is still shared stays in the slot.
pub fn drop_client<C>(slot: &mut ClientSlot<C>) -> (release: ClientRelease)
    ensures
        old(slot)@ is None ==> release == ClientRelease::NoClient && final(slot)@ is None,
        old(slot)@ is Some ==> release == ClientRelease::Released || release
            == ClientRelease::StillShared,
        release == ClientRelease::Released ==> final(slot)@ is None,
        release == ClientRelease::StillShared ==> final(slot)@ == old(slot)@,
{
    match slot.client.take() {
        None => ClientRelease::NoClient,
        Some(client) => {
            let unwrapped = try_unwrap(client);
            slot.settle(unwrapped)
        },
    }
}

} // verus!
