//! Keyboard input capture: a registry of key-down subscriptions on the host
//! document. Registration is scoped — it hands back a handle that can be
//! given up — and fails with an environment error when the host has no
//! document, committing nothing.

use vstd::prelude::*;
use crate::errors::Error;

verus! {

/// A scoped registration: proof that a key-down subscription was installed,
/// and the token to give it up.
#[derive(Clone, Copy, Debug, PartialEq, Eq, Structural)]
pub struct SubscriptionHandle {
    pub id: usize,
}

/// The subscriptions installed so far; its view is one activity flag per
/// handle ever handed out.
pub struct InputRegistry {
    active: Vec<bool>,
}

impl View for InputRegistry {
    type V = Seq<bool>;

    closed spec fn view(&self) -> Seq<bool> {
        self.active@
    }
}

impl InputRegistry {
    /// A registry with no subscriptions.
    pub fn new() -> (r: InputRegistry)
        ensures
            r@ == Seq::<bool>::empty(),
    {
        InputRegistry { active: Vec::new() }
    }

    /// Whether `h` names a subscription that is still installed.
    pub fn is_active(&self, h: SubscriptionHandle) -> (b: bool)
        ensures
            b == (h.id < self@.len() && self@[h.id as int]),
    {
        h.id < self.active.len() && self.active[h.id]
    }

    /// How many subscriptions were ever installed.
    pub fn len(&self) -> (n: usize)
        ensures
            n == self@.len(),
    {
        self.active.len()
    }
}

/// Subscribes to key-down events on the host document. When the host has no
/// document this fails with an environment error — it never proceeds
/// silently, and commits no partial state. On success the new subscription is
/// recorded active and its handle returned.
pub fn listen_for_keys(registry: &mut InputRegistry, document_present: bool) -> (r: Result<
    SubscriptionHandle,
    Error,
>)
    ensures
        match r {
            Ok(h) => {
                &&& document_present
                &&& h.id == old(registry)@.len()
                &&& final(registry)@ == old(registry)@.push(true)
            },
            Err(e) => {
                &&& !document_present
                &&& e == Error::NoDocument
                &&& e.spec_is_environment()
                &&& final(registry)@ == old(registry)@
            },
        },
{
    if !document_present {
        return Err(Error::NoDocument);
    }
    let h = SubscriptionHandle { id: registry.active.len() };
    registry.active.push(true);
    Ok(h)
}

/// Gives a subscription up. Rejects a handle that was never handed out or
/// was given up already.
pub fn unsubscribe(registry: &mut InputRegistry, h: SubscriptionHandle) -> (r: Result<(), Error>)
    ensures
        match r {
            Ok(()) => {
                &&& h.id < old(registry)@.len()
                &&& old(registry)@[h.id as int]
                &&& final(registry)@ == old(registry)@.update(h.id as int, false)
            },
            Err(e) => {
                &&& (h.id >= old(registry)@.len() || !old(registry)@[h.id as int])
                &&& e == Error::StaleHandle
                &&& final(registry)@ == old(registry)@
            },
        },
{
    if h.id >= registry.active.len() || !registry.active[h.id] {
        return Err(Error::StaleHandle);
    }
    registry.active.set(h.id, false);
    Ok(())
}

} // verus!
