//! The connection registry of the fan-out topology: one watcher shared by many
//! sessions.
//!
//! The registry maps the identity of a session to the handle on which the session
//! is sent to. It only refers to the handles; what a handle is, and how one is
//! written to, is the caller's matter. The registry is a plain value: where several
//! tasks use one, the caller guards it.
use std::collections::HashMap;
use vstd::prelude::*;

verus! {

broadcast use vstd::std_specs::hash::group_hash_axioms;

/// The handle that a reload for `identity` is routed to, if the session is
/// registered.
pub open spec fn spec_route<H>(registry: Map<u64, H>, identity: u64) -> Option<H> {
    if registry.contains_key(identity) {
        Some(registry[identity])
    } else {
        None
    }
}

/// Of two sessions that were inserted, one of which was removed, a reload reaches
/// only the remaining one: it is routed to the handle the remaining session was
/// inserted with, the removed session is routed nowhere, and no other session is
/// routed otherwise than before.
pub proof fn lemma_route_reaches_the_remaining<H>(
    registry: Map<u64, H>,
    removed: u64,
    removed_handle: H,
    remaining: u64,
    remaining_handle: H,
)
    requires
        removed != remaining,
    ensures
        ({
            let after = registry.insert(removed, removed_handle).insert(
                remaining,
                remaining_handle,
            ).remove(removed);
            &&& spec_route(after, remaining) == Some(remaining_handle)
            &&& spec_route(after, removed) is None
            &&& forall|other: u64|
                other != removed && other != remaining ==> spec_route(after, other) == spec_route(
                    registry,
                    other,
                )
        }),
        registry.insert(remaining, remaining_handle).insert(removed, removed_handle).remove(removed)
            == registry.insert(removed, removed_handle).insert(remaining, remaining_handle).remove(
            removed,
        ),
{
}

/// The sessions that are connected, each with its handle.
pub struct ConnectionRegistry<H> {
    handles: HashMap<u64, H>,
}

impl<H> View for ConnectionRegistry<H> {
    type V = Map<u64, H>;

    closed spec fn view(&self) -> Map<u64, H> {
        self.handles@
    }
}

impl<H> ConnectionRegistry<H> {
    /// A registry without sessions.
    pub fn new() -> (registry: Self)
        ensures
            registry@ == Map::<u64, H>::empty(),
    {
        ConnectionRegistry { handles: HashMap::new() }
    }

    /// The number of sessions registered.
    pub fn len(&self) -> (count: usize)
        ensures
            count == self@.len(),
            self@.dom().finite(),
    {
        self.handles.len()
    }

    /// Tells whether a session is registered.
    pub fn contains(&self, identity: u64) -> (registered: bool)
        ensures
            registered == self@.contains_key(identity),
    {
        self.handles.contains_key(&identity)
    }

    /// Registers a session on connect. A handle registered before under the same
    /// identity is replaced and handed back.
    pub fn insert(&mut self, identity: u64, handle: H) -> (replaced: Option<H>)
        ensures
            final(self)@ == old(self)@.insert(identity, handle),
            replaced == spec_route(old(self)@, identity),
    {
        self.handles.insert(identity, handle)
    }

    /// Takes a session out on disconnect and hands back its handle, if it was
    /// registered.
    pub fn remove(&mut self, identity: u64) -> (removed: Option<H>)
        ensures
            final(self)@ == old(self)@.remove(identity),
            removed == spec_route(old(self)@, identity),
    {
        self.handles.remove(&identity)
    }

    /// Finds the handle on which a reload for `identity` is to be sent. There is
    /// none for a session that is not registered: the reload is then dropped.
    pub fn route_reload(&self, identity: u64) -> (target: Option<&H>)
        ensures
            match target {
                Some(handle) => spec_route(self@, identity) == Some(*handle),
                None => spec_route(self@, identity) is None,
            },
    {
        self.handles.get(&identity)
    }
}

} // verus!
