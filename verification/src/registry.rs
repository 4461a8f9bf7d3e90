//! The registry of decision callbacks, one per surface.

use std::collections::HashMap;
use vstd::prelude::*;

use crate::error::BridgeError;
use crate::event::DragDropEvent;

verus! {

broadcast use vstd::std_specs::hash::group_hash_axioms;

/// What `attach` hands out for the handler it stored. Whoever owns the
/// surface keeps it for as long as the surface lives and gives it back to
/// `release` when the surface goes away.
#[derive(Debug)]
pub struct HandlerHandle {
    surface: u64,
}

impl HandlerHandle {
    /// The surface whose handler this handle stands for.
    pub closed spec fn spec_surface(&self) -> u64 {
        self.surface
    }

    /// The surface whose handler this handle stands for.
    pub fn surface(&self) -> (surface: u64)
        ensures
            surface == self.spec_surface(),
    {
        self.surface
    }
}

/// The decision callbacks of all surfaces: at most one per surface, each
/// ready to be called with any event.
pub struct HandlerRegistry<H: Fn(DragDropEvent) -> bool> {
    handlers: HashMap<u64, H>,
}

impl<H: Fn(DragDropEvent) -> bool> View for HandlerRegistry<H> {
    type V = Map<u64, H>;

    closed spec fn view(&self) -> Map<u64, H> {
        self.handlers@
    }
}

impl<H: Fn(DragDropEvent) -> bool> HandlerRegistry<H> {
    /// Every attached handler accepts every event.
    pub closed spec fn well_formed(&self) -> bool {
        forall|surface: u64, event: DragDropEvent|
            self.handlers@.contains_key(surface) ==> #[trigger] call_requires(
                self.handlers@[surface],
                (event,),
            )
    }

    /// A registry with no handler attached.
    pub fn new() -> (registry: Self)
        ensures
            registry.well_formed(),
            registry@ == Map::<u64, H>::empty(),
    {
        HandlerRegistry { handlers: HashMap::new() }
    }

    /// Stores `handler` as the handler of `surface`, in place of any handler
    /// attached to that surface before. The handlers of other surfaces stay.
    pub fn attach(&mut self, surface: u64, handler: H) -> (handle: HandlerHandle)
        requires
            old(self).well_formed(),
            forall|event: DragDropEvent| call_requires(handler, (event,)),
        ensures
            final(self).well_formed(),
            final(self)@ == old(self)@.insert(surface, handler),
            handle.spec_surface() == surface,
    {
        self.handlers.insert(surface, handler);
        HandlerHandle { surface }
    }

    /// Whether `surface` has a handler attached.
    pub fn is_attached(&self, surface: u64) -> (attached: bool)
        ensures
            attached == self@.contains_key(surface),
    {
        self.handlers.contains_key(&surface)
    }

    /// The handler attached to `surface`. A surface without a handler is a
    /// setup defect and is reported as `MissingHandler`.
    pub fn lookup(&self, surface: u64) -> (found: Result<&H, BridgeError>)
        requires
            self.well_formed(),
        ensures
            match found {
                Ok(handler) => self@.contains_key(surface) && *handler == self@[surface]
                    && forall|event: DragDropEvent| call_requires(*handler, (event,)),
                Err(error) => !self@.contains_key(surface) && error == (BridgeError::MissingHandler {
                    surface,
                }),
            },
    {
        match self.handlers.get(&surface) {
            Some(handler) => Ok(handler),
            None => Err(BridgeError::MissingHandler { surface }),
        }
    }

    /// Takes the handler of the handle's surface out of the registry and
    /// returns it, if the surface still has one.
    pub fn release(&mut self, handle: HandlerHandle) -> (released: Option<H>)
        requires
            old(self).well_formed(),
        ensures
            final(self).well_formed(),
            final(self)@ == old(self)@.remove(handle.spec_surface()),
            released == (if old(self)@.contains_key(handle.spec_surface()) {
                Some(old(self)@[handle.spec_surface()])
            } else {
                None
            }),
    {
        self.handlers.remove(&handle.surface)
    }
}

} // verus!
