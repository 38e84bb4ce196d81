use vstd::prelude::*;
use std::collections::HashMap;
use std::collections::hash_map::Entry;
use crate::Request;
use crate::RequestHandler;
use crate::error::MediatorError;

verus! {

broadcast use vstd::std_specs::hash::group_hash_axioms;

/// One registered handler behind its interface: a boxed `RequestHandler`
/// trait object for one fixed request/response pairing.
///
/// Trusted: Verus cannot look through `dyn`, so the box is opaque to it and
/// the forwarding `handle_boxed` below carries no contract — nothing is
/// known of a call's outcome beyond its type.
#[verifier::external_body]
#[verifier::reject_recursive_types(TRequest)]
#[verifier::reject_recursive_types(TResponse)]
pub struct BoxedHandler<TRequest, TResponse> {
    inner: Box<dyn RequestHandler<TRequest, TResponse>>,
}

/// Relies on dynamic dispatch through `RequestHandler`: forwards the
/// request to the concrete handler inside the box and returns whatever its
/// handling operation returned. Nothing is promised of the outcome: a
/// handler's behaviour is its own.
#[verifier::external_body]
pub(crate) fn handle_boxed<TRequest, TResponse>(
    handler: &mut BoxedHandler<TRequest, TResponse>,
    request: TRequest,
) -> Result<TResponse, MediatorError> where TRequest: Request<TResponse> {
    handler.inner.handle(request)
}

/// One registry entry: a `BoxedHandler` whose request/response pairing has
/// been erased as well, so that entries for unrelated request types can
/// share one store.
///
/// Trusted: the erased pairing is recorded only in the value's runtime type,
/// which Verus cannot see; `erase_handler` and `downcast_slot` below are the
/// only code that relies on what a slot holds.
#[verifier::external_body]
#[derive(Debug)]
pub struct HandlerSlot {
    inner: Box<dyn std::any::Any>,
}

/// Relies on `Box::new` and the unsizing coercions to `dyn RequestHandler`
/// and `dyn Any`: boxes a concrete handler behind its interface and erases
/// that box into an opaque slot. Nothing is promised of the result; only
/// `downcast_slot` with the same two type arguments recovers it.
#[verifier::external_body]
pub(crate) fn erase_handler<TRequest, TRequestHandler, TResponse>(
    handler: TRequestHandler,
) -> HandlerSlot where
    TRequest: Request<TResponse> + 'static,
    TRequestHandler: RequestHandler<TRequest, TResponse> + 'static,
    TResponse: 'static,
{
    HandlerSlot { inner: Box::new(BoxedHandler::<TRequest, TResponse> { inner: Box::new(handler) }) }
}

/// Relies on `Box<dyn Any>::downcast_mut`: recovers the boxed handler a
/// slot holds when — and only when — the slot was erased under exactly this
/// request/response pairing. The downcast is checked, so a slot erased
/// under any other pairing yields `None` rather than a reinterpretation.
#[verifier::external_body]
pub(crate) fn downcast_slot<'a, TRequest, TResponse>(slot: &'a mut HandlerSlot) -> Option<
    &'a mut BoxedHandler<TRequest, TResponse>,
> where TRequest: Request<TResponse> + 'static, TResponse: 'static {
    slot.inner.downcast_mut::<BoxedHandler<TRequest, TResponse>>()
}

/// The registry: an associative store from a request type's key to the one
/// handler slot currently registered for that type.
#[derive(Debug)]
pub struct TypeMap {
    map: HashMap<u64, HandlerSlot>,
}

impl View for TypeMap {
    type V = Map<u64, HandlerSlot>;

    closed spec fn view(&self) -> Map<u64, HandlerSlot> {
        self.map@
    }
}

impl TypeMap {
    /// An empty registry.
    pub fn new() -> (r: Self)
        ensures
            r@ == Map::<u64, HandlerSlot>::empty(),
    {
        TypeMap { map: HashMap::new() }
    }

    /// Stores `slot` under `key`, unconditionally replacing any slot that
    /// was registered under that key before. Never fails.
    pub fn set(&mut self, key: u64, slot: HandlerSlot)
        ensures
            final(self)@ == old(self)@.insert(key, slot),
    {
        self.map.insert(key, slot);
    }

    /// Looks `key` up: a mutable borrow of the slot registered under it, or
    /// `None` when no slot is. No other entry is touched either way.
    pub fn get_mut(&mut self, key: u64) -> (r: Option<&mut HandlerSlot>)
        ensures
            r.is_some() ==> old(self)@.contains_key(key) && *r.unwrap() == old(self)@[key]
                && final(self)@ == old(self)@.insert(key, *final(r.unwrap())),
            r.is_none() ==> !old(self)@.contains_key(key) && final(self)@ == old(self)@,
    {
        match self.map.entry(key) {
            Entry::Occupied(occupied) => Some(occupied.into_mut()),
            Entry::Vacant(_) => None,
        }
    }
}

} // verus!
