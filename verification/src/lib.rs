//! An in-process mediator: callers issue typed requests without naming the
//! component that handles them. A request type is statically paired with one
//! response type; a registry keyed by the request type's identity owns one
//! handler per request type; the mediator resolves a request to its handler,
//! runs it, and hands its result back unchanged.

use vstd::prelude::*;

mod error;
mod registry;

pub use crate::error::MediatorError;
pub use crate::registry::HandlerSlot;
pub use crate::registry::TypeMap;

use crate::registry::downcast_slot;
use crate::registry::erase_handler;
use crate::registry::handle_boxed;

verus! {

/// Declares a type to be a request whose successful handling produces a
/// value of the response type parameter; the pairing is fixed at the type's
/// definition.
///
/// `KEY` is the request type's registration identity. Distinct request types
/// must declare distinct keys: the registry stores at most one handler per
/// key. A key collision cannot reach a handler of the wrong type — recovery
/// is checked per request/response pairing and fails like a missing
/// registration — but colliding types would evict each other's handlers.
pub trait Request<TResponse>: Sized {
    /// The registration key that identifies this request type.
    const KEY: u64;
}

/// A unit of logic bound to one request/response pairing: given a request
/// value, produce the paired response or a failure. A handler may keep
/// internal mutable state across invocations; once registered, the mediator
/// owns that state.
pub trait RequestHandler<TRequest, TResponse> where TRequest: Request<TResponse> {
    /// Handles one request, either producing the paired response or
    /// reporting a failure that reaches the sender unchanged.
    fn handle(&mut self, request: TRequest) -> Result<TResponse, MediatorError>;
}

/// The entry point: owns a registry of handlers, one per request type, and
/// resolves each sent request to the handler registered for its type.
///
/// Its view is the registry's: a map from request-type key to the slot
/// holding that type's current handler.
#[derive(Debug)]
pub struct Mediator(TypeMap);

impl View for Mediator {
    type V = Map<u64, HandlerSlot>;

    closed spec fn view(&self) -> Map<u64, HandlerSlot> {
        self.0@
    }
}

/// Turns the outcome of a registry resolution into the result a sender
/// sees: when no handler was resolved, the not-registered failure; when one
/// was, exactly the value the handler's handling operation produced —
/// success or failure, passed through unmodified.
pub fn dispatch_result<TResponse>(outcome: Option<Result<TResponse, MediatorError>>) -> (r: Result<
    TResponse,
    MediatorError,
>)
    ensures
        match outcome {
            Some(produced) => r == produced,
            None => r == Result::<TResponse, MediatorError>::Err(
                MediatorError::HandlerNotRegisteredError,
            ),
        },
{
    match outcome {
        Some(produced) => produced,
        None => Err(MediatorError::HandlerNotRegisteredError),
    }
}

impl Mediator {
    /// A mediator with an empty registry: no request type has a handler.
    pub fn new() -> (r: Self)
        ensures
            r@ == Map::<u64, HandlerSlot>::empty(),
    {
        Mediator(TypeMap::new())
    }

    /// Registers `handler` for `TRequest`, replacing and discarding the
    /// handler previously registered for that type, if any. Never fails; no
    /// entry for another key is touched.
    pub fn register_handler<TRequest, TRequestHandler, TResponse>(
        &mut self,
        handler: TRequestHandler,
    ) -> (r: &mut Self) where
        TRequest: Request<TResponse> + 'static,
        TRequestHandler: RequestHandler<TRequest, TResponse> + 'static,
        TResponse: 'static,
        ensures
            exists|slot: HandlerSlot| (*r)@ == old(self)@.insert(TRequest::KEY, slot),
            *final(r) == *final(self),
    {
        let slot = erase_handler::<TRequest, TRequestHandler, TResponse>(handler);
        let ghost witness = slot;
        self.0.set(TRequest::KEY, slot);
        proof {
            assert(self@ == old(self)@.insert(TRequest::KEY, witness));
        }
        self
    }

    /// Resolves `request`'s type to its registered handler, runs it, and
    /// returns its result unchanged; when no handler is registered under the
    /// type's key — or the slot found there was registered by a colliding
    /// key under another pairing — returns the not-registered failure. Only
    /// the resolved slot is touched: every other registration stays as it
    /// was.
    pub fn send<TRequest, TResponse>(&mut self, request: TRequest) -> (r: Result<
        TResponse,
        MediatorError,
    >) where TRequest: Request<TResponse> + 'static, TResponse: 'static
        ensures
            !old(self)@.contains_key(TRequest::KEY) ==> r == Result::<
                TResponse,
                MediatorError,
            >::Err(MediatorError::HandlerNotRegisteredError) && final(self)@ == old(self)@,
            final(self)@.dom() == old(self)@.dom(),
            forall|k: u64|
                k != TRequest::KEY && old(self)@.contains_key(k) ==> final(self)@[k] == old(
                    self,
                )@[k],
    {
        let outcome: Option<Result<TResponse, MediatorError>> = match self.0.get_mut(
            TRequest::KEY,
        ) {
            Some(slot) => match downcast_slot::<TRequest, TResponse>(slot) {
                Some(handler) => Some(handle_boxed(handler, request)),
                None => None,
            },
            None => None,
        };
        dispatch_result(outcome)
    }
}

/// Law: a later registration replaces an earlier one for the same request
/// type. After registering `first` and then `second` under one key, the
/// registry is exactly what registering `second` alone would have left, and
/// only `second` is reachable under that key.
pub proof fn lemma_register_replaces(
    registry: Map<u64, HandlerSlot>,
    key: u64,
    first: HandlerSlot,
    second: HandlerSlot,
)
    ensures
        registry.insert(key, first).insert(key, second) == registry.insert(key, second),
        registry.insert(key, first).insert(key, second)[key] == second,
{
    assert(registry.insert(key, first).insert(key, second) =~= registry.insert(key, second));
}

/// Law: registrations under distinct keys do not disturb one another — in
/// whatever order two handlers were registered for two distinct request
/// types, each key still reaches exactly the slot registered under it.
pub proof fn lemma_registrations_isolated(
    registry: Map<u64, HandlerSlot>,
    key_a: u64,
    key_b: u64,
    slot_a: HandlerSlot,
    slot_b: HandlerSlot,
)
    requires
        key_a != key_b,
    ensures
        registry.insert(key_a, slot_a).insert(key_b, slot_b)[key_a] == slot_a,
        registry.insert(key_a, slot_a).insert(key_b, slot_b)[key_b] == slot_b,
{
}

} // verus!
