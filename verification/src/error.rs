use vstd::prelude::*;
use vstd::string::StringExecFns;

verus! {

/// A failure reported to the caller of `Mediator::send`.
///
/// The two kinds keep one uniform failure channel: the mediator's own
/// resolution failure, and any failure a handler chose to report, which the
/// mediator passes through without inspecting or wrapping it.
#[derive(Debug, PartialEq, Eq)]
pub enum MediatorError {
    /// No handler is registered for the request type that was sent.
    /// Register a handler for that type before sending it.
    HandlerNotRegisteredError,
    /// A failure produced by the handler itself; the text is the handler's
    /// own and reaches the caller unchanged.
    HandlerError(String),
}

impl MediatorError {
    /// A human-readable description of the failure.
    pub fn message(&self) -> (r: String)
        ensures
            match self {
                MediatorError::HandlerNotRegisteredError => r@ == "Handler not registered"@,
                MediatorError::HandlerError(m) => r@ == m@,
            },
    {
        match self {
            MediatorError::HandlerNotRegisteredError => String::from_str("Handler not registered"),
            MediatorError::HandlerError(m) => m.clone(),
        }
    }
}

} // verus!
