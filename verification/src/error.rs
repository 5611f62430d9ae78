//! Error taxonomy of the core: every failure is surfaced as a typed result
//! to the immediate caller; nothing is retried or swallowed internally.

use vstd::prelude::*;

verus! {

/// A failure reported by the core.
#[derive(Debug)]
pub enum CoreError {
    /// The graphics context failed to allocate a buffer object.
    /// Carries the backend's opaque description of the failure.
    BufferCreation(String),
    /// The graphics context accumulated an error that was surfaced by the
    /// error check following an upload.
    ContextError(String),
    /// A deferred-rendering operation was invoked on a material that does
    /// not support deferred shading: a configuration error, fatal at once.
    UnsupportedOperation,
}

impl CoreError {
    /// A short description of the failure, suitable for reporting upward.
    pub fn message(&self) -> (r: String)
        ensures
            (self is BufferCreation) ==> (r@ == self->BufferCreation_0@),
            (self is ContextError) ==> (r@ == self->ContextError_0@),
    {
        match self {
            CoreError::BufferCreation(m) => m.clone(),
            CoreError::ContextError(m) => m.clone(),
            CoreError::UnsupportedOperation => {
                "operation is not supported by this material".to_owned()
            },
        }
    }
}

} // verus!
