use vstd::prelude::*;

verus! {

/// The reasons for which an operation on a codec is refused or fails.
#[derive(Debug, PartialEq, Eq, Clone, Copy, Structural)]
pub enum Exception {
    /// The configuration is malformed.
    TypeError,
    /// The operation is not valid in the present lifecycle state, or the
    /// backend it needs is absent.
    InvalidStateError,
    /// The backend does not offer the requested codec.
    NotSupportedError,
    /// The backend or a lock failed unexpectedly.
    InternalError,
    /// The data was refused: by the key-chunk gate or by the backend.
    DecodeError,
    /// Reserved for cancellation.
    AbortError,
}

} // verus!
