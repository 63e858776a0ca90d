use vstd::prelude::*;

verus! {

/// Errors the marshaling layer can raise before a native call is ever
/// attempted.  A native status code is never one of these: it is data,
/// passed back to the guest verbatim.
#[derive(Clone, Copy, Debug, PartialEq, Eq, Structural)]
pub enum MarshalError {
    /// A resolved address plus its access length exceeds the current
    /// guest memory extent.
    OutOfBounds,
    /// A required (non-nullable) guest address was zero.
    NullAddress,
    /// Call arguments did not match an adapter's declared arity or tags.
    SignatureMismatch,
}

} // verus!
