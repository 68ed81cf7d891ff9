use vstd::prelude::*;

verus! {

/// The failure taxonomy of the store.
///
/// Every operation is synchronous and fail-fast: an error is returned to the
/// immediate caller and no retry is attempted inside the store.
#[derive(Clone, Copy, PartialEq, Eq, Debug, Structural)]
pub enum StoreError {
    /// A required handle is missing, or nothing was registered to remove.
    InvalidArgument,
    /// A lock was requested while no observer is registered to be told of it.
    Unexpected,
    /// A read or write was attempted without the required lock held.
    NoLock,
    /// The capability is deliberately unsupported by this store.
    NotImplemented,
    /// The session-cookie relay found no receiver on the application side.
    DeliveryFailed,
    /// The capability query named an interface this object does not satisfy.
    UnsupportedInterface,
}

} // verus!
