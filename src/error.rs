use vstd::prelude::*;

verus! {

/// The failures that the adapter layer reports to its caller.
#[derive(Debug, Clone, Copy, PartialEq, Eq, Structural)]
pub enum IndexError {
    /// A vector's length differs from the index's dimension.
    DimensionMismatch,
    /// An element of a host sequence cannot be read as a 32-bit float.
    InvalidElement,
    /// A metric name that the registry does not know.
    UnknownMetric,
    /// The backend refused another vector.
    CapacityExceeded,
    /// A search before the build phase that the backend needs.
    NotReadyForSearch,
    /// Persisted bytes that cannot be read back, or an I/O failure.
    SerializationFailure,
}

} // verus!
