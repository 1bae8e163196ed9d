//! Failures that a registry read can end in.
use vstd::prelude::*;

verus! {

/// Why a read could not be answered.
#[derive(Clone, Copy, Debug, PartialEq, Eq, Structural)]
pub enum RegistryError {
    /// Absent at every layer that was consulted.
    NotFound,
    /// The object store failed for another reason than absence.
    UpstreamError,
    /// Link content or a manifest does not have the expected shape.
    MalformedData,
}

} // verus!
