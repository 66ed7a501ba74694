//! The error type shared by the hypervisor's operations.

use vstd::prelude::*;

verus! {

/// Why a hypervisor operation failed.
#[derive(Clone, Copy, Debug, PartialEq, Eq, Structural)]
pub enum HyperError {
    /// Internal error.
    Internal,
    /// The operation is not supported.
    NotSupported,
    /// Page allocation is exhausted.
    NoMemory,
    /// A parameter was rejected.
    InvalidParam,
    /// An instruction could not be handled.
    InvalidInstruction,
    /// A memory access fell out of range.
    OutOfRange,
    /// An index out of its declared bounds, or an object used in the wrong state.
    BadState,
    /// A lookup found nothing at a valid index.
    NotFound,
    /// An instruction fetch failed.
    FetchFault,
    /// A page fault.
    PageFault,
    /// An instruction could not be decoded.
    DecodeError,
    /// The feature is disabled.
    Disabled,
}

/// The result of a hypervisor operation.
pub type HyperResult<T = ()> = Result<T, HyperError>;

} // verus!
