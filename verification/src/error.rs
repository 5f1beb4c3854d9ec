//! The ways in which a kernel refuses its input or its own result.

use vstd::prelude::*;

verus! {

/// Why a kernel call did not produce masses.
#[derive(Clone, Copy, Debug, PartialEq, Eq, Structural)]
pub enum KernelError {
    /// The arrays of one call do not all have the same length.
    InvalidInput,
    /// The quantity of the star at `index` is not strictly positive, so a
    /// formula would divide by zero or by something without meaning.
    NonPhysicalInput { index: usize },
    /// The star at `index` would leave the kernel with a mass that is not
    /// strictly positive, or was already above the ceiling it is cut to.
    PhysicalInvariantViolation { index: usize },
}

} // verus!
