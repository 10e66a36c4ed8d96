//! Antialiasing strategies for triangle primitives.
use vstd::prelude::*;

verus! {

/// Technique used to smooth the edges of triangle primitives during
/// rasterization.
#[derive(Clone, Copy, Debug, PartialEq, Eq, Structural)]
pub enum Antialiasing {
    /// Multisample antialiasing with 2 samples.
    MSAAx2,
    /// Multisample antialiasing with 4 samples.
    MSAAx4,
    /// Multisample antialiasing with 8 samples.
    MSAAx8,
    /// Multisample antialiasing with 16 samples.
    MSAAx16,
}

} // verus!
