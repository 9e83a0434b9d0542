use vstd::prelude::*;

verus! {

/// The ways in which generating or meshing a chunk can fail.
#[derive(Debug, Clone, Copy, PartialEq, Eq, Structural)]
pub enum VoxelError {
    /// A grid query fell outside `[0, CHUNK_SIZE)` on at least one axis.
    OutOfBounds,
    /// A mesh would need more vertices or indices than a 16-bit index buffer can address.
    IndexOverflow,
    /// The density field produced a value that is not a finite number.
    NoiseDomainError,
}

} // verus!
