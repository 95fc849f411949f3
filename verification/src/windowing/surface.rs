//! Surface identifiers.
use vstd::prelude::*;

verus! {

/// Identifies a surface within one event loop. Never zero.
#[derive(Debug, Clone, Copy, PartialEq, Eq, Hash, Structural)]
pub struct SurfaceId(pub u64);

impl SurfaceId {
    /// The surface with this number.
    pub fn from_nonzero(n: u64) -> (r: Self)
        requires
            n != 0,
        ensures
            r == SurfaceId(n),
    {
        SurfaceId(n)
    }
}

} // verus!
