use vstd::prelude::*;

verus! {

/// One of the fixed-size resources that a draw call fills.
#[derive(Clone, Copy, Debug, PartialEq, Eq, Structural)]
pub enum Region {
    Vertex,
    Index,
    Primitive,
    Atlas,
}

/// Why a renderer operation did not take place.
#[derive(Clone, Copy, Debug, PartialEq, Eq, Structural)]
pub enum PietWgpuError {
    /// The draw call needs more room in the region than is left; nothing was
    /// written.
    CapacityExceeded(Region),
    /// The device or the presentation surface failed.
    Pipeline,
}

} // verus!
