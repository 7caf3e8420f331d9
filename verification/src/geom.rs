//! Fixed-point geometry: coordinates and extents are integers in milli-units
//! (1000 milli-units = one world unit), so every pose and every projection
//! the sandbox computes is exact.

use vstd::prelude::*;
use crate::errors::Error;

verus! {

/// Milli-units per world unit: the fixed-point scale of every coordinate.
pub const MILLIS_PER_UNIT: i64 = 1000;

/// Largest half-extent (milli-units) a shape may carry; keeps the render
/// projection free of overflow.
pub const MAX_HALF_EXTENT: i64 = 0x10_0000;

/// Largest coordinate magnitude (milli-units) a pose may carry; keeps the
/// render projection free of overflow.
pub const MAX_COORD: i64 = 0x100_0000_0000;

/// Immutable collision-geometry descriptor. Boxes are the shape the sandbox
/// builds and draws; a ball stands for every other geometry the renderer
/// enumerates but does not draw yet.
#[derive(Clone, Copy, Debug, PartialEq, Eq, Structural)]
pub enum ShapeDesc {
    /// An axis-aligned box given by its half-extents (milli-units).
    Box { half_w: i64, half_h: i64 },
    /// A disc given by its radius (milli-units).
    Ball { radius: i64 },
}

impl ShapeDesc {
    /// A shape is well formed when its extents are positive and small enough
    /// for exact projection arithmetic.
    pub open spec fn wf(self) -> bool {
        match self {
            ShapeDesc::Box { half_w, half_h } => {
                0 < half_w <= MAX_HALF_EXTENT && 0 < half_h <= MAX_HALF_EXTENT
            },
            ShapeDesc::Ball { radius } => 0 < radius <= MAX_HALF_EXTENT,
        }
    }
}

/// The box descriptor `make_box_shape` hands out for the given half-extents.
pub open spec fn spec_box_shape(half_w: i64, half_h: i64) -> ShapeDesc {
    ShapeDesc::Box { half_w, half_h }
}

/// Builds an immutable box descriptor from its half-extents (milli-units).
/// Degenerate geometry — either extent non-positive — is rejected.
pub fn make_box_shape(half_w: i64, half_h: i64) -> (r: Result<ShapeDesc, Error>)
    requires
        half_w <= MAX_HALF_EXTENT,
        half_h <= MAX_HALF_EXTENT,
    ensures
        match r {
            Ok(s) => half_w > 0 && half_h > 0 && s == spec_box_shape(half_w, half_h) && s.wf(),
            Err(e) => (half_w <= 0 || half_h <= 0) && e == Error::NonPositiveExtent,
        },
{
    if half_w <= 0 || half_h <= 0 {
        Err(Error::NonPositiveExtent)
    } else {
        Ok(ShapeDesc::Box { half_w, half_h })
    }
}

} // verus!
