//! Fixed-point 3D points.
//!
//! A coordinate is an `i64` counting milliunits (one thousandth of a world
//! unit).  `COORD_LIMIT` bounds the coordinates the geometry works on; the
//! bound is generous (about nine trillion world units from the origin) and
//! exists only so that every sum and difference the crate computes provably
//! fits in an `i64`.

use vstd::prelude::*;

verus! {

/// Largest coordinate magnitude the geometry accepts, in milliunits.
pub const COORD_LIMIT: i64 = 0x20_0000_0000_0000;

/// A point in 3D space, coordinates in milliunits.
///
/// The ground plane is spanned by `x` and `z`; `y` is the vertical
/// (extrusion) axis.
#[derive(Clone, Copy, Debug, PartialEq, Eq, Structural)]
pub struct Point3 {
    pub x: i64,
    pub y: i64,
    pub z: i64,
}

/// A coordinate within the accepted range.
pub open spec fn coord_ok(x: int) -> bool {
    -COORD_LIMIT <= x <= COORD_LIMIT
}

/// All three coordinates within the accepted range.
pub open spec fn point_ok(p: Point3) -> bool {
    coord_ok(p.x as int) && coord_ok(p.y as int) && coord_ok(p.z as int)
}

/// A wall half-width within the accepted range.
pub open spec fn width_ok(w: int) -> bool {
    0 <= w <= COORD_LIMIT
}

} // verus!
