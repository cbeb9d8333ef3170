//! Wall segments: corner-offset geometry, mesh buffers, and the hit test.
//!
//! A segment is derived from two adjacent turn records `a` and `b` plus the
//! wall half-width `w`.  Its four ground-plane corners are `a` and `b` on
//! the centerline and `c` and `d`, the same two points offset sideways by
//! `w`.  When the corner at `a` was a left turn, `a` and `c` are nudged by
//! `w` once more so that the segment meets the previous one without a seam
//! (the gap-filling rule).  A segment extrudes vertically into 8 vertices
//! and a fixed pattern of 30 triangle indices.

use vstd::prelude::*;

use crate::direction::Direction;
use crate::player::{Turn, TurnDirection};
use crate::point::{coord_ok, point_ok, width_ok, Point3, COORD_LIMIT};

verus! {

/// Tolerance added outward on all four sides by the hit test, in
/// milliunits (0.05 world units).
pub const HIT_BUFFER: i64 = 50;

/// The four ground-plane corners of one wall segment.
///
/// `a` and `b` lie on (or, for `a`, at most one gap-fill nudge away from)
/// the vehicle's centerline; `c` and `d` are their sideways offsets.
#[derive(Clone, Copy, Debug, PartialEq, Eq, Structural)]
pub struct EdgePoints {
    pub a: Point3,
    pub b: Point3,
    pub c: Point3,
    pub d: Point3,
}

/// Sign of the sideways offset along X applied to corners `c` and `d`,
/// as a function of the segment's end record `b` alone.
pub open spec fn side_dx(b: Turn) -> int {
    if b.turn_direction == TurnDirection::Right {
        match b.direction {
            Direction::Left => -1,
            Direction::Right => 1,
            Direction::Forward => 0,
            Direction::Backward => 0,
        }
    } else {
        match b.direction {
            Direction::Left => 1,
            Direction::Right => -1,
            Direction::Forward => 0,
            Direction::Backward => 0,
        }
    }
}

/// Sign of the sideways offset along Z applied to corners `c` and `d`.
pub open spec fn side_dz(b: Turn) -> int {
    if b.turn_direction == TurnDirection::Right {
        match b.direction {
            Direction::Left => 0,
            Direction::Right => 0,
            Direction::Forward => -1,
            Direction::Backward => 1,
        }
    } else {
        match b.direction {
            Direction::Left => 0,
            Direction::Right => 0,
            Direction::Forward => 1,
            Direction::Backward => -1,
        }
    }
}

/// Sign of the gap-filling nudge along X applied to corners `a` and `c`.
/// Zero unless the corner at `a` was a left turn.
pub open spec fn gap_dx(a: Turn, b: Turn) -> int {
    if a.turn_direction != TurnDirection::Left {
        0
    } else if b.turn_direction == TurnDirection::Right {
        match b.direction {
            Direction::Left => 0,
            Direction::Right => 0,
            Direction::Forward => 1,
            Direction::Backward => -1,
        }
    } else {
        match b.direction {
            Direction::Left => 0,
            Direction::Right => 0,
            Direction::Forward => -1,
            Direction::Backward => 1,
        }
    }
}

/// Sign of the gap-filling nudge along Z applied to corners `a` and `c`.
pub open spec fn gap_dz(a: Turn, b: Turn) -> int {
    if a.turn_direction != TurnDirection::Left {
        0
    } else if b.turn_direction == TurnDirection::Right {
        match b.direction {
            Direction::Left => -1,
            Direction::Right => 1,
            Direction::Forward => 0,
            Direction::Backward => 0,
        }
    } else {
        match b.direction {
            Direction::Left => 1,
            Direction::Right => -1,
            Direction::Forward => 0,
            Direction::Backward => 0,
        }
    }
}

/// The exact corner points of the segment from record `a` to record `b`
/// with half-width `w`: `r.b` and `r.d` are never nudged by the gap fill,
/// `r.a` and `r.c` are nudged exactly when `a.turn_direction` is `Left`.
pub open spec fn edge_points_match(r: EdgePoints, a: Turn, b: Turn, w: int) -> bool {
    &&& r.a.x == a.pos.x + gap_dx(a, b) * w
    &&& r.a.y == a.pos.y
    &&& r.a.z == a.pos.z + gap_dz(a, b) * w
    &&& r.b == b.pos
    &&& r.c.x == a.pos.x + side_dx(b) * w + gap_dx(a, b) * w
    &&& r.c.y == a.pos.y
    &&& r.c.z == a.pos.z + side_dz(b) * w + gap_dz(a, b) * w
    &&& r.d.x == b.pos.x + side_dx(b) * w
    &&& r.d.y == b.pos.y
    &&& r.d.z == b.pos.z + side_dz(b) * w
}

/// A corner coordinate: an in-range coordinate moved by at most two
/// half-width offsets.
pub open spec fn corner_coord_ok(x: int) -> bool {
    -3 * COORD_LIMIT <= x <= 3 * COORD_LIMIT
}

pub open spec fn corner_ok(p: Point3) -> bool {
    corner_coord_ok(p.x as int) && corner_coord_ok(p.y as int) && corner_coord_ok(p.z as int)
}

pub open spec fn edge_points_ok(e: EdgePoints) -> bool {
    corner_ok(e.a) && corner_ok(e.b) && corner_ok(e.c) && corner_ok(e.d)
}

/// Turns two consecutive turn records and the wall half-width into the four
/// corner points of the wall segment between them.
///
/// Corners `c` and `d` are offset sideways from `a` and `b` by `width`,
/// toward the side given by `b`'s facing and convexity; when the corner at
/// `a` was a left turn, `a` and `c` are additionally nudged by `width` to
/// fill the mitre gap against the previous segment.  `b` and `d` are never
/// nudged.
pub fn calculate_edge_points(a_turn: &Turn, b_turn: &Turn, width: i64) -> (r: EdgePoints)
    requires
        point_ok(a_turn.pos),
        point_ok(b_turn.pos),
        width_ok(width as int),
    ensures
        edge_points_match(r, *a_turn, *b_turn, width as int),
        edge_points_ok(r),
{
    let mut a = a_turn.pos;
    let b = b_turn.pos;
    let mut c = a;
    let mut d = b;

    let w = width;

    if b_turn.turn_direction == TurnDirection::Right {
        match b_turn.direction {
            Direction::Left => {
                c.x = c.x - w;
                d.x = d.x - w;
            }
            Direction::Right => {
                c.x = c.x + w;
                d.x = d.x + w;
            }
            Direction::Forward => {
                c.z = c.z - w;
                d.z = d.z - w;
            }
            Direction::Backward => {
                c.z = c.z + w;
                d.z = d.z + w;
            }
        }

        if a_turn.turn_direction == TurnDirection::Left {
            match b_turn.direction {
                Direction::Left => {
                    a.z = a.z - w;
                    c.z = c.z - w;
                }
                Direction::Right => {
                    a.z = a.z + w;
                    c.z = c.z + w;
                }
                Direction::Forward => {
                    a.x = a.x + w;
                    c.x = c.x + w;
                }
                Direction::Backward => {
                    a.x = a.x - w;
                    c.x = c.x - w;
                }
            }
        }
    } else {
        match b_turn.direction {
            Direction::Left => {
                c.x = c.x + w;
                d.x = d.x + w;
            }
            Direction::Right => {
                c.x = c.x - w;
                d.x = d.x - w;
            }
            Direction::Forward => {
                c.z = c.z + w;
                d.z = d.z + w;
            }
            Direction::Backward => {
                c.z = c.z - w;
                d.z = d.z - w;
            }
        }

        if a_turn.turn_direction == TurnDirection::Left {
            match b_turn.direction {
                Direction::Left => {
                    a.z = a.z + w;
                    c.z = c.z + w;
                }
                Direction::Right => {
                    a.z = a.z - w;
                    c.z = c.z - w;
                }
                Direction::Forward => {
                    a.x = a.x - w;
                    c.x = c.x - w;
                }
                Direction::Backward => {
                    a.x = a.x + w;
                    c.x = c.x + w;
                }
            }
        }
    }
    EdgePoints { a, b, c, d }
}

/// `v` is the corner `p` lifted to height `y`.
pub open spec fn vertex_match(v: Point3, p: Point3, y: int) -> bool {
    v.x == p.x && v.y == y && v.z == p.z
}

/// The fixed vertex layout of one segment: two vertices per corner (floor
/// and floor plus height), in the order a, b, c, d.
pub open spec fn vertices_match(vs: Seq<Point3>, e: EdgePoints, y: int, h: int) -> bool {
    &&& vs.len() == 8
    &&& vertex_match(vs[0], e.a, y)
    &&& vertex_match(vs[1], e.a, y + h)
    &&& vertex_match(vs[2], e.b, y)
    &&& vertex_match(vs[3], e.b, y + h)
    &&& vertex_match(vs[4], e.c, y)
    &&& vertex_match(vs[5], e.c, y + h)
    &&& vertex_match(vs[6], e.d, y)
    &&& vertex_match(vs[7], e.d, y + h)
}

/// Emits the 8 vertices of one segment: floor and roof vertex for each of
/// the four corners, in the fixed order a, b, c, d.
pub fn generate_vertices(edge_points: &EdgePoints, y_offset: i64, height: i64) -> (r: Vec<Point3>)
    requires
        edge_points_ok(*edge_points),
        coord_ok(y_offset as int),
        coord_ok(height as int),
    ensures
        vertices_match(r@, *edge_points, y_offset as int, height as int),
{
    let y = y_offset;
    let h = height;
    let a = edge_points.a;
    let b = edge_points.b;
    let c = edge_points.c;
    let d = edge_points.d;

    let r: Vec<Point3> = vec![
        Point3 { x: a.x, y, z: a.z },
        Point3 { x: a.x, y: y + h, z: a.z },
        Point3 { x: b.x, y, z: b.z },
        Point3 { x: b.x, y: y + h, z: b.z },
        Point3 { x: c.x, y, z: c.z },
        Point3 { x: c.x, y: y + h, z: c.z },
        Point3 { x: d.x, y, z: d.z },
        Point3 { x: d.x, y: y + h, z: d.z },
    ];
    r
}

/// The fixed index pattern of one segment, before the per-segment offset:
/// ten triangles covering the two long side walls, the two short end walls
/// and the top cap — no bottom cap.
pub open spec fn index_pattern() -> Seq<u32> {
    seq![
        0u32, 1, 2, 3, 2, 1, 6, 5, 4, 5, 6, 7, 0, 4, 5, 5, 1, 0, 7, 6, 2, 2, 3, 7, 5, 3, 1, 3, 5,
        7,
    ]
}

/// The 30 indices of the segment at position `index`: the fixed pattern,
/// offset by 8 times the segment index.  They point only into the
/// segment's own block of 8 vertices.
pub open spec fn indices_match(s: Seq<u32>, index: int) -> bool {
    &&& s.len() == 30
    &&& forall|i: int| 0 <= i < 30 ==> s[i] == index_pattern()[i] + 8 * index
    &&& forall|i: int| 0 <= i < 30 ==> 8 * index <= #[trigger] s[i] < 8 * index + 8
}

/// Emits the 30 triangle indices of the segment at position `index`: the
/// fixed pattern plus `8 * index`, since each segment owns a disjoint block
/// of 8 vertices.
pub fn generate_indices(index: u32) -> (r: Vec<u32>)
    requires
        8 * index + 7 <= u32::MAX,
    ensures
        indices_match(r@, index as int),
{
    let o = 8 * index;
    let r: Vec<u32> = vec![
        o,
        o + 1,
        o + 2,
        o + 3,
        o + 2,
        o + 1,
        o + 6,
        o + 5,
        o + 4,
        o + 5,
        o + 6,
        o + 7,
        o,
        o + 4,
        o + 5,
        o + 5,
        o + 1,
        o,
        o + 7,
        o + 6,
        o + 2,
        o + 2,
        o + 3,
        o + 7,
        o + 5,
        o + 3,
        o + 1,
        o + 3,
        o + 5,
        o + 7,
    ];
    r
}

/// One finalized (or active) wall segment together with its cached mesh
/// buffers.  Derived from two adjacent turn records; the buffers are
/// computed once at construction and never change afterwards.
#[derive(Clone, Debug)]
pub struct Line {
    pub index: usize,
    pub edge_points: EdgePoints,
    pub y_offset: i64,
    pub height: i64,
    pub vertices: Vec<Point3>,
    pub indices: Vec<u32>,
}

/// `l` is exactly the segment at position `index` derived from the records
/// `a` and `b` with half-width `w`, floor height `y` and wall height `h`.
pub open spec fn line_match(l: Line, index: int, a: Turn, b: Turn, y: int, w: int, h: int) -> bool {
    &&& l.index == index
    &&& l.y_offset == y
    &&& l.height == h
    &&& edge_points_match(l.edge_points, a, b, w)
    &&& edge_points_ok(l.edge_points)
    &&& vertices_match(l.vertices@, l.edge_points, y, h)
    &&& indices_match(l.indices@, index)
}

impl Line {
    /// Builds the segment at position `index` between the adjacent turn
    /// records `a` and `b`, with its 8 vertices and 30 indices.
    pub fn new(index: usize, a: Turn, b: Turn, y_offset: i64, width: i64, height: i64) -> (r: Line)
        requires
            point_ok(a.pos),
            point_ok(b.pos),
            width_ok(width as int),
            coord_ok(y_offset as int),
            coord_ok(height as int),
            8 * index + 7 <= u32::MAX,
        ensures
            line_match(r, index as int, a, b, y_offset as int, width as int, height as int),
    {
        let edge_points = calculate_edge_points(&a, &b, width);
        Line {
            vertices: generate_vertices(&edge_points, y_offset, height),
            indices: generate_indices(index as u32),
            edge_points,
            y_offset,
            height,
            index,
        }
    }

    /// Whether `pos` lies inside the axis-aligned bounding rectangle of the
    /// segment's four corners on the ground plane, expanded outward by
    /// `HIT_BUFFER` on all four sides.  The vertical extent is not checked.
    /// Segments are axis-aligned rectangles, so the bounding rectangle is
    /// the segment's exact footprint.
    pub fn is_hit(&self, pos: &Point3) -> (r: bool)
        requires
            edge_points_ok(self.edge_points),
            point_ok(*pos),
        ensures
            r == hit_spec(self.edge_points, *pos),
    {
        let a = self.edge_points.a;
        let b = self.edge_points.b;
        let c = self.edge_points.c;
        let d = self.edge_points.d;

        let min_x = min2(min2(a.x, b.x), min2(c.x, d.x));
        let max_x = max2(max2(a.x, b.x), max2(c.x, d.x));
        let min_z = min2(min2(a.z, b.z), min2(c.z, d.z));
        let max_z = max2(max2(a.z, b.z), max2(c.z, d.z));

        let min_px = pos.x - min_x;
        let min_pz = pos.z - min_z;

        let max_px = pos.x - max_x;
        let max_pz = pos.z - max_z;

        min_px > -HIT_BUFFER && min_pz > -HIT_BUFFER && max_px < HIT_BUFFER && max_pz < HIT_BUFFER
    }
}

/// Smallest ground-plane X over the four corners.
pub open spec fn min_corner_x(e: EdgePoints) -> int {
    vstd::math::min(
        vstd::math::min(e.a.x as int, e.b.x as int),
        vstd::math::min(e.c.x as int, e.d.x as int),
    )
}

pub open spec fn max_corner_x(e: EdgePoints) -> int {
    vstd::math::max(
        vstd::math::max(e.a.x as int, e.b.x as int),
        vstd::math::max(e.c.x as int, e.d.x as int),
    )
}

pub open spec fn min_corner_z(e: EdgePoints) -> int {
    vstd::math::min(
        vstd::math::min(e.a.z as int, e.b.z as int),
        vstd::math::min(e.c.z as int, e.d.z as int),
    )
}

pub open spec fn max_corner_z(e: EdgePoints) -> int {
    vstd::math::max(
        vstd::math::max(e.a.z as int, e.b.z as int),
        vstd::math::max(e.c.z as int, e.d.z as int),
    )
}

/// `p` lies strictly inside the corners' bounding rectangle expanded by
/// `HIT_BUFFER` on all four sides.
pub open spec fn hit_spec(e: EdgePoints, p: Point3) -> bool {
    &&& p.x - min_corner_x(e) > -HIT_BUFFER
    &&& p.z - min_corner_z(e) > -HIT_BUFFER
    &&& p.x - max_corner_x(e) < HIT_BUFFER
    &&& p.z - max_corner_z(e) < HIT_BUFFER
}

fn min2(a: i64, b: i64) -> (r: i64)
    ensures
        r as int == vstd::math::min(a as int, b as int),
{
    if a <= b {
        a
    } else {
        b
    }
}

fn max2(a: i64, b: i64) -> (r: i64)
    ensures
        r as int == vstd::math::max(a as int, b as int),
{
    if a >= b {
        a
    } else {
        b
    }
}

/// The hit test is membership in the corners' bounding rectangle expanded
/// by the tolerance: a position registers a hit exactly when each ground
/// coordinate lies strictly within the corner extent widened by
/// `HIT_BUFFER` on both sides.
pub proof fn lemma_hit_is_rectangle_membership(e: EdgePoints, p: Point3)
    ensures
        hit_spec(e, p) <==> {
            &&& min_corner_x(e) - HIT_BUFFER < p.x < max_corner_x(e) + HIT_BUFFER
            &&& min_corner_z(e) - HIT_BUFFER < p.z < max_corner_z(e) + HIT_BUFFER
        },
{
}

/// Segments are axis-aligned rectangles, so their bounding rectangle — what
/// the hit test checks — is their exact footprint.  When the end record
/// faces along X, the side offset runs along X and the gap fill along Z, so
/// whenever the two records share their X coordinate the four corners pair
/// up on two X values and two Z values; symmetrically for a Z facing.
pub proof fn lemma_segment_axis_aligned(a: Turn, b: Turn, e: EdgePoints, w: int)
    requires
        edge_points_match(e, a, b, w),
    ensures
        (b.direction == Direction::Left || b.direction == Direction::Right) && a.pos.x == b.pos.x
            ==> e.a.x == e.b.x && e.c.x == e.d.x && e.a.z == e.c.z && e.b.z == e.d.z,
        (b.direction == Direction::Forward || b.direction == Direction::Backward) && a.pos.z
            == b.pos.z ==> e.a.z == e.b.z && e.c.z == e.d.z && e.a.x == e.c.x && e.b.x == e.d.x,
{
}

/// Corner continuity: where the gap-filling rule fires — the shared record
/// `b` of two consecutive segments was a left turn — the nudged start
/// corner `a` of the later segment lands exactly on the offset end corner
/// `d` of the earlier one, so the rendered wall has no seam there.
///
/// `c.direction` must be the facing that `c`'s steering command produces
/// from `b`'s facing, as it always is for adjacent records of the ledger.
pub proof fn lemma_corner_continuity(a: Turn, b: Turn, c: Turn, e1: EdgePoints, e2: EdgePoints, w: int)
    requires
        b.turn_direction == TurnDirection::Left,
        c.direction == crate::player::applied_direction(c.turn_direction, b.direction),
        edge_points_match(e1, a, b, w),
        edge_points_match(e2, b, c, w),
    ensures
        e2.a == e1.d,
{
}

} // verus!
