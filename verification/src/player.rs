//! The vehicle: its live state, the append-only turn ledger, and the
//! derived wall mesh buffers.
//!
//! The ledger starts with one synthetic record at the starting position and
//! grows by exactly one record per steering command; it never shrinks or
//! reorders.  The synthetic record counts as a left turn, so the
//! gap-filling rule of the segment geometry fires for the very first
//! segment: the origin is treated as a filled corner.

use vstd::prelude::*;

use crate::direction::Direction;
use crate::line::{line_match, Line};
use crate::point::{point_ok, Point3};

verus! {

/// Which way a steering command turned, independent of the resulting
/// facing.  Decides toward which side of the path the wall bulges and
/// whether the gap-filling correction fires at the corner.
#[derive(Clone, Copy, Debug, PartialEq, Eq, Structural)]
pub enum TurnDirection {
    Left,
    Right,
}

/// One record of the turn ledger: where the vehicle turned, the facing
/// *after* the turn, and which way the command turned.  Immutable once
/// created.
#[derive(Clone, Copy, Debug, PartialEq, Eq, Structural)]
pub struct Turn {
    pub pos: Point3,
    pub direction: Direction,
    pub turn_direction: TurnDirection,
}

/// The facing that the steering command `t` produces from the facing `d`.
pub open spec fn applied_direction(t: TurnDirection, d: Direction) -> Direction {
    match t {
        TurnDirection::Left => d.turn_left_spec(),
        TurnDirection::Right => d.turn_right_spec(),
    }
}

/// How the camera follows the vehicle.  The transforms themselves belong
/// to the host scene graph; this core only keeps and toggles the mode.
#[derive(Clone, Copy, Debug, PartialEq, Eq, Structural)]
pub enum CameraMode {
    Follow,
    Top,
}

/// Starting coordinates and speed, in milliunits: the vehicle starts at
/// (1000, 0.3, 1000) world units and moves 3 world units per second.
pub const START_X: i64 = 1_000_000;

pub const START_Y: i64 = 300;

pub const START_Z: i64 = 1_000_000;

pub const START_SPEED: i64 = 3_000;

/// Floor height, half-width and height of every wall segment, in
/// milliunits (0, 0.1 and 0.5 world units).
pub const WALL_Y_OFFSET: i64 = 0;

pub const WALL_HALF_WIDTH: i64 = 100;

pub const WALL_HEIGHT: i64 = 500;

/// Most turn records the mesh builder accepts; keeps every per-segment
/// vertex offset within `u32` with plenty of room.
pub const MAX_LEDGER_LEN: usize = 0x0100_0000;

pub open spec fn start_position() -> Point3 {
    Point3 { x: START_X, y: START_Y, z: START_Z }
}

/// The synthetic record the ledger starts with: the starting position,
/// facing forward, counted as a left turn so that the first segment's
/// origin corner is gap-filled.
pub open spec fn initial_turn() -> Turn {
    Turn {
        pos: start_position(),
        direction: Direction::Forward,
        turn_direction: TurnDirection::Left,
    }
}

/// The vehicle and its trail.  Entity handles for the spawned meshes and
/// the camera belong to the host scene graph, not to this core.
#[derive(Debug)]
pub struct Player {
    pub speed: i64,
    pub pos: Point3,
    pub direction: Direction,
    pub boost: bool,
    pub turn_points: Vec<Turn>,
    pub camera_mode: CameraMode,
    pub lines: Vec<Line>,
}

impl Player {
    /// The ledger invariant: it always holds at least the synthetic
    /// initial record.
    pub open spec fn wf(self) -> bool {
        self.turn_points@.len() >= 1
    }

    /// Every recorded position is within the accepted coordinate range.
    pub open spec fn turns_ok(self) -> bool {
        forall|i: int|
            0 <= i < self.turn_points@.len() ==> point_ok(#[trigger] self.turn_points@[i].pos)
    }
}

impl Default for Player {
    fn default() -> (r: Self)
        ensures
            r.speed == START_SPEED,
            r.pos == start_position(),
            r.direction == Direction::Forward,
            r.boost == false,
            r.camera_mode == CameraMode::Follow,
            r.turn_points@ == seq![initial_turn()],
            r.lines@ == Seq::<Line>::empty(),
            r.wf(),
            r.turns_ok(),
    {
        let pos = Point3 { x: START_X, y: START_Y, z: START_Z };
        let turn = Turn {
            pos,
            direction: Direction::Forward,
            turn_direction: TurnDirection::Left,
        };
        let turn_points: Vec<Turn> = vec![turn];
        proof {
            assert(turn_points@ =~= seq![initial_turn()]);
        }
        Player {
            speed: START_SPEED,
            pos,
            camera_mode: CameraMode::Follow,
            direction: Direction::Forward,
            boost: false,
            turn_points,
            lines: Vec::new(),
        }
    }
}

impl Player {
    /// Toggles between the two camera modes.
    pub fn switch_camera_mode(&mut self)
        ensures
            final(self).camera_mode == (if old(self).camera_mode == CameraMode::Follow {
                CameraMode::Top
            } else {
                CameraMode::Follow
            }),
            final(self).speed == old(self).speed,
            final(self).pos == old(self).pos,
            final(self).direction == old(self).direction,
            final(self).boost == old(self).boost,
            final(self).turn_points == old(self).turn_points,
            final(self).lines == old(self).lines,
    {
        if self.camera_mode == CameraMode::Follow {
            self.camera_mode = CameraMode::Top;
        } else {
            self.camera_mode = CameraMode::Follow;
        }
    }

    pub fn boost(&mut self)
        ensures
            final(self).boost == true,
            final(self).speed == old(self).speed,
            final(self).pos == old(self).pos,
            final(self).direction == old(self).direction,
            final(self).camera_mode == old(self).camera_mode,
            final(self).turn_points == old(self).turn_points,
            final(self).lines == old(self).lines,
    {
        self.boost = true;
    }

    pub fn stop_boost(&mut self)
        ensures
            final(self).boost == false,
            final(self).speed == old(self).speed,
            final(self).pos == old(self).pos,
            final(self).direction == old(self).direction,
            final(self).camera_mode == old(self).camera_mode,
            final(self).turn_points == old(self).turn_points,
            final(self).lines == old(self).lines,
    {
        self.boost = false;
    }

    /// A copy of the cached finalized segments, element for element.
    pub fn lines(&self) -> (r: Vec<Line>)
        ensures
            r@.len() == self.lines@.len(),
            forall|i: int| 0 <= i < r@.len() ==> line_eq(#[trigger] r@[i], self.lines@[i]),
    {
        let mut r: Vec<Line> = Vec::new();
        let mut i: usize = 0;
        while i < self.lines.len()
            invariant
                i <= self.lines@.len(),
                r@.len() == i,
                forall|j: int| 0 <= j < i ==> line_eq(#[trigger] r@[j], self.lines@[j]),
            decreases self.lines@.len() - i,
        {
            let l = &self.lines[i];
            let copied = Line {
                index: l.index,
                edge_points: l.edge_points,
                y_offset: l.y_offset,
                height: l.height,
                vertices: copy_vec(&l.vertices),
                indices: copy_vec(&l.indices),
            };
            r.push(copied);
            i = i + 1;
        }
        r
    }

    /// The record that a left steering command at the current position
    /// appends.
    pub open spec fn left_turn_record(self) -> Turn {
        Turn {
            pos: self.pos,
            direction: self.direction.turn_left_spec(),
            turn_direction: TurnDirection::Left,
        }
    }

    /// The record that a right steering command at the current position
    /// appends.
    pub open spec fn right_turn_record(self) -> Turn {
        Turn {
            pos: self.pos,
            direction: self.direction.turn_right_spec(),
            turn_direction: TurnDirection::Right,
        }
    }

    /// A left steering command: rotates the facing a quarter turn left and
    /// appends one record to the ledger.  Nothing else changes.
    pub fn turn_left(&mut self)
        ensures
            final(self).direction == old(self).direction.turn_left_spec(),
            final(self).turn_points@ == old(self).turn_points@.push(
                old(self).left_turn_record(),
            ),
            final(self).pos == old(self).pos,
            final(self).speed == old(self).speed,
            final(self).boost == old(self).boost,
            final(self).camera_mode == old(self).camera_mode,
            final(self).lines == old(self).lines,
    {
        self.direction = self.direction.turn_left();
        let turn = Turn {
            pos: self.pos,
            direction: self.direction,
            turn_direction: TurnDirection::Left,
        };
        self.turn_points.push(turn);
    }

    /// A right steering command: rotates the facing a quarter turn right
    /// and appends one record to the ledger.  Nothing else changes.
    pub fn turn_right(&mut self)
        ensures
            final(self).direction == old(self).direction.turn_right_spec(),
            final(self).turn_points@ == old(self).turn_points@.push(
                old(self).right_turn_record(),
            ),
            final(self).pos == old(self).pos,
            final(self).speed == old(self).speed,
            final(self).boost == old(self).boost,
            final(self).camera_mode == old(self).camera_mode,
            final(self).lines == old(self).lines,
    {
        self.direction = self.direction.turn_right();
        let turn = Turn {
            pos: self.pos,
            direction: self.direction,
            turn_direction: TurnDirection::Right,
        };
        self.turn_points.push(turn);
    }
}

impl Player {
    /// Advances the vehicle one tick: moves the position along the current
    /// facing by `speed * (2 if boosting, else 1) * delta_millis / 1000`
    /// milliunits, the fixed-point distance covered in `delta_millis`
    /// milliseconds.  Nothing else changes.
    pub fn drive(&mut self, delta_millis: i64)
        requires
            0 <= delta_millis,
            0 <= old(self).speed,
            old(self).speed * delta_millis * 2 <= i64::MAX,
            point_ok(old(self).pos),
        ensures
            final(self).pos.y == old(self).pos.y,
            old(self).direction == Direction::Left ==> final(self).pos.x == old(self).pos.x
                - drive_step(old(self).speed as int, old(self).boost, delta_millis as int)
                && final(self).pos.z == old(self).pos.z,
            old(self).direction == Direction::Right ==> final(self).pos.x == old(self).pos.x
                + drive_step(old(self).speed as int, old(self).boost, delta_millis as int)
                && final(self).pos.z == old(self).pos.z,
            old(self).direction == Direction::Forward ==> final(self).pos.z == old(self).pos.z
                - drive_step(old(self).speed as int, old(self).boost, delta_millis as int)
                && final(self).pos.x == old(self).pos.x,
            old(self).direction == Direction::Backward ==> final(self).pos.z == old(self).pos.z
                + drive_step(old(self).speed as int, old(self).boost, delta_millis as int)
                && final(self).pos.x == old(self).pos.x,
            final(self).direction == old(self).direction,
            final(self).speed == old(self).speed,
            final(self).boost == old(self).boost,
            final(self).camera_mode == old(self).camera_mode,
            final(self).turn_points == old(self).turn_points,
            final(self).lines == old(self).lines,
    {
        let mut delta_speed = self.speed * delta_millis;

        if self.boost {
            delta_speed = delta_speed * 2;
        }

        let step = delta_speed / 1000;

        match self.direction {
            Direction::Left => {
                self.pos.x = self.pos.x - step;
            }
            Direction::Right => {
                self.pos.x = self.pos.x + step;
            }
            Direction::Forward => {
                self.pos.z = self.pos.z - step;
            }
            Direction::Backward => {
                self.pos.z = self.pos.z + step;
            }
        }
    }

    /// The provisional end record of the active segment: the last turn's
    /// steering command re-applied to its facing, at the live position.
    pub open spec fn active_end(self) -> Turn {
        Turn {
            pos: self.pos,
            direction: applied_direction(
                self.turn_points@.last().turn_direction,
                self.turn_points@.last().direction,
            ),
            turn_direction: self.turn_points@.last().turn_direction,
        }
    }

    /// Rebuilds the not-yet-finalized segment from the last turn record to
    /// the live position.  It is recomputed every tick, never cached and
    /// never appended to the ledger, and always carries segment index 0.
    /// The canonical rule here is that the active segment uses the same
    /// half-width as every finalized segment; it is never halved at a
    /// matching corner.
    pub fn active_line(&self) -> (r: Line)
        requires
            self.wf(),
            self.turns_ok(),
            point_ok(self.pos),
        ensures
            line_match(
                r,
                0,
                self.turn_points@.last(),
                self.active_end(),
                WALL_Y_OFFSET as int,
                WALL_HALF_WIDTH as int,
                WALL_HEIGHT as int,
            ),
    {
        let len = self.turn_points.len();
        let a_turn = self.turn_points[len - 1];

        let dir = match a_turn.turn_direction {
            TurnDirection::Left => a_turn.direction.turn_left(),
            TurnDirection::Right => a_turn.direction.turn_right(),
        };

        let b_turn = Turn {
            turn_direction: a_turn.turn_direction,
            direction: dir,
            pos: self.pos,
        };

        Line::new(0, a_turn, b_turn, WALL_Y_OFFSET, WALL_HALF_WIDTH, WALL_HEIGHT)
    }

    /// Recomputes the cached segment list and returns the concatenated
    /// vertex and index buffers of all finalized segments, in ledger
    /// order: segment `i` runs from record `i` to record `i + 1`, owns
    /// vertices `8 * i` up to `8 * i + 8`, and its 30 indices point only
    /// into that block — so every index is below eight times the segment
    /// count.  Vertices are never shared across segment boundaries.  The
    /// ledger and the rest of the state are left as they were.
    pub fn get_all_vertices_and_indices(&mut self) -> (r: (Vec<Point3>, Vec<u32>))
        requires
            old(self).wf(),
            old(self).turns_ok(),
            old(self).turn_points@.len() <= MAX_LEDGER_LEN,
        ensures
            final(self).turn_points == old(self).turn_points,
            final(self).pos == old(self).pos,
            final(self).direction == old(self).direction,
            final(self).speed == old(self).speed,
            final(self).boost == old(self).boost,
            final(self).camera_mode == old(self).camera_mode,
            final(self).lines@.len() == old(self).turn_points@.len() - 1,
            forall|i: int|
                0 <= i < final(self).lines@.len() ==> line_match(
                    #[trigger] final(self).lines@[i],
                    i,
                    old(self).turn_points@[i],
                    old(self).turn_points@[i + 1],
                    WALL_Y_OFFSET as int,
                    WALL_HALF_WIDTH as int,
                    WALL_HEIGHT as int,
                ),
            r.0@.len() == 8 * (old(self).turn_points@.len() - 1),
            r.1@.len() == 30 * (old(self).turn_points@.len() - 1),
            forall|i: int|
                0 <= i < final(self).lines@.len() ==> r.0@.subrange(8 * i, 8 * i + 8)
                    == final(self).lines@[i].vertices@,
            forall|i: int|
                0 <= i < final(self).lines@.len() ==> r.1@.subrange(30 * i, 30 * i + 30)
                    == final(self).lines@[i].indices@,
            forall|k: int|
                0 <= k < r.1@.len() ==> (#[trigger] r.1@[k]) < 8 * (old(self).turn_points@.len()
                    - 1),
    {
        let len = self.turn_points.len();

        let mut total_indices: Vec<u32> = Vec::new();
        let mut total_vertices: Vec<Point3> = Vec::new();

        self.lines = Vec::new();

        let mut i: usize = 0;
        while i < len - 1
            invariant
                old(self).wf(),
                old(self).turns_ok(),
                old(self).turn_points@.len() <= MAX_LEDGER_LEN,
                len == old(self).turn_points@.len(),
                i <= len - 1,
                self.turn_points == old(self).turn_points,
                self.pos == old(self).pos,
                self.direction == old(self).direction,
                self.speed == old(self).speed,
                self.boost == old(self).boost,
                self.camera_mode == old(self).camera_mode,
                self.lines@.len() == i,
                forall|j: int|
                    0 <= j < i ==> line_match(
                        #[trigger] self.lines@[j],
                        j,
                        old(self).turn_points@[j],
                        old(self).turn_points@[j + 1],
                        WALL_Y_OFFSET as int,
                        WALL_HALF_WIDTH as int,
                        WALL_HEIGHT as int,
                    ),
                total_vertices@.len() == 8 * i,
                total_indices@.len() == 30 * i,
                forall|j: int|
                    0 <= j < i ==> total_vertices@.subrange(8 * j, 8 * j + 8)
                        == self.lines@[j].vertices@,
                forall|j: int|
                    0 <= j < i ==> total_indices@.subrange(30 * j, 30 * j + 30)
                        == self.lines@[j].indices@,
                forall|k: int| 0 <= k < total_indices@.len() ==> (#[trigger] total_indices@[k])
                    < 8 * i,
            decreases len - 1 - i,
        {
            let a_turn = self.turn_points[i];
            let b_turn = self.turn_points[i + 1];
            let l = Line::new(i, a_turn, b_turn, WALL_Y_OFFSET, WALL_HALF_WIDTH, WALL_HEIGHT);

            let ghost pre_v = total_vertices@;
            let ghost pre_i = total_indices@;
            append_copy(&mut total_vertices, &l.vertices);
            append_copy(&mut total_indices, &l.indices);
            self.lines.push(l);

            proof {
                assert forall|j: int| 0 <= j < i + 1 implies total_vertices@.subrange(
                    8 * j,
                    8 * j + 8,
                ) == self.lines@[j].vertices@ by {
                    if j < i {
                        assert(total_vertices@.subrange(8 * j, 8 * j + 8) =~= pre_v.subrange(
                            8 * j,
                            8 * j + 8,
                        ));
                    } else {
                        assert(total_vertices@.subrange(8 * j, 8 * j + 8) =~= self.lines@[j]
                            .vertices@);
                    }
                }
                assert forall|j: int| 0 <= j < i + 1 implies total_indices@.subrange(
                    30 * j,
                    30 * j + 30,
                ) == self.lines@[j].indices@ by {
                    if j < i {
                        assert(total_indices@.subrange(30 * j, 30 * j + 30) =~= pre_i.subrange(
                            30 * j,
                            30 * j + 30,
                        ));
                    } else {
                        assert(total_indices@.subrange(30 * j, 30 * j + 30) =~= self.lines@[j]
                            .indices@);
                    }
                }
                assert forall|k: int| 0 <= k < total_indices@.len() implies (
                #[trigger] total_indices@[k]) < 8 * (i + 1) by {
                    if k < 30 * i {
                        assert(total_indices@[k] == pre_i[k]);
                    } else {
                        assert(total_indices@[k] == self.lines@[i as int].indices@[k - 30 * i]);
                    }
                }
            }

            i = i + 1;
        }
        (total_vertices, total_indices)
    }
}

/// Appends a copy of every element of `src` to `dst`, in order.
fn append_copy<T: Copy>(dst: &mut Vec<T>, src: &Vec<T>)
    ensures
        final(dst)@ == old(dst)@ + src@,
{
    let mut i: usize = 0;
    while i < src.len()
        invariant
            i <= src@.len(),
            dst@ == old(dst)@ + src@.subrange(0, i as int),
        decreases src@.len() - i,
    {
        dst.push(src[i]);
        proof {
            assert((old(dst)@ + src@.subrange(0, i as int)).push(src@[i as int]) =~= old(dst)@
                + src@.subrange(0, i + 1));
        }
        i = i + 1;
    }
    proof {
        assert(old(dst)@ + src@.subrange(0, src@.len() as int) =~= old(dst)@ + src@);
    }
}

/// The fixed-point distance one tick covers: `speed` milliunits per second,
/// doubled while boosting, over `delta` milliseconds.
pub open spec fn drive_step(speed: int, boost: bool, delta: int) -> int {
    (speed * delta * (if boost {
        2int
    } else {
        1int
    })) / 1000
}

/// Two segments with equal fields and equal buffer contents.
pub open spec fn line_eq(x: Line, y: Line) -> bool {
    &&& x.index == y.index
    &&& x.edge_points == y.edge_points
    &&& x.y_offset == y.y_offset
    &&& x.height == y.height
    &&& x.vertices@ == y.vertices@
    &&& x.indices@ == y.indices@
}

/// An element-for-element copy of a vector of plain values.
fn copy_vec<T: Copy>(v: &Vec<T>) -> (r: Vec<T>)
    ensures
        r@ == v@,
{
    let mut r: Vec<T> = Vec::new();
    let mut i: usize = 0;
    while i < v.len()
        invariant
            i <= v@.len(),
            r@ == v@.subrange(0, i as int),
        decreases v@.len() - i,
    {
        r.push(v[i]);
        proof {
            assert(v@.subrange(0, i as int).push(v@[i as int]) =~= v@.subrange(0, i + 1));
        }
        i = i + 1;
    }
    proof {
        assert(v@.subrange(0, v@.len() as int) =~= v@);
    }
    r
}

/// The ledger after appending the records of `appended`, in order, to
/// `init` — one append per steering command.
pub open spec fn ledger_after(init: Seq<Turn>, appended: Seq<Turn>) -> Seq<Turn>
    decreases appended.len(),
{
    if appended.len() == 0 {
        init
    } else {
        ledger_after(init.push(appended[0]), appended.skip(1))
    }
}

/// Ledger monotonicity: a run of steering commands grows the ledger by
/// exactly one record per command, and no element at an index below the
/// earlier length ever changes value.
pub proof fn lemma_ledger_monotonicity(init: Seq<Turn>, appended: Seq<Turn>)
    ensures
        ledger_after(init, appended).len() == init.len() + appended.len(),
        forall|i: int| 0 <= i < init.len() ==> ledger_after(init, appended)[i] == init[i],
    decreases appended.len(),
{
    if appended.len() == 0 {
    } else {
        lemma_ledger_monotonicity(init.push(appended[0]), appended.skip(1));
        assert forall|i: int| 0 <= i < init.len() implies ledger_after(init, appended)[i]
            == init[i] by {
            assert(ledger_after(init, appended) == ledger_after(
                init.push(appended[0]),
                appended.skip(1),
            ));
            assert(init.push(appended[0])[i] == init[i]);
        }
    }
}

} // verus!
