//! An exact kernel: translations on the integer lattice.
//!
//! Positions, displacements and normals are lattice cells, boxes are
//! blocks of cells, and a transform shifts by a fixed offset. A
//! coordinate that would leave the range of `i64` stays at the end of
//! the range. A keyframe's pose is its offset; between two keyframes
//! each coordinate moves in proportion to the time that has passed,
//! rounded towards the earlier keyframe.

use crate::geometry::BoundingBox;
use crate::linalg::{Keyframe, Ray, Transform};
use vstd::prelude::*;

verus! {

/// An integer kept within the range of `i64`.
pub open spec fn clamped(v: int) -> i64 {
    if v > i64::MAX {
        i64::MAX
    } else if v < i64::MIN {
        i64::MIN
    } else {
        v as i64
    }
}

/// A coordinate on the way from `a` to `b`, as far along as `time` is
/// from `t0` to `t1`. Before `t0` it is `a`, after `t1` it is `b`.
pub open spec fn blend(a: i64, b: i64, time: i64, t0: i64, t1: i64) -> int {
    if time <= t0 {
        a as int
    } else if time > t1 {
        b as int
    } else if a <= b {
        a + ((b - a) * (time - t0)) / (t1 - t0)
    } else {
        a - ((a - b) * (time - t0)) / (t1 - t0)
    }
}

/// A blended coordinate lies between the two it is blended from, and
/// is the second of them at the later instant.
pub proof fn blend_between(a: i64, b: i64, time: i64, t0: i64, t1: i64)
    requires
        t0 < t1,
    ensures
        a <= b ==> a <= blend(a, b, time, t0, t1) <= b,
        b <= a ==> b <= blend(a, b, time, t0, t1) <= a,
        blend(a, b, t1, t0, t1) == b,
{
    let span: int = if a <= b {
        b - a
    } else {
        a - b
    };
    let whole: int = t1 - t0;
    if t0 < time <= t1 {
        let part: int = time - t0;
        assert(0 <= (span * part) / whole <= span) by (nonlinear_arith)
            requires
                0 <= span,
                0 < part <= whole,
        ;
    }
    assert((span * whole) / whole == span) by (nonlinear_arith)
        requires
            0 < whole,
    ;
}

/// Adds two coordinates, staying within the range.
fn add_clamped(a: i64, b: i64) -> (r: i64)
    ensures
        r == clamped(a + b),
{
    let sum: i128 = a as i128 + b as i128;
    if sum > i64::MAX as i128 {
        i64::MAX
    } else if sum < i64::MIN as i128 {
        i64::MIN
    } else {
        sum as i64
    }
}

/// Subtracts a coordinate from another, staying within the range.
fn sub_clamped(a: i64, b: i64) -> (r: i64)
    ensures
        r == clamped(a - b),
{
    let difference: i128 = a as i128 - b as i128;
    if difference > i64::MAX as i128 {
        i64::MAX
    } else if difference < i64::MIN as i128 {
        i64::MIN
    } else {
        difference as i64
    }
}

/// Blends one coordinate of two keyframes.
fn blend_coordinate(a: i64, b: i64, time: i64, t0: i64, t1: i64) -> (r: i64)
    requires
        t0 < time <= t1,
    ensures
        r == blend(a, b, time, t0, t1),
{
    proof {
        blend_between(a, b, time, t0, t1);
    }
    let part: u128 = (time as i128 - t0 as i128) as u128;
    let whole: u128 = (t1 as i128 - t0 as i128) as u128;
    if a <= b {
        let span: u128 = (b as i128 - a as i128) as u128;
        assert(span * part <= 0xffff_ffff_ffff_ffff * 0xffff_ffff_ffff_ffff) by (nonlinear_arith)
            requires
                0 <= span <= 0xffff_ffff_ffff_ffff,
                0 <= part <= 0xffff_ffff_ffff_ffff,
        ;
        let step: u128 = (span * part) / whole;
        (a as i128 + step as i128) as i64
    } else {
        let span: u128 = (a as i128 - b as i128) as u128;
        assert(span * part <= 0xffff_ffff_ffff_ffff * 0xffff_ffff_ffff_ffff) by (nonlinear_arith)
            requires
                0 <= span <= 0xffff_ffff_ffff_ffff,
                0 <= part <= 0xffff_ffff_ffff_ffff,
        ;
        let step: u128 = (span * part) / whole;
        (a as i128 - step as i128) as i64
    }
}

/// A cell of the lattice, or the displacement from one cell to
/// another.
#[derive(Clone, Copy, Debug, PartialEq, Eq, Structural)]
pub struct Cell {
    /// The first coordinate.
    pub x: i64,
    /// The second coordinate.
    pub y: i64,
    /// The third coordinate.
    pub z: i64,
}

impl Cell {
    /// The cell that lies `by` further, within the range.
    pub open spec fn plus(self, by: Cell) -> Cell {
        Cell { x: clamped(self.x + by.x), y: clamped(self.y + by.y), z: clamped(self.z + by.z) }
    }

    /// The cell that lies `by` back, within the range.
    pub open spec fn minus(self, by: Cell) -> Cell {
        Cell { x: clamped(self.x - by.x), y: clamped(self.y - by.y), z: clamped(self.z - by.z) }
    }

    /// Makes a cell from its coordinates.
    pub fn new(x: i64, y: i64, z: i64) -> (r: Cell)
        ensures
            r == (Cell { x, y, z }),
    {
        Cell { x, y, z }
    }

    /// Moves the cell by a displacement.
    pub fn shifted(&self, by: &Cell) -> (r: Cell)
        ensures
            r == self.plus(*by),
    {
        Cell {
            x: add_clamped(self.x, by.x),
            y: add_clamped(self.y, by.y),
            z: add_clamped(self.z, by.z),
        }
    }

    /// Moves the cell back by a displacement.
    pub fn shifted_back(&self, by: &Cell) -> (r: Cell)
        ensures
            r == self.minus(*by),
    {
        Cell {
            x: sub_clamped(self.x, by.x),
            y: sub_clamped(self.y, by.y),
            z: sub_clamped(self.z, by.z),
        }
    }
}

/// A block of cells: those whose coordinates lie from `min` to `max`.
/// Where a coordinate of `min` is above that of `max`, the block
/// holds no cell.
#[derive(Clone, Copy, Debug, PartialEq, Eq, Structural)]
pub struct Block {
    /// The least corner.
    pub min: Cell,
    /// The greatest corner.
    pub max: Cell,
}

impl Block {
    /// Whether the block holds no cell.
    pub open spec fn is_empty(self) -> bool {
        self.min.x > self.max.x || self.min.y > self.max.y || self.min.z > self.max.z
    }

    /// Whether the block holds a cell.
    pub open spec fn holds(self, c: Cell) -> bool {
        &&& self.min.x <= c.x <= self.max.x
        &&& self.min.y <= c.y <= self.max.y
        &&& self.min.z <= c.z <= self.max.z
    }
}

impl BoundingBox for Block {
    open spec fn empty_spec() -> Block {
        Block {
            min: Cell { x: i64::MAX, y: i64::MAX, z: i64::MAX },
            max: Cell { x: i64::MIN, y: i64::MIN, z: i64::MIN },
        }
    }

    open spec fn union_spec(self, other: Block) -> Block {
        Block {
            min: Cell {
                x: if self.min.x <= other.min.x { self.min.x } else { other.min.x },
                y: if self.min.y <= other.min.y { self.min.y } else { other.min.y },
                z: if self.min.z <= other.min.z { self.min.z } else { other.min.z },
            },
            max: Cell {
                x: if self.max.x >= other.max.x { self.max.x } else { other.max.x },
                y: if self.max.y >= other.max.y { self.max.y } else { other.max.y },
                z: if self.max.z >= other.max.z { self.max.z } else { other.max.z },
            },
        }
    }

    open spec fn encloses(self, other: Block) -> bool {
        other.is_empty() || {
            &&& self.min.x <= other.min.x && other.max.x <= self.max.x
            &&& self.min.y <= other.min.y && other.max.y <= self.max.y
            &&& self.min.z <= other.min.z && other.max.z <= self.max.z
        }
    }

    proof fn encloses_reflexive(a: Block) {
    }

    proof fn encloses_transitive(a: Block, b: Block, c: Block) {
    }

    proof fn union_encloses(a: Block, b: Block) {
    }

    fn empty() -> (r: Block) {
        Block {
            min: Cell { x: i64::MAX, y: i64::MAX, z: i64::MAX },
            max: Cell { x: i64::MIN, y: i64::MIN, z: i64::MIN },
        }
    }

    fn box_union(&self, other: &Block) -> (r: Block) {
        Block {
            min: Cell {
                x: if self.min.x <= other.min.x { self.min.x } else { other.min.x },
                y: if self.min.y <= other.min.y { self.min.y } else { other.min.y },
                z: if self.min.z <= other.min.z { self.min.z } else { other.min.z },
            },
            max: Cell {
                x: if self.max.x >= other.max.x { self.max.x } else { other.max.x },
                y: if self.max.y >= other.max.y { self.max.y } else { other.max.y },
                z: if self.max.z >= other.max.z { self.max.z } else { other.max.z },
            },
        }
    }
}

/// What encloses a block holds every cell that the block holds.
pub proof fn enclosing_block_holds(a: Block, b: Block, c: Cell)
    requires
        a.encloses(b),
        b.holds(c),
    ensures
        a.holds(c),
{
}

/// The transform that moves every cell by one offset.
#[derive(Clone, Copy, Debug, PartialEq, Eq, Structural)]
pub struct Shift {
    /// The displacement of every cell.
    pub offset: Cell,
}

impl Transform for Shift {
    type Scalar = i64;

    type Point = Cell;

    type Vector = Cell;

    type Normal = Cell;

    type BBox = Block;

    type Pose = Cell;

    open spec fn identity_spec() -> Shift {
        Shift { offset: Cell { x: 0, y: 0, z: 0 } }
    }

    open spec fn compose_spec(self, inner: Shift) -> Shift {
        Shift { offset: inner.offset.plus(self.offset) }
    }

    open spec fn point_spec(self, p: Cell) -> Cell {
        p.plus(self.offset)
    }

    open spec fn vector_spec(self, v: Cell) -> Cell {
        v
    }

    open spec fn normal_spec(self, n: Cell) -> Cell {
        n
    }

    open spec fn box_spec(self, b: Block) -> Block {
        Block { min: b.min.plus(self.offset), max: b.max.plus(self.offset) }
    }

    open spec fn inv_ray_spec(self, ray: Ray<Cell, Cell, i64>) -> Ray<Cell, Cell, i64> {
        Ray { o: ray.o.minus(self.offset), d: ray.d, min_t: ray.min_t, max_t: ray.max_t }
    }

    open spec fn pose_spec(pose: Cell) -> Shift {
        Shift { offset: pose }
    }

    open spec fn interpolate_spec(time: i64, first: Keyframe<Cell>, second: Keyframe<Cell>) -> Shift {
        Shift {
            offset: Cell {
                x: clamped(blend(first.pose.x, second.pose.x, time, first.time, second.time)),
                y: clamped(blend(first.pose.y, second.pose.y, time, first.time, second.time)),
                z: clamped(blend(first.pose.z, second.pose.z, time, first.time, second.time)),
            },
        }
    }

    proof fn compose_identity(t: Shift) {
    }

    proof fn interpolate_at_second(first: Keyframe<Cell>, second: Keyframe<Cell>) {
        blend_between(first.pose.x, second.pose.x, second.time, first.time, second.time);
        blend_between(first.pose.y, second.pose.y, second.time, first.time, second.time);
        blend_between(first.pose.z, second.pose.z, second.time, first.time, second.time);
    }

    fn identity() -> (r: Shift) {
        Shift { offset: Cell { x: 0, y: 0, z: 0 } }
    }

    fn compose(&self, inner: &Shift) -> (r: Shift) {
        Shift { offset: inner.offset.shifted(&self.offset) }
    }

    fn apply_point(&self, p: &Cell) -> (r: Cell) {
        p.shifted(&self.offset)
    }

    fn apply_vector(&self, v: &Cell) -> (r: Cell) {
        *v
    }

    fn apply_normal(&self, n: &Cell) -> (r: Cell) {
        *n
    }

    fn apply_box(&self, b: &Block) -> (r: Block) {
        Block { min: b.min.shifted(&self.offset), max: b.max.shifted(&self.offset) }
    }

    fn inv_mul_ray(&self, ray: &Ray<Cell, Cell, i64>) -> (r: Ray<Cell, Cell, i64>) {
        Ray { o: ray.o.shifted_back(&self.offset), d: ray.d, min_t: ray.min_t, max_t: ray.max_t }
    }

    fn from_pose(pose: &Cell) -> (r: Shift) {
        Shift { offset: *pose }
    }

    fn interpolate(time: i64, first: &Keyframe<Cell>, second: &Keyframe<Cell>) -> (r: Shift) {
        proof {
            blend_between(first.pose.x, second.pose.x, time, first.time, second.time);
            blend_between(first.pose.y, second.pose.y, time, first.time, second.time);
            blend_between(first.pose.z, second.pose.z, time, first.time, second.time);
        }
        Shift {
            offset: Cell {
                x: blend_coordinate(first.pose.x, second.pose.x, time, first.time, second.time),
                y: blend_coordinate(first.pose.y, second.pose.y, time, first.time, second.time),
                z: blend_coordinate(first.pose.z, second.pose.z, time, first.time, second.time),
            },
        }
    }
}

/// A shift moves a block with its cells: the image of a cell of the
/// block lies in the image of the block.
pub proof fn shifted_block_holds_shifted_cell(t: Shift, b: Block, c: Cell)
    requires
        b.holds(c),
    ensures
        t.box_spec(b).holds(t.point_spec(c)),
{
}

} // verus!
