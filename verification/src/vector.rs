//! Vectors of fixed-point coordinates, and the agents made of them.

use vstd::prelude::*;

verus! {

/// A point or a displacement, each coordinate in thousandths.
///
/// A planar world keeps `z` at zero throughout.
#[derive(Clone, Copy, Debug, PartialEq, Eq, Structural)]
pub struct Vec3 {
    pub x: i32,
    pub y: i32,
    pub z: i32,
}

impl Vec3 {
    /// The coordinate along an axis: 0 is `x`, 1 is `y`, anything else `z`.
    pub open spec fn coord(self, axis: int) -> int {
        if axis == 0 {
            self.x as int
        } else if axis == 1 {
            self.y as int
        } else {
            self.z as int
        }
    }

    /// The vector with the given coordinates.
    pub fn new(x: i32, y: i32, z: i32) -> (r: Vec3)
        ensures
            r == (Vec3 { x, y, z }),
    {
        Vec3 { x, y, z }
    }

    /// The vector of length zero.
    pub fn zero() -> (r: Vec3)
        ensures
            r == (Vec3 { x: 0, y: 0, z: 0 }),
    {
        Vec3 { x: 0, y: 0, z: 0 }
    }
}

/// The square of the distance between two points.
pub open spec fn dist_sq(a: Vec3, b: Vec3) -> int {
    (a.x - b.x) * (a.x - b.x) + (a.y - b.y) * (a.y - b.y) + (a.z - b.z) * (a.z - b.z)
}

/// The square of a vector's length.
pub open spec fn norm_sq(v: Vec3) -> int {
    v.x * v.x + v.y * v.y + v.z * v.z
}

/// Whether two points are strictly closer than `range`.
pub open spec fn closer_than(a: Vec3, b: Vec3, range: int) -> bool {
    range > 0 && dist_sq(a, b) < range * range
}

/// Whether a point lies in the box between two corners, faces included.
pub open spec fn inside(p: Vec3, low: Vec3, high: Vec3) -> bool {
    &&& low.x <= p.x <= high.x
    &&& low.y <= p.y <= high.y
    &&& low.z <= p.z <= high.z
}

/// One flocking agent.
#[derive(Clone, Copy, Debug, PartialEq, Eq, Structural)]
pub struct Agent {
    pub position: Vec3,
    pub velocity: Vec3,
}

fn square_of_difference(a: i32, b: i32) -> (r: i128)
    ensures
        r == (a - b) * (a - b),
        0 <= r <= 0x1_0000_0000_0000_0000,
{
    let d: i128 = (a as i128) - (b as i128);
    assert(0 <= d * d <= 0x1_0000_0000_0000_0000) by (nonlinear_arith)
        requires -0x1_0000_0000 <= d <= 0x1_0000_0000;
    d * d
}

/// The square of the distance between two points.
pub fn distance_squared(a: Vec3, b: Vec3) -> (r: i128)
    ensures
        r == dist_sq(a, b),
        0 <= r <= 3 * 0x1_0000_0000_0000_0000,
{
    square_of_difference(a.x, b.x) + square_of_difference(a.y, b.y) + square_of_difference(
        a.z,
        b.z,
    )
}

/// The square of a vector's length.
pub fn norm_squared(v: Vec3) -> (r: u64)
    ensures
        r == norm_sq(v),
{
    let x: i128 = square_of_difference(v.x, 0);
    let y: i128 = square_of_difference(v.y, 0);
    let z: i128 = square_of_difference(v.z, 0);
    assert(x <= 0x4000_0000_0000_0000) by (nonlinear_arith)
        requires x == (v.x - 0) * (v.x - 0), -0x8000_0000 <= v.x <= 0x8000_0000;
    assert(y <= 0x4000_0000_0000_0000) by (nonlinear_arith)
        requires y == (v.y - 0) * (v.y - 0), -0x8000_0000 <= v.y <= 0x8000_0000;
    assert(z <= 0x4000_0000_0000_0000) by (nonlinear_arith)
        requires z == (v.z - 0) * (v.z - 0), -0x8000_0000 <= v.z <= 0x8000_0000;
    (x + y + z) as u64
}

/// Whether two points are strictly closer than `range`; a range that is not
/// positive holds nothing.
pub fn is_closer_than(a: Vec3, b: Vec3, range: i32) -> (r: bool)
    ensures
        r == closer_than(a, b, range as int),
{
    if range <= 0 {
        return false;
    }
    let limit: i128 = range as i128;
    assert(0 <= limit * limit <= 0x4000_0000_0000_0000) by (nonlinear_arith)
        requires 0 <= limit <= 0x8000_0000;
    distance_squared(a, b) < limit * limit
}

} // verus!
