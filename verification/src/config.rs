//! The constants of a run.

use vstd::prelude::*;
use crate::vector::Vec3;

verus! {

/// What a world is run with. Lengths, speeds and factors are in thousandths:
/// a factor of 1000 multiplies by one.
#[derive(Clone, Copy, Debug, PartialEq, Eq, Structural)]
pub struct Config {
    /// The least coordinate of the world along each axis.
    pub low: Vec3,
    /// The greatest coordinate of the world along each axis.
    pub high: Vec3,
    /// Neighbours strictly closer than this are steered away from.
    pub protected_range: i32,
    /// Neighbours strictly closer than this are aligned with and approached.
    pub visible_range: i32,
    pub avoid_factor: i32,
    pub matching_factor: i32,
    pub centering_factor: i32,
    /// Width of the band along each face of the world in which agents turn back.
    pub margin: i32,
    /// What is added to a velocity coordinate inside that band.
    pub turn_factor: i32,
    pub min_speed: i32,
    pub max_speed: i32,
    /// Whether agents turn back near the faces of the world.
    pub steer: bool,
    /// Whether speeds are held between `min_speed` and `max_speed`.
    pub clamp_speed: bool,
    /// Whether an agent that leaves the world enters it again opposite.
    pub wrap: bool,
}

impl Config {
    /// The world is not inside out, and the least speed is not above the
    /// greatest.
    pub open spec fn well_formed(self) -> bool {
        &&& self.low.x <= self.high.x
        &&& self.low.y <= self.high.y
        &&& self.low.z <= self.high.z
        &&& 0 <= self.min_speed <= self.max_speed
    }

    /// Whether the configuration is well formed.
    pub fn is_valid(&self) -> (r: bool)
        ensures
            r == self.well_formed(),
    {
        self.low.x <= self.high.x && self.low.y <= self.high.y && self.low.z <= self.high.z && 0
            <= self.min_speed && self.min_speed <= self.max_speed
    }

    /// A plane of the given width and height centred on the origin, in which
    /// agents flock and wrap round, with neither steering nor a speed limit.
    pub fn planar(width: i32, height: i32) -> (r: Config)
        requires
            width >= 0,
            height >= 0,
        ensures
            r.well_formed(),
            r.low.x == -(width / 2) && r.low.y == -(height / 2) && r.low.z == 0,
            r.high.x == width / 2 && r.high.y == height / 2 && r.high.z == 0,
            r == (Config {
                low: r.low,
                high: r.high,
                protected_range: 1000,
                visible_range: 10000,
                avoid_factor: 1000,
                matching_factor: 10,
                centering_factor: 50,
                margin: 0,
                turn_factor: 0,
                min_speed: 0,
                max_speed: 0,
                steer: false,
                clamp_speed: false,
                wrap: true,
            }),
    {
        Config {
            low: Vec3 { x: -(width / 2), y: -(height / 2), z: 0 },
            high: Vec3 { x: width / 2, y: height / 2, z: 0 },
            protected_range: 1000,
            visible_range: 10000,
            avoid_factor: 1000,
            matching_factor: 10,
            centering_factor: 50,
            margin: 0,
            turn_factor: 0,
            min_speed: 0,
            max_speed: 0,
            steer: false,
            clamp_speed: false,
            wrap: true,
        }
    }

    /// A box that stands on the plane `y = 0`, centred on the origin in `x`
    /// and `z`, in which agents flock, turn back near the faces, fly at a
    /// constant speed of ten and wrap round.
    pub fn spatial(width: i32, height: i32, depth: i32) -> (r: Config)
        requires
            width >= 0,
            height >= 0,
            depth >= 0,
        ensures
            r.well_formed(),
            r.low.x == -(width / 2) && r.low.y == 0 && r.low.z == -(depth / 2),
            r.high.x == width / 2 && r.high.y == height && r.high.z == depth / 2,
            r == (Config {
                low: r.low,
                high: r.high,
                protected_range: 1000,
                visible_range: 10000,
                avoid_factor: 1000,
                matching_factor: 10,
                centering_factor: 50,
                margin: 2000,
                turn_factor: 1000,
                min_speed: 10000,
                max_speed: 10000,
                steer: true,
                clamp_speed: true,
                wrap: true,
            }),
    {
        Config {
            low: Vec3 { x: -(width / 2), y: 0, z: -(depth / 2) },
            high: Vec3 { x: width / 2, y: height, z: depth / 2 },
            protected_range: 1000,
            visible_range: 10000,
            avoid_factor: 1000,
            matching_factor: 10,
            centering_factor: 50,
            margin: 2000,
            turn_factor: 1000,
            min_speed: 10000,
            max_speed: 10000,
            steer: true,
            clamp_speed: true,
            wrap: true,
        }
    }
}

} // verus!
