//! The rules by which one agent's velocity and position change in a tick.
//!
//! Every rule reads the state of the whole population as it was before the
//! tick, so the outcome for one agent does not depend on the order in which
//! agents are taken.

use vstd::prelude::*;
use crate::arith::{
    is_root, isqrt, lemma_product_bound, lemma_quot_bound, lemma_root_exists, quot, quotient,
    root, saturate, saturated, scale, scaled, SCALED_WIDE, TALLY,
};
use crate::config::Config;
use crate::vector::{closer_than, is_closer_than, norm_sq, norm_squared, Agent, Vec3};

verus! {

/// The largest population that the rules are computed over.
pub const MAX_POPULATION: usize = 0xffff_ffff;

/// Agent `j` is another agent than `i` and strictly closer to it than `range`.
pub open spec fn near(snap: Seq<Agent>, i: int, j: int, range: int) -> bool {
    j != i && closer_than(snap[i].position, snap[j].position, range)
}

/// Along one axis, the sum of the offsets of agent `i` from each of the first
/// `k` agents that is near it.
pub open spec fn separation_sum(snap: Seq<Agent>, i: int, k: int, range: int, axis: int) -> int
    decreases k,
{
    if k <= 0 {
        0
    } else {
        separation_sum(snap, i, k - 1, range, axis) + if near(snap, i, k - 1, range) {
            snap[i].position.coord(axis) - snap[k - 1].position.coord(axis)
        } else {
            0
        }
    }
}

/// Along one axis, the sum of the velocities of the first `k` agents that are
/// near agent `i`.
pub open spec fn velocity_sum(snap: Seq<Agent>, i: int, k: int, range: int, axis: int) -> int
    decreases k,
{
    if k <= 0 {
        0
    } else {
        velocity_sum(snap, i, k - 1, range, axis) + if near(snap, i, k - 1, range) {
            snap[k - 1].velocity.coord(axis)
        } else {
            0
        }
    }
}

/// Along one axis, the sum of the positions of the first `k` agents that are
/// near agent `i`.
pub open spec fn position_sum(snap: Seq<Agent>, i: int, k: int, range: int, axis: int) -> int
    decreases k,
{
    if k <= 0 {
        0
    } else {
        position_sum(snap, i, k - 1, range, axis) + if near(snap, i, k - 1, range) {
            snap[k - 1].position.coord(axis)
        } else {
            0
        }
    }
}

/// How many of the first `k` agents are near agent `i`.
pub open spec fn neighbour_count(snap: Seq<Agent>, i: int, k: int, range: int) -> int
    decreases k,
{
    if k <= 0 {
        0
    } else {
        neighbour_count(snap, i, k - 1, range) + if near(snap, i, k - 1, range) {
            1int
        } else {
            0
        }
    }
}

/// What one scan of the population gathers for one agent.
#[derive(Clone, Copy, Debug)]
pub struct Tally {
    /// Sum of the offsets from the neighbours within the protected range.
    pub close_x: i128,
    pub close_y: i128,
    pub close_z: i128,
    /// Sum of the velocities of the neighbours within the visible range.
    pub velocity_x: i128,
    pub velocity_y: i128,
    pub velocity_z: i128,
    /// Sum of the positions of the neighbours within the visible range.
    pub position_x: i128,
    pub position_y: i128,
    pub position_z: i128,
    /// Number of neighbours within the visible range.
    pub count: u64,
}

impl Tally {
    /// The tally holds the sums for agent `i` over the first `k` agents.
    pub open spec fn covers(self, snap: Seq<Agent>, i: int, k: int, cfg: Config) -> bool {
        &&& self.close_x == separation_sum(snap, i, k, cfg.protected_range as int, 0)
        &&& self.close_y == separation_sum(snap, i, k, cfg.protected_range as int, 1)
        &&& self.close_z == separation_sum(snap, i, k, cfg.protected_range as int, 2)
        &&& self.velocity_x == velocity_sum(snap, i, k, cfg.visible_range as int, 0)
        &&& self.velocity_y == velocity_sum(snap, i, k, cfg.visible_range as int, 1)
        &&& self.velocity_z == velocity_sum(snap, i, k, cfg.visible_range as int, 2)
        &&& self.position_x == position_sum(snap, i, k, cfg.visible_range as int, 0)
        &&& self.position_y == position_sum(snap, i, k, cfg.visible_range as int, 1)
        &&& self.position_z == position_sum(snap, i, k, cfg.visible_range as int, 2)
        &&& self.count == neighbour_count(snap, i, k, cfg.visible_range as int)
    }

    /// No sum is larger than `k` terms can make it.
    pub open spec fn bounded(self, k: int) -> bool {
        &&& -k * 0x1_0000_0000 <= self.close_x <= k * 0x1_0000_0000
        &&& -k * 0x1_0000_0000 <= self.close_y <= k * 0x1_0000_0000
        &&& -k * 0x1_0000_0000 <= self.close_z <= k * 0x1_0000_0000
        &&& -k * 0x1_0000_0000 <= self.velocity_x <= k * 0x1_0000_0000
        &&& -k * 0x1_0000_0000 <= self.velocity_y <= k * 0x1_0000_0000
        &&& -k * 0x1_0000_0000 <= self.velocity_z <= k * 0x1_0000_0000
        &&& -k * 0x1_0000_0000 <= self.position_x <= k * 0x1_0000_0000
        &&& -k * 0x1_0000_0000 <= self.position_y <= k * 0x1_0000_0000
        &&& -k * 0x1_0000_0000 <= self.position_z <= k * 0x1_0000_0000
        &&& 0 <= self.count <= k
    }
}

/// Scans the population once for agent `i`: the offsets from the neighbours
/// it must avoid, and the velocities, positions and number of those it flocks
/// with.
pub fn tally(snap: &Vec<Agent>, i: usize, cfg: &Config) -> (t: Tally)
    requires
        i < snap.len(),
        snap.len() <= MAX_POPULATION,
    ensures
        t.covers(snap@, i as int, snap.len() as int, *cfg),
        t.bounded(snap.len() as int),
{
    let n: usize = snap.len();
    let me: Agent = snap[i];
    let mut t = Tally {
        close_x: 0,
        close_y: 0,
        close_z: 0,
        velocity_x: 0,
        velocity_y: 0,
        velocity_z: 0,
        position_x: 0,
        position_y: 0,
        position_z: 0,
        count: 0,
    };
    let mut j: usize = 0;
    while j < n
        invariant
            j <= n,
            n == snap.len(),
            n <= MAX_POPULATION,
            i < n,
            me == snap@[i as int],
            t.covers(snap@, i as int, j as int, *cfg),
            t.bounded(j as int),
        decreases n - j,
    {
        let other: Agent = snap[j];
        if j != i {
            if is_closer_than(me.position, other.position, cfg.protected_range) {
                t.close_x = t.close_x + (me.position.x as i128 - other.position.x as i128);
                t.close_y = t.close_y + (me.position.y as i128 - other.position.y as i128);
                t.close_z = t.close_z + (me.position.z as i128 - other.position.z as i128);
            }
            if is_closer_than(me.position, other.position, cfg.visible_range) {
                t.velocity_x = t.velocity_x + other.velocity.x as i128;
                t.velocity_y = t.velocity_y + other.velocity.y as i128;
                t.velocity_z = t.velocity_z + other.velocity.z as i128;
                t.position_x = t.position_x + other.position.x as i128;
                t.position_y = t.position_y + other.position.y as i128;
                t.position_z = t.position_z + other.position.z as i128;
                t.count = t.count + 1;
            }
        }
        j = j + 1;
    }
    t
}

/// One velocity coordinate after separation, alignment and cohesion.
///
/// `close` is the sum of offsets from the neighbours to avoid; `velocities`
/// and `positions` are the sums over the `count` neighbours to flock with.
/// Without such neighbours alignment and cohesion add nothing.
pub open spec fn flocked(
    v: int,
    p: int,
    close: int,
    velocities: int,
    positions: int,
    count: int,
    cfg: Config,
) -> int {
    let apart = v + scaled(close, cfg.avoid_factor as int);
    if count > 0 {
        let aligned = apart + scaled(quot(velocities, count) - apart, cfg.matching_factor as int);
        aligned + scaled(quot(positions, count) - p, cfg.centering_factor as int)
    } else {
        apart
    }
}

/// One velocity coordinate after the turn away from the faces of the world.
pub open spec fn steered(v: int, p: int, low: int, high: int, cfg: Config) -> int {
    if cfg.steer {
        v - (if p > high - cfg.margin {
            cfg.turn_factor as int
        } else {
            0
        }) + (if p < low + cfg.margin {
            cfg.turn_factor as int
        } else {
            0
        })
    } else {
        v
    }
}

/// One velocity coordinate after the speed limit, for a velocity whose
/// squared length is `speed_sq`: scaled down onto the greatest speed, or up
/// onto the least; a velocity of zero has no direction and stays zero.
pub open spec fn limited_coord(v: int, speed_sq: int, cfg: Config) -> int {
    if speed_sq > cfg.max_speed * cfg.max_speed {
        quot(v * cfg.max_speed, root(speed_sq))
    } else if 0 < speed_sq < cfg.min_speed * cfg.min_speed {
        quot(v * cfg.min_speed, root(speed_sq))
    } else {
        v
    }
}

/// A velocity after the speed limit, where the configuration has one.
pub open spec fn limited(v: Vec3, cfg: Config) -> Vec3 {
    if cfg.clamp_speed {
        Vec3 {
            x: limited_coord(v.x as int, norm_sq(v), cfg) as i32,
            y: limited_coord(v.y as int, norm_sq(v), cfg) as i32,
            z: limited_coord(v.z as int, norm_sq(v), cfg) as i32,
        }
    } else {
        v
    }
}

/// A coordinate that left the world on one side enters it on the other.
pub open spec fn wrapped(p: int, low: int, high: int) -> int {
    if p > high {
        low
    } else if p < low {
        high
    } else {
        p
    }
}

/// One position coordinate after a move at velocity `v` for a time `dt`.
pub open spec fn placed(p: int, v: int, dt: int, low: int, high: int, cfg: Config) -> int {
    let q = saturated(p + scaled(v, dt));
    if cfg.wrap {
        wrapped(q, low, high)
    } else {
        q
    }
}

/// One coordinate of the velocity of agent `i` after flocking and steering,
/// before the speed limit.
pub open spec fn heading(snap: Seq<Agent>, i: int, cfg: Config, axis: int) -> int {
    let n = snap.len() as int;
    saturated(
        steered(
            flocked(
                snap[i].velocity.coord(axis),
                snap[i].position.coord(axis),
                separation_sum(snap, i, n, cfg.protected_range as int, axis),
                velocity_sum(snap, i, n, cfg.visible_range as int, axis),
                position_sum(snap, i, n, cfg.visible_range as int, axis),
                neighbour_count(snap, i, n, cfg.visible_range as int),
                cfg,
            ),
            snap[i].position.coord(axis),
            cfg.low.coord(axis),
            cfg.high.coord(axis),
            cfg,
        ),
    )
}

/// The velocity of agent `i` after a tick.
pub open spec fn next_velocity(snap: Seq<Agent>, i: int, cfg: Config) -> Vec3 {
    limited(
        Vec3 {
            x: heading(snap, i, cfg, 0) as i32,
            y: heading(snap, i, cfg, 1) as i32,
            z: heading(snap, i, cfg, 2) as i32,
        },
        cfg,
    )
}

/// Agent `i` after a tick of length `dt`, given the population before it.
pub open spec fn updated_agent(snap: Seq<Agent>, i: int, cfg: Config, dt: int) -> Agent {
    let v = next_velocity(snap, i, cfg);
    let p = snap[i].position;
    Agent {
        position: Vec3 {
            x: placed(p.x as int, v.x as int, dt, cfg.low.x as int, cfg.high.x as int, cfg) as i32,
            y: placed(p.y as int, v.y as int, dt, cfg.low.y as int, cfg.high.y as int, cfg) as i32,
            z: placed(p.z as int, v.z as int, dt, cfg.low.z as int, cfg.high.z as int, cfg) as i32,
        },
        velocity: v,
    }
}

/// The whole population after a tick of length `dt`.
pub open spec fn ticked(snap: Seq<Agent>, cfg: Config, dt: int) -> Seq<Agent> {
    Seq::new(snap.len(), |i: int| updated_agent(snap, i, cfg, dt))
}

/// Applies separation, alignment and cohesion to one velocity coordinate.
pub fn flock_coordinate(
    v: i32,
    p: i32,
    close: i128,
    velocities: i128,
    positions: i128,
    count: u64,
    cfg: &Config,
) -> (r: i128)
    requires
        -TALLY <= close <= TALLY,
        -TALLY <= velocities <= TALLY,
        -TALLY <= positions <= TALLY,
    ensures
        r == flocked(
            v as int,
            p as int,
            close as int,
            velocities as int,
            positions as int,
            count as int,
            *cfg,
        ),
        -4 * SCALED_WIDE <= r <= 4 * SCALED_WIDE,
{
    let apart: i128 = v as i128 + scale(close, cfg.avoid_factor);
    if count > 0 {
        proof {
            lemma_quot_bound(velocities as int, count as int, TALLY as int);
            lemma_quot_bound(positions as int, count as int, TALLY as int);
        }
        let mean_velocity: i128 = quotient(velocities, count as i128);
        let aligned: i128 = apart + scale(mean_velocity - apart, cfg.matching_factor);
        let mean_position: i128 = quotient(positions, count as i128);
        aligned + scale(mean_position - p as i128, cfg.centering_factor)
    } else {
        apart
    }
}

/// Turns one velocity coordinate away from the faces of the world.
pub fn steer_coordinate(v: i128, p: i32, low: i32, high: i32, cfg: &Config) -> (r: i128)
    requires
        -4 * SCALED_WIDE <= v <= 4 * SCALED_WIDE,
    ensures
        r == steered(v as int, p as int, low as int, high as int, *cfg),
{
    let mut r: i128 = v;
    if cfg.steer {
        if p as i128 > high as i128 - cfg.margin as i128 {
            r = r - cfg.turn_factor as i128;
        }
        if (p as i128) < low as i128 + cfg.margin as i128 {
            r = r + cfg.turn_factor as i128;
        }
    }
    r
}

/// A coordinate is no longer than the integer part of the length of the
/// vector it belongs to.
pub proof fn lemma_coordinate_within_root(v: int, rest: int, r: int)
    requires
        rest >= 0,
        is_root(v * v + rest, r),
    ensures
        -r <= v <= r,
{
    assert(-r <= v <= r) by (nonlinear_arith)
        requires v * v < (r + 1) * (r + 1), r >= 0;
}

/// Scaling a coordinate by `target / speed` leaves it within `target` where
/// it was within `speed`.
pub proof fn lemma_rescaled_within(v: int, speed: int, target: int)
    requires
        0 < speed,
        -speed <= v <= speed,
        0 <= target,
    ensures
        -target <= quot(v * target, speed) <= target,
{
    lemma_product_bound(v, target, speed, target);
    lemma_quot_bound(v * target, speed, speed * target);
    assert((speed * target) / speed == target) by (nonlinear_arith)
        requires speed > 0;
}

fn limit_coordinate(v: i32, speed: u64, target: i32) -> (r: i32)
    requires
        0 < speed < 0x1_0000_0000,
        -speed <= v <= speed,
        0 <= target,
    ensures
        r == quot(v * target, speed as int),
{
    proof {
        lemma_product_bound(v as int, target as int, 0x8000_0000, 0x8000_0000);
        lemma_rescaled_within(v as int, speed as int, target as int);
    }
    quotient(v as i128 * target as i128, speed as i128) as i32
}

/// Holds a speed between the least and the greatest of the configuration,
/// keeping the direction; a velocity of zero stays zero.
pub fn limit_speed(v: Vec3, cfg: &Config) -> (r: Vec3)
    requires
        cfg.well_formed(),
    ensures
        r == limited(v, *cfg),
{
    if !cfg.clamp_speed {
        return v;
    }
    let speed_sq: u64 = norm_squared(v);
    proof {
        let r = root(speed_sq as int);
        if speed_sq > 0 {
            lemma_root_exists(speed_sq as int);
            assert(v.x * v.x >= 0 && v.y * v.y >= 0 && v.z * v.z >= 0) by (nonlinear_arith);
            lemma_coordinate_within_root(v.x as int, v.y * v.y + v.z * v.z, r);
            lemma_coordinate_within_root(v.y as int, v.x * v.x + v.z * v.z, r);
            lemma_coordinate_within_root(v.z as int, v.x * v.x + v.y * v.y, r);
        }
    }
    let max: u64 = cfg.max_speed as u64;
    let min: u64 = cfg.min_speed as u64;
    assert(max * max <= 0x4000_0000_0000_0000 && min * min <= 0x4000_0000_0000_0000)
        by (nonlinear_arith)
        requires 0 <= max <= 0x8000_0000, 0 <= min <= 0x8000_0000;
    if speed_sq > max * max {
        let speed: u64 = isqrt(speed_sq);
        Vec3 {
            x: limit_coordinate(v.x, speed, cfg.max_speed),
            y: limit_coordinate(v.y, speed, cfg.max_speed),
            z: limit_coordinate(v.z, speed, cfg.max_speed),
        }
    } else if 0 < speed_sq && speed_sq < min * min {
        let speed: u64 = isqrt(speed_sq);
        Vec3 {
            x: limit_coordinate(v.x, speed, cfg.min_speed),
            y: limit_coordinate(v.y, speed, cfg.min_speed),
            z: limit_coordinate(v.z, speed, cfg.min_speed),
        }
    } else {
        v
    }
}

/// Wraps one coordinate round the world.
pub fn wrap_coordinate(p: i32, low: i32, high: i32) -> (r: i32)
    ensures
        r == wrapped(p as int, low as int, high as int),
{
    if p > high {
        low
    } else if p < low {
        high
    } else {
        p
    }
}

/// Moves one position coordinate at velocity `v` for a time `dt`, and wraps
/// it round the world where the configuration says so.
pub fn place_coordinate(p: i32, v: i32, dt: i32, low: i32, high: i32, cfg: &Config) -> (r: i32)
    ensures
        r == placed(p as int, v as int, dt as int, low as int, high as int, *cfg),
{
    let q: i32 = saturate(p as i128 + scale(v as i128, dt));
    if cfg.wrap {
        wrap_coordinate(q, low, high)
    } else {
        q
    }
}

/// Computes agent `i` after a tick of length `dt` from the population as it
/// was before the tick.
pub fn update_agent(snap: &Vec<Agent>, i: usize, cfg: &Config, dt: i32) -> (r: Agent)
    requires
        i < snap.len(),
        snap.len() <= MAX_POPULATION,
        cfg.well_formed(),
    ensures
        r == updated_agent(snap@, i as int, *cfg, dt as int),
{
    let me: Agent = snap[i];
    let t: Tally = tally(snap, i, cfg);
    let hx: i128 = flock_coordinate(
        me.velocity.x,
        me.position.x,
        t.close_x,
        t.velocity_x,
        t.position_x,
        t.count,
        cfg,
    );
    let hy: i128 = flock_coordinate(
        me.velocity.y,
        me.position.y,
        t.close_y,
        t.velocity_y,
        t.position_y,
        t.count,
        cfg,
    );
    let hz: i128 = flock_coordinate(
        me.velocity.z,
        me.position.z,
        t.close_z,
        t.velocity_z,
        t.position_z,
        t.count,
        cfg,
    );
    let heading = Vec3 {
        x: saturate(steer_coordinate(hx, me.position.x, cfg.low.x, cfg.high.x, cfg)),
        y: saturate(steer_coordinate(hy, me.position.y, cfg.low.y, cfg.high.y, cfg)),
        z: saturate(steer_coordinate(hz, me.position.z, cfg.low.z, cfg.high.z, cfg)),
    };
    let v: Vec3 = limit_speed(heading, cfg);
    Agent {
        position: Vec3 {
            x: place_coordinate(me.position.x, v.x, dt, cfg.low.x, cfg.high.x, cfg),
            y: place_coordinate(me.position.y, v.y, dt, cfg.low.y, cfg.high.y, cfg),
            z: place_coordinate(me.position.z, v.z, dt, cfg.low.z, cfg.high.z, cfg),
        },
        velocity: v,
    }
}

} // verus!
