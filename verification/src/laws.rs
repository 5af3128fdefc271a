//! What holds of the rules whatever the population.

use vstd::prelude::*;
use crate::arith::{lemma_root_exists, quot, root, scaled};
use crate::config::Config;
use crate::rules::{
    flocked, heading, lemma_coordinate_within_root, lemma_rescaled_within, limited, near,
    neighbour_count, next_velocity, position_sum, separation_sum, ticked, updated_agent,
    velocity_sum, wrapped,
};
use crate::vector::{inside, norm_sq, Agent, Vec3};

verus! {

/// An agent with no other agent strictly inside the range gathers no offset
/// to steer away by.
pub proof fn law_separation_without_neighbours(
    snap: Seq<Agent>,
    i: int,
    k: int,
    range: int,
    axis: int,
)
    requires
        forall|j: int| 0 <= j < k ==> !near(snap, i, j, range),
    ensures
        separation_sum(snap, i, k, range, axis) == 0,
    decreases k,
{
    if k > 0 {
        law_separation_without_neighbours(snap, i, k - 1, range, axis);
    }
}

/// Only the agents strictly inside the range count in the separation sum:
/// two populations in which agent `i` stands at the same place, has the same
/// neighbours inside the range and finds them at the same places give the
/// same sum, wherever the other agents are.
pub proof fn law_separation_only_from_neighbours(
    a: Seq<Agent>,
    b: Seq<Agent>,
    i: int,
    k: int,
    range: int,
    axis: int,
)
    requires
        a[i].position == b[i].position,
        forall|j: int| 0 <= j < k ==> near(a, i, j, range) == near(b, i, j, range),
        forall|j: int| 0 <= j < k && near(a, i, j, range) ==> a[j].position == b[j].position,
    ensures
        separation_sum(a, i, k, range, axis) == separation_sum(b, i, k, range, axis),
    decreases k,
{
    if k > 0 {
        law_separation_only_from_neighbours(a, b, i, k - 1, range, axis);
    }
}

/// An agent with no other agent strictly inside the range has nothing to
/// align with or to approach.
pub proof fn law_isolated_sums(snap: Seq<Agent>, i: int, k: int, range: int, axis: int)
    requires
        forall|j: int| 0 <= j < k ==> !near(snap, i, j, range),
    ensures
        neighbour_count(snap, i, k, range) == 0,
        velocity_sum(snap, i, k, range, axis) == 0,
        position_sum(snap, i, k, range, axis) == 0,
    decreases k,
{
    if k > 0 {
        law_isolated_sums(snap, i, k - 1, range, axis);
    }
}

/// For an agent with no other agent strictly inside the visible range,
/// alignment and cohesion add exactly nothing: its velocity changes by
/// separation alone.
pub proof fn law_isolated_agent(snap: Seq<Agent>, i: int, cfg: Config, axis: int)
    requires
        forall|j: int| 0 <= j < snap.len() ==> !near(snap, i, j, cfg.visible_range as int),
    ensures
        flocked(
            snap[i].velocity.coord(axis),
            snap[i].position.coord(axis),
            separation_sum(snap, i, snap.len() as int, cfg.protected_range as int, axis),
            velocity_sum(snap, i, snap.len() as int, cfg.visible_range as int, axis),
            position_sum(snap, i, snap.len() as int, cfg.visible_range as int, axis),
            neighbour_count(snap, i, snap.len() as int, cfg.visible_range as int),
            cfg,
        ) == snap[i].velocity.coord(axis) + scaled(
            separation_sum(snap, i, snap.len() as int, cfg.protected_range as int, axis),
            cfg.avoid_factor as int,
        ),
{
    law_isolated_sums(snap, i, snap.len() as int, cfg.visible_range as int, axis);
}

/// The speed limit leaves alone a velocity whose speed lies between the
/// least and the greatest, so limiting such a velocity again changes nothing.
pub proof fn law_limit_keeps_speed_in_range(v: Vec3, cfg: Config)
    requires
        cfg.min_speed * cfg.min_speed <= norm_sq(v) <= cfg.max_speed * cfg.max_speed,
    ensures
        limited(v, cfg) == v,
        limited(limited(v, cfg), cfg) == limited(v, cfg),
{
}

/// The speed limit leaves a velocity of zero at zero.
pub proof fn law_limit_keeps_rest(cfg: Config)
    ensures
        limited(Vec3 { x: 0, y: 0, z: 0 }, cfg) == (Vec3 { x: 0, y: 0, z: 0 }),
{
    assert(cfg.max_speed * cfg.max_speed >= 0) by (nonlinear_arith);
}

/// After the speed limit no coordinate of a velocity is larger than the
/// greatest speed.
pub proof fn law_limit_within_greatest(v: Vec3, cfg: Config)
    requires
        cfg.well_formed(),
        cfg.clamp_speed,
    ensures
        -cfg.max_speed <= limited(v, cfg).x <= cfg.max_speed,
        -cfg.max_speed <= limited(v, cfg).y <= cfg.max_speed,
        -cfg.max_speed <= limited(v, cfg).z <= cfg.max_speed,
{
    let n = norm_sq(v);
    let r = root(n);
    let max = cfg.max_speed as int;
    let min = cfg.min_speed as int;
    assert(v.x * v.x >= 0 && v.y * v.y >= 0 && v.z * v.z >= 0) by (nonlinear_arith);
    if n > max * max || 0 < n < min * min {
        lemma_root_exists(n);
        assert(r > 0) by (nonlinear_arith)
            requires n > 0, n < (r + 1) * (r + 1), r >= 0;
        lemma_coordinate_within_root(v.x as int, v.y * v.y + v.z * v.z, r);
        lemma_coordinate_within_root(v.y as int, v.x * v.x + v.z * v.z, r);
        lemma_coordinate_within_root(v.z as int, v.x * v.x + v.y * v.y, r);
        let target = if n > max * max { max } else { min };
        lemma_rescaled_within(v.x as int, r, target);
        lemma_rescaled_within(v.y as int, r, target);
        lemma_rescaled_within(v.z as int, r, target);
    } else {
        assert(-max <= v.x <= max) by (nonlinear_arith)
            requires v.x * v.x <= max * max, max >= 0;
        assert(-max <= v.y <= max) by (nonlinear_arith)
            requires v.y * v.y <= max * max, max >= 0;
        assert(-max <= v.z <= max) by (nonlinear_arith)
            requires v.z * v.z <= max * max, max >= 0;
    }
}

/// A flat world stays flat: where the world has no depth and every agent is
/// in the plane and moves in it, each agent is still in the plane and moves
/// in it after a tick, whatever else the configuration says.
pub proof fn law_plane_stays_flat(snap: Seq<Agent>, i: int, cfg: Config, dt: int)
    requires
        0 <= i < snap.len(),
        cfg.low.z == 0 && cfg.high.z == 0,
        forall|j: int|
            0 <= j < snap.len() ==> (#[trigger] snap[j]).position.z == 0 && snap[j].velocity.z
                == 0,
    ensures
        updated_agent(snap, i, cfg, dt).position.z == 0,
        updated_agent(snap, i, cfg, dt).velocity.z == 0,
{
    let n = snap.len() as int;
    lemma_flat_sums(snap, i, n, cfg.protected_range as int);
    lemma_flat_sums(snap, i, n, cfg.visible_range as int);
    let count = neighbour_count(snap, i, n, cfg.visible_range as int);
    assert(snap[i].position.z == 0 && snap[i].velocity.z == 0);
    assert(scaled(0, cfg.avoid_factor as int) == 0);
    assert(scaled(0, cfg.matching_factor as int) == 0);
    assert(scaled(0, cfg.centering_factor as int) == 0);
    if count > 0 {
        assert(quot(0, count) == 0) by (nonlinear_arith)
            requires count > 0;
    }
    assert(flocked(0, 0, 0, 0, 0, count, cfg) == 0);
    assert(heading(snap, i, cfg, 2) == 0);
    let before = Vec3 {
        x: heading(snap, i, cfg, 0) as i32,
        y: heading(snap, i, cfg, 1) as i32,
        z: heading(snap, i, cfg, 2) as i32,
    };
    let speed_sq = norm_sq(before);
    assert(speed_sq >= 0) by (nonlinear_arith)
        requires speed_sq == before.x * before.x + before.y * before.y + before.z * before.z;
    assert(cfg.max_speed * cfg.max_speed >= 0) by (nonlinear_arith);
    if speed_sq > 0 {
        lemma_root_exists(speed_sq);
        let r = root(speed_sq);
        assert(r > 0) by (nonlinear_arith)
            requires speed_sq > 0, speed_sq < (r + 1) * (r + 1), r >= 0;
    }
    assert(limited(before, cfg).z == 0);
}

/// In a population that lies and moves in the plane, the sums along the
/// third axis are zero.
proof fn lemma_flat_sums(snap: Seq<Agent>, i: int, k: int, range: int)
    requires
        0 <= i < snap.len(),
        0 <= k <= snap.len(),
        forall|j: int|
            0 <= j < snap.len() ==> (#[trigger] snap[j]).position.z == 0 && snap[j].velocity.z
                == 0,
    ensures
        separation_sum(snap, i, k, range, 2) == 0,
        velocity_sum(snap, i, k, range, 2) == 0,
        position_sum(snap, i, k, range, 2) == 0,
    decreases k,
{
    if k > 0 {
        lemma_flat_sums(snap, i, k - 1, range);
        assert(snap[k - 1].position.z == 0 && snap[i].position.z == 0);
    }
}

/// Wrapping leaves every coordinate of the world where it is, the two bounds
/// included; it sends a coordinate above the upper bound to the lower bound
/// and one below the lower bound to the upper; so it always lands in the
/// world, and wrapping twice is wrapping once.
pub proof fn law_wrap(p: int, low: int, high: int)
    requires
        low <= high,
    ensures
        low <= p <= high ==> wrapped(p, low, high) == p,
        p > high ==> wrapped(p, low, high) == low,
        p < low ==> wrapped(p, low, high) == high,
        low <= wrapped(p, low, high) <= high,
        wrapped(wrapped(p, low, high), low, high) == wrapped(p, low, high),
{
}

/// Where the world wraps round, a tick leaves every agent inside it.
pub proof fn law_tick_keeps_agents_inside(snap: Seq<Agent>, i: int, cfg: Config, dt: int)
    requires
        cfg.well_formed(),
        cfg.wrap,
    ensures
        inside(updated_agent(snap, i, cfg, dt).position, cfg.low, cfg.high),
{
}

/// Where speeds are limited, no coordinate of an agent's velocity is larger
/// after a tick than the greatest speed.
pub proof fn law_tick_within_greatest_speed(snap: Seq<Agent>, i: int, cfg: Config, dt: int)
    requires
        cfg.well_formed(),
        cfg.clamp_speed,
    ensures
        -cfg.max_speed <= updated_agent(snap, i, cfg, dt).velocity.x <= cfg.max_speed,
        -cfg.max_speed <= updated_agent(snap, i, cfg, dt).velocity.y <= cfg.max_speed,
        -cfg.max_speed <= updated_agent(snap, i, cfg, dt).velocity.z <= cfg.max_speed,
{
    law_limit_within_greatest(
        Vec3 {
            x: heading(snap, i, cfg, 0) as i32,
            y: heading(snap, i, cfg, 1) as i32,
            z: heading(snap, i, cfg, 2) as i32,
        },
        cfg,
    );
}

/// A tick changes no agent's identifier and keeps the population's size, and
/// what it makes of one agent depends on the population before the tick, the
/// configuration and the length of the tick alone.
pub proof fn law_tick_keeps_population(snap: Seq<Agent>, cfg: Config, dt: int, i: int)
    requires
        0 <= i < snap.len(),
    ensures
        ticked(snap, cfg, dt).len() == snap.len(),
        ticked(snap, cfg, dt)[i] == updated_agent(snap, i, cfg, dt),
{
}

/// An agent alone in a world that neither steers nor limits speeds keeps its
/// velocity: it rests if it rested, and else moves in a straight line.
pub proof fn law_lone_agent_keeps_velocity(snap: Seq<Agent>, cfg: Config, dt: int)
    requires
        snap.len() == 1,
        !cfg.steer,
        !cfg.clamp_speed,
    ensures
        updated_agent(snap, 0, cfg, dt).velocity == snap[0].velocity,
{
    let protected = cfg.protected_range as int;
    let visible = cfg.visible_range as int;
    assert forall|axis: int| #[trigger] heading(snap, 0, cfg, axis) == snap[0].velocity.coord(axis) by {
        law_separation_without_neighbours(snap, 0, 1, protected, axis);
        law_isolated_sums(snap, 0, 1, visible, axis);
    }
    assert(heading(snap, 0, cfg, 0) == snap[0].velocity.x);
    assert(heading(snap, 0, cfg, 1) == snap[0].velocity.y);
    assert(heading(snap, 0, cfg, 2) == snap[0].velocity.z);
    assert(next_velocity(snap, 0, cfg) == snap[0].velocity);
}

} // verus!
