use boids::config::Config;
use boids::rules::{
    flock_coordinate, limit_speed, place_coordinate, steer_coordinate, tally, update_agent,
    wrap_coordinate,
};
use boids::vector::{Agent, Vec3};

fn plane() -> Config {
    let mut cfg = Config::planar(1_600_000, 1_000_000);
    cfg.protected_range = 30_000;
    cfg.visible_range = 200_000;
    cfg
}

fn agent(px: i32, py: i32, pz: i32, vx: i32, vy: i32, vz: i32) -> Agent {
    Agent { position: Vec3::new(px, py, pz), velocity: Vec3::new(vx, vy, vz) }
}

#[test]
fn two_close_agents_push_each_other_apart() {
    let cfg = plane();
    let snap = vec![agent(0, 0, 0, 1000, 0, 0), agent(5000, 0, 0, -1000, 0, 0)];
    let first = tally(&snap, 0, &cfg);
    let second = tally(&snap, 1, &cfg);
    assert_eq!(first.close_x, -5000);
    assert_eq!(second.close_x, 5000);
    assert_eq!(first.close_x.signum(), ((0 - 5000) as i128).signum());
    assert_eq!(second.close_x.signum(), ((5000 - 0) as i128).signum());
    assert_eq!((first.close_y, first.close_z), (0, 0));
    assert_eq!(first.count, 1);
    assert_eq!(first.velocity_x, -1000);
    assert_eq!(first.position_x, 5000);
    assert_eq!(second.count, 1);
    assert_eq!(second.velocity_x, 1000);
    assert_eq!(second.position_x, 0);

    let a = update_agent(&snap, 0, &cfg, 1000);
    let b = update_agent(&snap, 1, &cfg, 1000);
    assert_eq!(a.velocity, Vec3::new(-3720, 0, 0));
    assert_eq!(b.velocity, Vec3::new(3720, 0, 0));
    assert_eq!(a.position, Vec3::new(-3720, 0, 0));
    assert_eq!(b.position, Vec3::new(8720, 0, 0));
}

#[test]
fn alignment_moves_a_velocity_toward_the_neighbours() {
    let mut cfg = plane();
    cfg.avoid_factor = 0;
    cfg.centering_factor = 0;
    cfg.matching_factor = 100;
    let snap = vec![agent(0, 0, 0, 1000, 0, 0), agent(5000, 0, 0, -1000, 500, 0)];
    let a = update_agent(&snap, 0, &cfg, 0);
    let b = update_agent(&snap, 1, &cfg, 0);
    assert_eq!(a.velocity, Vec3::new(800, 50, 0));
    assert_eq!(b.velocity, Vec3::new(-800, 450, 0));
    assert_eq!(a.position, snap[0].position);
}

#[test]
fn separation_counts_only_agents_inside_the_protected_range() {
    let cfg = plane();
    let snap = vec![
        agent(0, 0, 0, 0, 0, 0),
        agent(10_000, -2000, 0, 0, 0, 0),
        agent(30_000, 0, 0, 0, 0, 0),
        agent(-100_000, 50_000, 0, 0, 0, 0),
        agent(0, 29_999, 0, 0, 0, 0),
    ];
    let t = tally(&snap, 0, &cfg);
    assert_eq!((t.close_x, t.close_y, t.close_z), (-10_000, 2000 - 29_999, 0));
    assert_eq!(t.count, 4);
}

#[test]
fn an_agent_without_close_neighbours_gathers_no_offset() {
    let cfg = plane();
    let snap = vec![agent(0, 0, 0, 0, 0, 0), agent(30_000, 0, 0, 0, 0, 0)];
    let t = tally(&snap, 0, &cfg);
    assert_eq!((t.close_x, t.close_y, t.close_z), (0, 0, 0));
    assert_eq!(t.count, 1);
}

#[test]
fn an_agent_does_not_count_itself() {
    let cfg = plane();
    let snap = vec![agent(400, 500, 0, 7, 8, 0)];
    let t = tally(&snap, 0, &cfg);
    assert_eq!(t.count, 0);
    assert_eq!((t.velocity_x, t.velocity_y, t.velocity_z), (0, 0, 0));
    assert_eq!((t.position_x, t.position_y, t.position_z), (0, 0, 0));
}

#[test]
fn an_isolated_agent_is_neither_aligned_nor_drawn() {
    let cfg = plane();
    let snap = vec![agent(0, 0, 0, 1234, -777, 0), agent(200_000, 0, 0, -9000, 9000, 0)];
    let t = tally(&snap, 0, &cfg);
    assert_eq!(t.count, 0);
    assert_eq!((t.velocity_x, t.position_x), (0, 0));
    let a = update_agent(&snap, 0, &cfg, 1000);
    assert_eq!(a.velocity, Vec3::new(1234, -777, 0));
    assert_eq!(a.position, Vec3::new(1234, -777, 0));
}

#[test]
fn flock_coordinate_without_neighbours_is_separation_alone() {
    let cfg = plane();
    assert_eq!(flock_coordinate(100, 5, -5000, 999, 999, 0, &cfg), -4900);
}

#[test]
fn flock_coordinate_adds_the_three_rules() {
    let cfg = plane();
    assert_eq!(flock_coordinate(1000, 0, -5000, -1000, 5000, 1, &cfg), -3720);
    assert_eq!(flock_coordinate(0, 0, 0, 3000, -9000, 3, &cfg), 10 - 150);
}

#[test]
fn steering_turns_back_inside_the_margin() {
    let cfg = Config::spatial(50_000, 20_000, 50_000);
    assert_eq!(steer_coordinate(500, 23_001, -25_000, 25_000, &cfg), -500);
    assert_eq!(steer_coordinate(500, 23_000, -25_000, 25_000, &cfg), 500);
    assert_eq!(steer_coordinate(500, -23_001, -25_000, 25_000, &cfg), 1500);
    assert_eq!(steer_coordinate(500, -23_000, -25_000, 25_000, &cfg), 500);
    assert_eq!(steer_coordinate(500, 1999, 0, 20_000, &cfg), 1500);
    assert_eq!(steer_coordinate(500, 18_001, 0, 20_000, &cfg), -500);
}

#[test]
fn steering_can_be_switched_off() {
    let mut cfg = Config::spatial(50_000, 20_000, 50_000);
    cfg.steer = false;
    assert_eq!(steer_coordinate(500, 24_999, -25_000, 25_000, &cfg), 500);
}

#[test]
fn a_narrow_world_steers_both_ways() {
    let mut cfg = Config::spatial(2000, 2000, 2000);
    cfg.turn_factor = 300;
    assert_eq!(steer_coordinate(40, 0, -1000, 1000, &cfg), 40);
}

#[test]
fn speed_above_the_greatest_is_scaled_down() {
    let cfg = Config::spatial(50_000, 20_000, 50_000);
    assert_eq!(limit_speed(Vec3::new(30_000, -40_000, 0), &cfg), Vec3::new(6000, -8000, 0));
}

#[test]
fn speed_below_the_least_is_scaled_up() {
    let cfg = Config::spatial(50_000, 20_000, 50_000);
    assert_eq!(limit_speed(Vec3::new(0, 3000, -4000), &cfg), Vec3::new(0, 6000, -8000));
}

#[test]
fn equal_coordinates_are_limited_alike() {
    let cfg = Config::spatial(50_000, 20_000, 50_000);
    assert_eq!(
        limit_speed(Vec3::new(10_000, 10_000, 10_000), &cfg),
        Vec3::new(5773, 5773, 5773)
    );
}

#[test]
fn speed_in_range_is_left_alone() {
    let mut cfg = Config::spatial(50_000, 20_000, 50_000);
    cfg.min_speed = 2000;
    let v = Vec3::new(3000, 4000, 0);
    assert_eq!(limit_speed(v, &cfg), v);
    assert_eq!(limit_speed(limit_speed(v, &cfg), &cfg), limit_speed(v, &cfg));
    let at_least = Vec3::new(0, 0, 2000);
    assert_eq!(limit_speed(at_least, &cfg), at_least);
    let at_most = Vec3::new(-10_000, 0, 0);
    assert_eq!(limit_speed(at_most, &cfg), at_most);
}

#[test]
fn a_velocity_of_zero_stays_zero() {
    let cfg = Config::spatial(50_000, 20_000, 50_000);
    assert_eq!(limit_speed(Vec3::zero(), &cfg), Vec3::zero());
}

#[test]
fn the_speed_limit_can_be_switched_off() {
    let cfg = plane();
    let v = Vec3::new(900_000, 1, -5);
    assert_eq!(limit_speed(v, &cfg), v);
}

#[test]
fn the_largest_velocity_is_limited_without_overflow() {
    let cfg = Config::spatial(50_000, 20_000, 50_000);
    let v = limit_speed(Vec3::new(i32::MIN, i32::MIN, i32::MIN), &cfg);
    assert_eq!(v, Vec3::new(-5773, -5773, -5773));
}

#[test]
fn wrapping_leaves_the_world_alone() {
    assert_eq!(wrap_coordinate(0, -800, 800), 0);
    assert_eq!(wrap_coordinate(799, -800, 800), 799);
    assert_eq!(wrap_coordinate(-799, -800, 800), -799);
    assert_eq!(wrap_coordinate(800, -800, 800), 800);
    assert_eq!(wrap_coordinate(-800, -800, 800), -800);
}

#[test]
fn wrapping_enters_on_the_other_side() {
    assert_eq!(wrap_coordinate(801, -800, 800), -800);
    assert_eq!(wrap_coordinate(-801, -800, 800), 800);
    assert_eq!(wrap_coordinate(20_001, 0, 20_000), 0);
    assert_eq!(wrap_coordinate(-1, 0, 20_000), 20_000);
    assert_eq!(wrap_coordinate(wrap_coordinate(801, -800, 800), -800, 800), -800);
}

#[test]
fn an_agent_past_the_bound_is_wrapped_in_the_same_tick() {
    let cfg = plane();
    assert_eq!(place_coordinate(799_000, 2000, 1000, -800_000, 800_000, &cfg), -800_000);
    assert_eq!(place_coordinate(799_000, 1000, 1000, -800_000, 800_000, &cfg), 800_000);
    assert_eq!(place_coordinate(-799_000, -1001, 1000, -800_000, 800_000, &cfg), 800_000);
    let snap = vec![agent(799_999, 0, 0, 1000, 0, 0)];
    let a = update_agent(&snap, 0, &cfg, 16);
    assert_eq!(a.position, Vec3::new(-800_000, 0, 0));
    assert_eq!(a.velocity, Vec3::new(1000, 0, 0));
}

#[test]
fn without_wrapping_a_position_runs_on() {
    let mut cfg = plane();
    cfg.wrap = false;
    assert_eq!(place_coordinate(799_000, 2000, 1000, -800_000, 800_000, &cfg), 801_000);
    assert_eq!(place_coordinate(i32::MAX - 5, 2000, 1000, -800_000, 800_000, &cfg), i32::MAX);
    assert_eq!(place_coordinate(i32::MIN, -1, 1000, -800_000, 800_000, &cfg), i32::MIN);
}

#[test]
fn a_move_takes_the_length_of_the_tick() {
    let cfg = plane();
    assert_eq!(place_coordinate(100, 5773, 16, -800_000, 800_000, &cfg), 192);
    assert_eq!(place_coordinate(100, -5773, 16, -800_000, 800_000, &cfg), 8);
    assert_eq!(place_coordinate(100, 5773, 0, -800_000, 800_000, &cfg), 100);
}

#[test]
fn a_tick_in_the_box() {
    let cfg = Config::spatial(50_000, 20_000, 50_000);
    let snap = vec![agent(0, 10_000, 0, 10_000, 10_000, 10_000)];
    let a = update_agent(&snap, 0, &cfg, 16);
    assert_eq!(a.velocity, Vec3::new(5773, 5773, 5773));
    assert_eq!(a.position, Vec3::new(92, 10_092, 92));
}

#[test]
fn a_tick_near_the_floor_turns_upward() {
    let mut cfg = Config::spatial(50_000, 20_000, 50_000);
    cfg.min_speed = 0;
    cfg.max_speed = 100_000;
    let snap = vec![agent(0, 1000, 24_000, 0, -500, 200)];
    let a = update_agent(&snap, 0, &cfg, 1000);
    assert_eq!(a.velocity, Vec3::new(0, 500, -800));
    assert_eq!(a.position, Vec3::new(0, 1500, 23_200));
}

#[test]
fn the_same_snapshot_gives_the_same_agent() {
    let cfg = Config::spatial(50_000, 20_000, 50_000);
    let snap = vec![
        agent(0, 10_000, 0, 10_000, 0, 0),
        agent(500, 10_000, 0, 0, 10_000, 0),
        agent(0, 10_500, 300, 0, 0, 10_000),
    ];
    let copy = snap.clone();
    for i in 0..3 {
        assert_eq!(update_agent(&snap, i, &cfg, 16), update_agent(&copy, i, &cfg, 16));
    }
}
