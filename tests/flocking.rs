use flocking::boid::{Boid, BoidBundle, UNIT};
use flocking::flock::{
    observe, spawn_boid, spawn_flock, start_velocity, tick, update_alignment, update_cohesion,
    update_separation, BIG_FLOCK_SIZE, BIG_START_VELOCITY, FLOCK_SIZE, START_RADIUS,
    START_VELOCITY,
};
use flocking::movement::{apply_screen_wrap, set_acceleration, update_velocity, BoundaryPolicy};
use flocking::neighborhood::{is_neighbor, Neighbors, SeparationNeighborhood};
use flocking::scanner::{Scanner, Scanning};
use flocking::steering_behaviors::{
    steering_vector, Alignment, BehaviorKind, Cohesion, Separation, SteeringBehavior,
};
use flocking::vector::{ceil_sqrt_u128, Vector2, WideVector};
use flocking::movement::{Acceleration, Velocity};

fn v(x: i64, y: i64) -> Vector2 {
    Vector2::new(x, y)
}

fn standard_boid(position: Vector2, velocity: Vector2) -> Boid {
    spawn_boid(position, velocity, 12 * UNIT, 200, BoidBundle::default())
}

#[test]
fn ceil_sqrt_rounds_up() {
    assert_eq!(ceil_sqrt_u128(0), 0);
    assert_eq!(ceil_sqrt_u128(1), 1);
    assert_eq!(ceil_sqrt_u128(10), 4);
    assert_eq!(ceil_sqrt_u128(16), 4);
    assert_eq!(ceil_sqrt_u128(17), 5);
    assert_eq!(ceil_sqrt_u128(145_000_000), 12_042);
}

#[test]
fn scale_to_length_keeps_direction() {
    assert_eq!(WideVector { x: 30, y: 40 }.scale_to_length(10), v(6, 8));
    assert_eq!(WideVector { x: -3, y: 4 }.scale_to_length(10), v(-6, 8));
    assert_eq!(WideVector { x: 0, y: 0 }.scale_to_length(10), v(0, 0));
}

#[test]
fn clamp_length_max_only_shortens() {
    assert_eq!(v(30, 40).clamp_length_max(5), v(3, 4));
    assert_eq!(v(3, 4).clamp_length_max(10), v(3, 4));
    assert_eq!(v(3, 4).clamp_length_max(5), v(3, 4));
    assert_eq!(v(-12_000, -1_000).clamp_length_max(200), v(-199, -16));
}

#[test]
fn scale_ratio_rounds_toward_zero() {
    assert_eq!(v(-199, -16).scale_ratio(1_800, 1_000), v(-358, -28));
    assert_eq!(v(199, 16).scale_ratio(1_800, 1_000), v(358, 28));
}

#[test]
fn neighbor_test_is_irreflexive() {
    let p = v(5_000, -7_000);
    assert!(!is_neighbor(&p, &v(1_000, 0), &p, 1_000_000, -10_000));
    assert!(!is_neighbor(&p, &v(0, 0), &p, 1_000_000, -10_000));
}

#[test]
fn neighbor_distance_bound_is_strict() {
    let o = v(0, 0);
    let h = v(1, 0);
    assert!(!is_neighbor(&o, &h, &v(3, 4), 5, -10_000));
    assert!(is_neighbor(&o, &h, &v(3, 4), 6, -10_000));
}

#[test]
fn neighbor_angle_bound_is_strict() {
    // the bearing from (1, 0) to (3, 4) has cosine 0.6 exactly
    let o = v(0, 0);
    let h = v(1, 0);
    assert!(!is_neighbor(&o, &h, &v(3, 4), 100, 6_000));
    assert!(is_neighbor(&o, &h, &v(3, 4), 100, 5_999));
    // at 180 degrees only the exact opposite bearing is excluded
    assert!(!is_neighbor(&o, &h, &v(-5, 0), 100, -10_000));
    assert!(is_neighbor(&o, &h, &v(-5, 1), 100, -10_000));
}

#[test]
fn neighbor_needs_a_heading() {
    assert!(!is_neighbor(&v(0, 0), &v(0, 0), &v(3, 4), 100, -10_000));
}

#[test]
fn separation_neighbor_outside_bearing() {
    // A at (0,0) heading (0,1); B at (10,0) is at 90 degrees, beyond 60
    let spec = SeparationNeighborhood { distance: 40 * UNIT, cos_angle: 5_000 };
    assert!(!spec.are_neighbors(&v(0, 0), &v(0, UNIT), &v(10 * UNIT, 0)));
    let mut bundle = BoidBundle::default();
    bundle.separation_neighborhood = spec;
    let a = spawn_boid(v(0, 0), v(0, UNIT), 12 * UNIT, 200, bundle);
    let b = spawn_boid(v(10 * UNIT, 0), v(0, UNIT), 12 * UNIT, 200, bundle);
    let mut flock = vec![a, b];
    update_separation(&mut flock);
    assert_eq!(flock[0].bundle.separation.steering_vector, v(0, 0));
    assert_eq!(flock[1].bundle.separation.steering_vector, v(0, 0));
    assert_eq!(observe(&flock, 0, BehaviorKind::Separation).0, 0);
}

#[test]
fn separation_pushes_away_from_visible_neighbor() {
    // with the standard 120-degree window B is seen and repels A
    let a = standard_boid(v(0, 0), v(0, UNIT));
    let b = standard_boid(v(10 * UNIT, 0), v(0, UNIT));
    let mut flock = vec![a, b];
    update_separation(&mut flock);
    assert_eq!(flock[0].bundle.separation.steering_vector, v(-358, -28));
    assert_eq!(flock[1].bundle.separation.steering_vector, v(358, -28));
    // nothing else changed
    assert_eq!(flock[0].position, v(0, 0));
    assert_eq!(flock[0].velocity.value, v(0, UNIT));
    assert_eq!(flock[0].bundle.alignment.steering_vector, v(0, 0));
}

#[test]
fn alignment_toward_average_heading() {
    // velocities (1,0), (1,0), (-1,0) average to (1/3, 0)
    let sum = WideVector { x: UNIT as i128, y: 0 };
    let velocity = Velocity { value: v(UNIT, 0), max: 12 * UNIT };
    let acceleration = Acceleration { value: v(0, 0), max: 200 };
    let r = steering_vector(BehaviorKind::Alignment, 3, &sum, &velocity, &acceleration, &v(0, 0), 900);
    // desired (12, 0) minus (1, 0), clamped to 0.2, weighted by 0.9
    assert_eq!(r, v(180, 0));
    let mut alignment = Alignment { steering_vector: v(0, 0), effectiveness: 900 };
    alignment.set_steering_vector(3, sum, &velocity, &acceleration, v(0, 0));
    assert_eq!(alignment.steering_vector, v(180, 0));
}

#[test]
fn alignment_in_a_flock_of_three() {
    let a = standard_boid(v(0, 0), v(UNIT, 0));
    let b = standard_boid(v(0, 10 * UNIT), v(UNIT, 0));
    let c = standard_boid(v(0, 20 * UNIT), v(-UNIT, 0));
    let mut flock = vec![a, b, c];
    assert_eq!(observe(&flock, 2, BehaviorKind::Alignment), (2, WideVector { x: 2 * UNIT as i128, y: 0 }));
    update_alignment(&mut flock);
    // the third sees two boids heading +x and is pulled that way, at the acceleration bound
    assert_eq!(flock[2].bundle.alignment.steering_vector, v(180, 0));
    // each of the others sees headings that cancel: no desired velocity, so it brakes
    assert_eq!(flock[0].bundle.alignment.steering_vector, v(-180, 0));
    assert_eq!(flock[1].bundle.alignment.steering_vector, v(-180, 0));
}

#[test]
fn cohesion_toward_centre() {
    // B sits 10 units to the right of A, inside the cohesion window
    let a = standard_boid(v(0, 0), v(0, UNIT));
    let b = standard_boid(v(10 * UNIT, 0), v(0, UNIT));
    let mut flock = vec![a, b];
    update_cohesion(&mut flock);
    // desired (12, 0) minus (0, 1) = (12, -1): clamped to 0.2, weighted by 0.6
    assert_eq!(flock[0].bundle.cohesion.steering_vector, v(119, -9));
}

#[test]
fn lone_boid_has_no_steering() {
    let a = standard_boid(v(0, 0), v(UNIT, UNIT / 2));
    let mut flock = vec![a];
    tick(&mut flock, 640 * UNIT, 360 * UNIT, BoundaryPolicy::Wrap);
    let b = flock[0];
    assert_eq!(b.bundle.separation.steering_vector, v(0, 0));
    assert_eq!(b.bundle.alignment.steering_vector, v(0, 0));
    assert_eq!(b.bundle.cohesion.steering_vector, v(0, 0));
    assert_eq!(b.acceleration.value, v(0, 0));
    assert_eq!(b.velocity.value, v(UNIT, UNIT / 2));
    assert_eq!(b.position, v(UNIT, UNIT / 2));
    assert_eq!(b.facing, v(UNIT, UNIT / 2));
}

#[test]
fn empty_flock_ticks() {
    let mut flock: Vec<Boid> = Vec::new();
    tick(&mut flock, 640 * UNIT, 360 * UNIT, BoundaryPolicy::Wrap);
    assert!(flock.is_empty());
}

#[test]
fn zero_neighbours_give_zero_steering() {
    let velocity = Velocity { value: v(UNIT, 0), max: 12 * UNIT };
    let acceleration = Acceleration { value: v(0, 0), max: 200 };
    for kind in [BehaviorKind::Separation, BehaviorKind::Alignment, BehaviorKind::Cohesion] {
        let r = steering_vector(kind, 0, &WideVector { x: 0, y: 0 }, &velocity, &acceleration, &v(5, 5), 1_800);
        assert_eq!(r, v(0, 0));
    }
    let mut s = Separation { steering_vector: v(7, 7), effectiveness: 1_800 };
    s.set_steering_vector(0, WideVector { x: 0, y: 0 }, &velocity, &acceleration, v(0, 0));
    assert_eq!(s.steering_vector, v(0, 0));
}

#[test]
fn velocity_is_clamped_to_max_speed() {
    let mut a = standard_boid(v(0, 0), v(11_950, 0));
    a.bundle.separation.steering_vector = v(3 * UNIT, 4 * UNIT);
    let mut flock = vec![a];
    set_acceleration(&mut flock);
    // (3, 4) is longer than the bound 0.2: brought back to length 0.2
    assert_eq!(flock[0].acceleration.value, v(120, 160));
    update_velocity(&mut flock);
    // (12.07, 0.16) is longer than 12: brought back to length 12
    let r = flock[0].velocity.value;
    assert!(r.x * r.x + r.y * r.y <= 144 * UNIT * UNIT);
    assert_eq!(r, v(11_998, 159));
}

#[test]
fn acceleration_is_clamped_after_combination() {
    let mut a = standard_boid(v(0, 0), v(0, 0));
    a.bundle.separation.steering_vector = v(150, 0);
    a.bundle.alignment.steering_vector = v(150, 0);
    a.bundle.cohesion.steering_vector = v(0, 0);
    let mut b = a;
    b.bundle.separation.steering_vector = v(60, 0);
    b.bundle.alignment.steering_vector = v(0, 80);
    let mut flock = vec![a, b];
    set_acceleration(&mut flock);
    assert_eq!(flock[0].acceleration.value, v(200, 0));
    assert_eq!(flock[1].acceleration.value, v(60, 80));
    assert_eq!(flock[0].acceleration.max, 200);
}

#[test]
fn speed_stays_bounded_over_many_ticks() {
    let mut flock = vec![
        standard_boid(v(0, 0), v(UNIT, 0)),
        standard_boid(v(5 * UNIT, 0), v(0, UNIT)),
        standard_boid(v(0, 5 * UNIT), v(-UNIT, -UNIT)),
        standard_boid(v(-3 * UNIT, 2 * UNIT), v(UNIT, -UNIT)),
    ];
    for _ in 0..200 {
        tick(&mut flock, 100 * UNIT, 80 * UNIT, BoundaryPolicy::ClampReflect);
        for b in &flock {
            let s = b.velocity.value;
            assert!(s.x * s.x + s.y * s.y <= b.velocity.max * b.velocity.max);
            assert!(b.position.x.abs() <= 100 * UNIT && b.position.y.abs() <= 80 * UNIT);
        }
    }
}

#[test]
fn wrap_takes_coordinates_modulo_the_extent() {
    let mut a = standard_boid(v(0, 0), v(0, 0));
    a.position = v(650 * UNIT, -370 * UNIT);
    let mut flock = vec![a];
    apply_screen_wrap(&mut flock, 640 * UNIT, 360 * UNIT, BoundaryPolicy::Wrap);
    assert_eq!(flock[0].position, v(-630 * UNIT, 350 * UNIT));
    let once = flock[0].position;
    apply_screen_wrap(&mut flock, 640 * UNIT, 360 * UNIT, BoundaryPolicy::Wrap);
    assert_eq!(flock[0].position, once);
}

#[test]
fn clamp_reflect_teleports_to_the_opposite_edge() {
    let mut a = standard_boid(v(0, 0), v(0, 0));
    a.position = v(650 * UNIT, -370 * UNIT);
    let mut b = a;
    b.position = v(640 * UNIT, 3 * UNIT);
    let mut flock = vec![a, b];
    apply_screen_wrap(&mut flock, 640 * UNIT, 360 * UNIT, BoundaryPolicy::ClampReflect);
    assert_eq!(flock[0].position, v(-640 * UNIT, 360 * UNIT));
    assert_eq!(flock[1].position, v(640 * UNIT, 3 * UNIT));
}

#[test]
fn wrap_in_a_zero_world_collapses_to_origin() {
    let mut a = standard_boid(v(0, 0), v(0, 0));
    a.position = v(5, -5);
    let mut flock = vec![a];
    apply_screen_wrap(&mut flock, 0, 0, BoundaryPolicy::Wrap);
    assert_eq!(flock[0].position, v(0, 0));
}

#[test]
fn facing_is_kept_at_rest() {
    let a = standard_boid(v(0, 0), v(0, 0));
    assert_eq!(a.facing, v(0, UNIT));
    let mut b = a;
    b.facing = v(-3, 4);
    b.update_position();
    assert_eq!(b.facing, v(-3, 4));
    assert_eq!(b.position, v(0, 0));
}

#[test]
fn scanner_uses_angle_between_positions() {
    let s = Scanner { distance: 5 * UNIT, cos_angle: 5_000 };
    assert!(v(UNIT, 0).has_flockmate(&s, &v(UNIT, UNIT)));
    assert!(!v(UNIT, 0).has_flockmate(&s, &v(0, UNIT)));
    assert!(!v(UNIT, 0).has_flockmate(&s, &v(UNIT, 6 * UNIT)));
}

#[test]
fn default_bundle_is_the_standard_boid() {
    let b = BoidBundle::default();
    assert_eq!(b.separation_neighborhood.distance, 40 * UNIT);
    assert_eq!(b.alignment_neighborhood.distance, 60 * UNIT);
    assert_eq!(b.cohesion_neighborhood.distance, 80 * UNIT);
    assert_eq!(b.separation_neighborhood.cos_angle, -5_000);
    assert_eq!(b.separation.effectiveness, 1_800);
    assert_eq!(b.alignment.effectiveness, 900);
    assert_eq!(b.cohesion.effectiveness, 600);
    let l = BoidBundle::large();
    assert_eq!(l.separation_neighborhood.distance, 180 * UNIT);
    assert_eq!(l.cohesion_neighborhood.cos_angle, 5_000);
    assert_eq!(l.separation.effectiveness, 200);
}

#[test]
fn spawned_flock_is_spread_in_the_start_square() {
    let flock = spawn_flock();
    assert_eq!(flock.len(), FLOCK_SIZE + BIG_FLOCK_SIZE);
    for (i, b) in flock.iter().enumerate() {
        assert!(b.position.x >= -START_RADIUS && b.position.x < START_RADIUS);
        assert!(b.position.y >= -START_RADIUS && b.position.y < START_RADIUS);
        assert_eq!(b.acceleration.value, v(0, 0));
        let speed = if i < FLOCK_SIZE { START_VELOCITY } else { BIG_START_VELOCITY } as i128;
        let s = norm_sq(b.velocity.value);
        assert!(s <= speed * speed);
        if s == 0 {
            // only a zero draw leaves a boid at rest, facing up
            assert_eq!(b.facing, v(0, UNIT));
        } else {
            assert!(s >= (speed - 2) * (speed - 2));
            assert_eq!(b.facing, b.velocity.value);
        }
    }
    assert_eq!(flock[0].velocity.max, 12 * UNIT);
    assert_eq!(flock[0].acceleration.max, 200);
    assert_eq!(flock[FLOCK_SIZE].velocity.max, 2 * UNIT);
    assert_eq!(flock[FLOCK_SIZE].acceleration.max, 20);
    assert_eq!(flock[FLOCK_SIZE].bundle, BoidBundle::large());
    assert_eq!(flock[0].bundle, BoidBundle::default());
    let first = flock[0].position;
    assert!(flock.iter().any(|b| b.position != first));
    assert!(flock.iter().any(|b| b.position.x != -START_RADIUS));
    let first_velocity = flock[0].velocity.value;
    assert!(flock.iter().any(|b| b.velocity.value != first_velocity));
}

#[test]
fn start_velocity_is_opposite_the_draw_at_start_speed() {
    assert_eq!(start_velocity(v(500, 0), START_VELOCITY), v(-6_000, 0));
    assert_eq!(start_velocity(v(300, -400), START_VELOCITY), v(-3_600, 4_800));
    assert_eq!(start_velocity(v(1, 1), START_VELOCITY), v(-4_242, -4_242));
    assert_eq!(start_velocity(v(-999, 0), BIG_START_VELOCITY), v(2_000, 0));
    assert_eq!(start_velocity(v(0, 0), START_VELOCITY), v(0, 0));
}

#[test]
fn zero_count_ignores_the_sum() {
    let velocity = Velocity { value: v(UNIT, 0), max: 12 * UNIT };
    let acceleration = Acceleration { value: v(0, 0), max: 200 };
    let sum = WideVector { x: 123_456_789, y: -987_654_321 };
    for kind in [BehaviorKind::Separation, BehaviorKind::Alignment, BehaviorKind::Cohesion] {
        let r = steering_vector(kind, 0, &sum, &velocity, &acceleration, &v(5, 5), 1_800);
        assert_eq!(r, v(0, 0));
    }
    let mut c = Cohesion { steering_vector: v(7, 7), effectiveness: 600 };
    c.set_steering_vector(0, sum, &velocity, &acceleration, v(3, 3));
    assert_eq!(c.steering_vector, v(0, 0));
    assert_eq!(c.effectiveness, 600);
}

#[test]
fn alignment_in_a_flock_of_three_any_order() {
    // the boid heading -x placed first this time
    let c = standard_boid(v(0, 20 * UNIT), v(-UNIT, 0));
    let a = standard_boid(v(0, 0), v(UNIT, 0));
    let b = standard_boid(v(0, 10 * UNIT), v(UNIT, 0));
    let mut flock = vec![c, a, b];
    update_alignment(&mut flock);
    assert_eq!(flock[0].bundle.alignment.steering_vector, v(180, 0));
    assert_eq!(flock[1].bundle.alignment.steering_vector, v(-180, 0));
    assert_eq!(flock[2].bundle.alignment.steering_vector, v(-180, 0));
}

fn norm_sq(v: Vector2) -> i128 {
    (v.x as i128) * (v.x as i128) + (v.y as i128) * (v.y as i128)
}

#[test]
fn acceleration_within_sum_of_behaviour_bounds() {
    let mut flock = vec![
        standard_boid(v(0, 0), v(UNIT, 0)),
        standard_boid(v(3 * UNIT, 1 * UNIT), v(0, UNIT)),
        standard_boid(v(-2 * UNIT, 4 * UNIT), v(-UNIT, UNIT)),
        standard_boid(v(1 * UNIT, -5 * UNIT), v(UNIT, UNIT)),
        standard_boid(v(20 * UNIT, 20 * UNIT), v(0, -UNIT)),
    ];
    update_separation(&mut flock);
    update_alignment(&mut flock);
    update_cohesion(&mut flock);
    set_acceleration(&mut flock);
    let es: i128 = 1_000;
    let mut some_nonzero = false;
    for b in &flock {
        let m = b.acceleration.max as i128;
        let bs = m * b.bundle.separation.effectiveness as i128;
        let ba = m * b.bundle.alignment.effectiveness as i128;
        let bc = m * b.bundle.cohesion.effectiveness as i128;
        assert!(norm_sq(b.bundle.separation.steering_vector) * es * es <= bs * bs);
        assert!(norm_sq(b.bundle.alignment.steering_vector) * es * es <= ba * ba);
        assert!(norm_sq(b.bundle.cohesion.steering_vector) * es * es <= bc * bc);
        assert!(norm_sq(b.acceleration.value) * es * es <= (bs + ba + bc) * (bs + ba + bc));
        assert!(norm_sq(b.acceleration.value) <= m * m);
        some_nonzero |= norm_sq(b.acceleration.value) > 0;
    }
    assert!(some_nonzero);
}
