use panda_arena::arena::{confine_coordinate, wrap_coordinate, Arena};
use panda_arena::bullet::{Bullet, MAX_PHYSICS_VEL};
use panda_arena::controller::{InputState, Key};
use panda_arena::gameboard::{State, COUNTDOWN, GAME_SPEED};
use panda_arena::geometry::{clamp_velocity, direction, isqrt, normalize_angle, ray_time_of_impact, sin_milli, Body, Vec2};
use panda_arena::panda::{Panda, MAX_SPAN, MIN_SPAN, SHOOTING_COOLDOWN};
use panda_arena::scoring::{POINT_LOST_WHEN_SHOT, POINT_WIN_PER_SUCCESSFUL_SHOT};
use panda_arena::sensor::{Sensor, NOTHINGNESS, SENSOR_MAX_DIST};

fn v(x: i64, y: i64) -> Vec2 {
    Vec2 { x, y }
}

fn board(pandas: Vec<Panda>, bullets: Vec<Bullet>) -> State {
    State {
        panda_vector: pandas,
        bullet_vector: bullets,
        arena: Arena::new(500_000, 400_000),
        speed: GAME_SPEED,
        generation: 0,
        countdown: COUNTDOWN,
        wrap_world: true,
        save_dir: String::new(),
    }
}

fn idle() -> InputState {
    InputState::default()
}

#[test]
fn contact_is_symmetric() {
    let a = Body::new(0, false, 1500, v(0, 0));
    let b = Body::new(1, true, 1000, v(2500, 0));
    let c = Body::new(2, true, 1000, v(2501, 0));
    assert!(a.in_contact(&b));
    assert!(b.in_contact(&a));
    assert!(!a.in_contact(&c));
    assert!(!c.in_contact(&a));
    let d = Body::new(3, false, 1500, v(-2100, 2100));
    assert_eq!(a.in_contact(&d), d.in_contact(&a));
    assert!(a.in_contact(&d));
}

#[test]
fn integer_square_root() {
    assert_eq!(isqrt(0), 0);
    assert_eq!(isqrt(15), 3);
    assert_eq!(isqrt(16), 4);
    assert_eq!(isqrt(2_250_000_000_000), 1_500_000);
    assert_eq!(isqrt(2_250_000_000_001), 1_500_000);
}

#[test]
fn headings_point_along_their_unit_vectors() {
    assert_eq!(direction(0), v(0, 1000));
    assert_eq!(direction(1571), v(1000, 0));
    assert_eq!(direction(3142), v(0, -1000));
    assert_eq!(direction(4713), v(-1000, 0));
    assert_eq!(normalize_angle(-1), 6283);
    assert_eq!(normalize_angle(6284 * 3 + 5), 5);
    assert_eq!(sin_milli(-1571), -1000);
    // Bhaskara's approximation at a sixth of a turn.
    assert_eq!(sin_milli(524), 500);
}

#[test]
fn ray_hits_front_of_circle() {
    let b = Body::new(1, false, 1500, v(0, 50_000));
    assert_eq!(ray_time_of_impact(v(0, 0), v(0, 1000), &b), Some(48_500));
    assert_eq!(ray_time_of_impact(v(0, 0), v(0, -1000), &b), None);
    assert_eq!(ray_time_of_impact(v(0, 0), v(1000, 0), &b), None);
    // From inside the circle.
    assert_eq!(ray_time_of_impact(v(0, 49_000), v(1000, 0), &b), Some(0));
    // Off axis, grazing within the radius: 50_000 - sqrt(1500^2 - 1000^2).
    let c = Body::new(1, false, 1500, v(1000, 50_000));
    assert_eq!(ray_time_of_impact(v(0, 0), v(0, 1000), &c), Some(48_881));
}

#[test]
fn sensor_sees_actor_straight_ahead() {
    let mut s = Sensor::new(0, v(0, 0), 0);
    let bodies = vec![Body::new(1, false, 1500, v(0, 50_000))];
    s.update(v(0, 0), &bodies);
    assert_eq!(s.output, [0, 1, SENSOR_MAX_DIST - 48_500]);
    assert_eq!(s.output, [0, 1, 101_500]);
}

#[test]
fn sensor_sees_projectile_straight_ahead() {
    let mut s = Sensor::new(0, v(0, 0), 0);
    let bodies = vec![Body::new(1, true, 1000, v(0, 50_000))];
    s.update(v(0, 0), &bodies);
    assert_eq!(s.output, [10, 0, SENSOR_MAX_DIST - 49_000]);
}

#[test]
fn sensor_aimed_away_sees_nothing() {
    let mut s = Sensor::new(0, v(0, 0), 3142);
    let bodies = vec![Body::new(1, false, 1500, v(0, 50_000)), Body::new(2, true, 1000, v(0, 90_000))];
    s.update(v(0, 0), &bodies);
    assert_eq!(s.output, [0, 0, -NOTHINGNESS]);
}

#[test]
fn sensor_ignores_own_bodies_and_far_ones() {
    let mut s = Sensor::new(0, v(0, 0), 0);
    let bodies = vec![Body::new(0, true, 1000, v(0, 10_000)), Body::new(1, false, 1500, v(0, 200_000))];
    s.update(v(0, 0), &bodies);
    assert_eq!(s.output, [0, 0, -NOTHINGNESS]);
}

#[test]
fn sensor_nearest_wins_and_projectile_breaks_ties() {
    let near_actor = Body::new(1, false, 1500, v(0, 30_000));
    let far_bullet = Body::new(2, true, 1500, v(0, 60_000));
    let tie_bullet = Body::new(3, true, 1500, v(0, 30_000));
    for bodies in [
        vec![near_actor, far_bullet],
        vec![far_bullet, near_actor],
    ] {
        let mut s = Sensor::new(0, v(0, 0), 0);
        s.update(v(0, 0), &bodies);
        assert_eq!(s.output, [0, 1, SENSOR_MAX_DIST - 28_500]);
    }
    for bodies in [
        vec![near_actor, tie_bullet, far_bullet],
        vec![tie_bullet, near_actor, far_bullet],
        vec![far_bullet, near_actor, tie_bullet],
    ] {
        let mut s = Sensor::new(0, v(0, 0), 0);
        s.update(v(0, 0), &bodies);
        assert_eq!(s.output, [10, 0, SENSOR_MAX_DIST - 28_500]);
    }
}

#[test]
fn velocity_clamped_by_norm() {
    assert_eq!(clamp_velocity(v(3_000_000, 4_000_000), MAX_PHYSICS_VEL), v(150_000, 200_000));
    assert_eq!(clamp_velocity(v(-3_000_000, 4_000_000), MAX_PHYSICS_VEL), v(-150_000, 200_000));
    assert_eq!(clamp_velocity(v(100_000, -100_000), MAX_PHYSICS_VEL), v(100_000, -100_000));
    assert_eq!(clamp_velocity(v(0, 0), MAX_PHYSICS_VEL), v(0, 0));
    let r = clamp_velocity(v(2_000_000, 1), MAX_PHYSICS_VEL);
    assert!(r.x * r.x + r.y * r.y <= MAX_PHYSICS_VEL * MAX_PHYSICS_VEL);
    assert_eq!(r, v(249_999, 0));
}

#[test]
fn actor_speed_bounded_after_integration() {
    let arena = Arena::new(500_000, 400_000);
    let mut p = Panda::spawn_at(0, 0, v(250_000, 200_000), 0);
    let mut bullets = Vec::new();
    let push = InputState { yaxis: 1000, ..idle() };
    for _ in 0..200 {
        p.handle_input(&push, &mut bullets, 5555);
        p.update(&arena, &Vec::new(), true, 5555);
        let n = p.velocity.x * p.velocity.x + p.velocity.y * p.velocity.y;
        assert!(n <= MAX_PHYSICS_VEL * MAX_PHYSICS_VEL);
    }
    assert_eq!(p.velocity, v(0, 250_000));
    // Zero thrust stops at once.
    p.handle_input(&idle(), &mut bullets, 5555);
    assert_eq!(p.velocity, v(0, 0));
}

#[test]
fn projectile_speed_bounded_after_integration() {
    let arena = Arena::new(500_000, 400_000);
    let mut b = Bullet::new(0, v(100_000, 100_000), 0, 0);
    assert_eq!(b.velocity, v(0, 2_000_000));
    b.update(&arena, 5555);
    assert_eq!(b.velocity, v(0, 250_000));
    assert_eq!(b.pos, v(100_000, 104_166));
    assert_eq!(b.body.pos, b.pos);
    assert!(!b.to_remove);
    assert!(b.in_bbox(&arena));
}

#[test]
fn projectile_leaving_board_is_marked() {
    let arena = Arena::new(500_000, 400_000);
    let mut b = Bullet::new(0, v(100_000, 399_000), 0, 0);
    b.update(&arena, 5555);
    assert!(b.to_remove);
    assert!(!b.in_bbox(&arena));
}

#[test]
fn field_of_view_stays_within_bounds() {
    let mut p = Panda::spawn_at(0, 0, v(250_000, 200_000), 1000);
    let mut bullets = Vec::new();
    let close = InputState { fov_axis: 5000, ..idle() };
    for _ in 0..500 {
        p.handle_input(&close, &mut bullets, 5555);
        assert!(MIN_SPAN <= p.fov_length && p.fov_length <= MAX_SPAN);
        assert_eq!(p.sensor_left.facing - p.facing, p.fov_length / 2);
        assert_eq!(p.facing - p.sensor_right.facing, p.fov_length / 2);
    }
    assert!(p.fov_length < 200);
    let open = InputState { fov_axis: -5000, ..idle() };
    for _ in 0..500 {
        p.handle_input(&open, &mut bullets, 5555);
        assert!(MIN_SPAN <= p.fov_length && p.fov_length <= MAX_SPAN);
    }
    assert!(p.fov_length > 3900);
    // One step: 2 * (5000 * 5555 / 1_000_000) = 54 milliradians.
    let mut q = Panda::spawn_at(0, 0, v(0, 0), 0);
    q.handle_input(&close, &mut bullets, 5555);
    assert_eq!(q.fov_length, 200 - 54);
    assert_eq!(q.sensor_left.facing, 73);
    assert_eq!(q.sensor_right.facing, -73);
}

#[test]
fn turning_carries_sensors_along() {
    let mut p = Panda::spawn_at(0, 0, v(0, 0), 0);
    let mut bullets = Vec::new();
    let left = InputState { xaxis: 1000, ..idle() };
    p.handle_input(&left, &mut bullets, 1_000_000);
    assert_eq!(p.facing, 1000);
    assert_eq!(p.sensor_left.facing, 1100);
    assert_eq!(p.sensor_right.facing, 900);
    let right = InputState { xaxis: -1000, ..idle() };
    p.handle_input(&right, &mut bullets, 1_000_000);
    p.handle_input(&right, &mut bullets, 1_000_000);
    assert_eq!(p.facing, 6284 - 1000);
    assert_eq!(p.sensor_left.facing, 6284 - 900);
}

#[test]
fn wrap_round_trip() {
    let bound = 300_000;
    let w = wrap_coordinate(-3001, bound);
    assert_eq!(w, -3001 + bound + 6000);
    assert_eq!(wrap_coordinate(w, bound), w);
    let e = wrap_coordinate(bound + 3001, bound);
    assert_eq!(e, -2999);
    assert_eq!(wrap_coordinate(e, bound), e);
    assert_eq!(wrap_coordinate(1234, bound), 1234);
    assert_eq!(confine_coordinate(-3001, bound), 6000);
    assert_eq!(confine_coordinate(bound + 3001, bound), bound - 6000);
}

#[test]
fn wrapping_actor_keeps_its_velocity() {
    let arena = Arena::new(500_000, 400_000);
    let mut p = Panda::spawn_at(0, 0, v(250_000, 401_000), 0);
    p.velocity = v(0, 250_000);
    let before = p.velocity;
    p.update(&arena, &Vec::new(), true, 10_000);
    assert_eq!(p.velocity, before);
    assert_eq!(p.pos, v(250_000, 403_500 - 406_000));
    assert_eq!(p.body.pos, p.pos);
    p.update(&arena, &Vec::new(), true, 10_000);
    assert_eq!(p.pos, v(250_000, -2500 + 2500));
    let mut q = Panda::spawn_at(0, 0, v(250_000, 401_000), 0);
    q.velocity = v(0, 250_000);
    q.update(&arena, &Vec::new(), false, 10_000);
    assert_eq!(q.pos, v(250_000, 400_000 - 6000));
    assert_eq!(q.velocity, v(0, 250_000));
}

#[test]
fn command_from_controller_output() {
    let c = Panda::build_input_from_ai(&[1, -2, 3, -1, 0, 5, 1]);
    assert_eq!(c, InputState { yaxis: -1, xaxis: 2, fov_axis: -5, freeze: 0, fire: true });
    let d = Panda::build_input_from_ai(&[-7, 0, 0, 0, -3, -3, 0, 9]);
    assert_eq!(d, InputState { yaxis: 7, xaxis: 0, fov_axis: 0, freeze: 0, fire: false });
    let e = Panda::build_input_from_ai(&[i32::MIN, i32::MAX, 0, 0, 0, 0, -1]);
    assert_eq!(e.yaxis, 1);
    assert!(!e.fire);
}

#[test]
fn keys_map_to_commands() {
    let mut s = InputState::default();
    s.key_down_event(Key::Up);
    s.key_down_event(Key::Right);
    s.key_down_event(Key::V);
    s.key_down_event(Key::Space);
    s.key_down_event(Key::B);
    assert_eq!(s, InputState { xaxis: -1000, yaxis: 1000, fov_axis: -1000, freeze: 1000, fire: true });
    s.key_up_event(Key::Down);
    s.key_up_event(Key::Left);
    s.key_up_event(Key::C);
    s.key_up_event(Key::Space);
    s.key_up_event(Key::B);
    s.key_up_event(Key::Other);
    assert_eq!(s, InputState::default());
}

#[test]
fn freeze_stops_motion() {
    let mut p = Panda::spawn_at(0, 0, v(0, 0), 0);
    let mut bullets = Vec::new();
    p.handle_input(&InputState { yaxis: 1000, freeze: 1000, ..idle() }, &mut bullets, 5555);
    assert_eq!(p.velocity, v(0, 0));
    p.handle_input(&InputState { yaxis: -1000, ..idle() }, &mut bullets, 1_000_000);
    assert_eq!(p.velocity, v(0, -2_000_000));
}

#[test]
fn perception_vector_layout() {
    let arena = Arena::new(500_000, 400_000);
    let mut p = Panda::spawn_at(0, 0, v(100_000, 100_000), 0);
    // On the line of the left sensor, which looks along heading 100:
    // its direction is (101, 994).
    let bodies = vec![Body::new(1, false, 1500, v(105_050, 149_700))];
    p.update(&arena, &bodies, true, 5555);
    assert_eq!(p.input_to_ai, [1, 200, 0, 1, 101_589, 0, 0, -NOTHINGNESS]);
    assert_eq!(p.cooldown, -5555);
    p.update(&arena, &bodies, true, 5555);
    assert_eq!(p.input_to_ai[0], 1);
}

#[test]
fn cooldown_blocks_fire() {
    let arena = Arena::new(500_000, 400_000);
    let mut p = Panda::spawn_at(0, 0, v(100_000, 100_000), 0);
    p.cooldown = 500_000;
    let mut bullets = Vec::new();
    let fire = InputState { fire: true, ..idle() };
    p.handle_input(&fire, &mut bullets, 100_000);
    assert!(bullets.is_empty());
    assert_eq!(p.cooldown, 500_000);
    let mut ticks = 0;
    while bullets.is_empty() {
        p.update(&arena, &Vec::new(), true, 100_000);
        p.handle_input(&fire, &mut bullets, 100_000);
        ticks += 1;
        assert!(ticks <= 5);
    }
    assert_eq!(ticks, 5);
    assert_eq!(p.cooldown, SHOOTING_COOLDOWN);
    assert_eq!(bullets.len(), 1);
    assert_eq!(bullets[0].tag, 0);
    assert_eq!(bullets[0].pos, p.pos);
    p.handle_input(&fire, &mut bullets, 100_000);
    assert_eq!(bullets.len(), 1);
}

#[test]
fn shot_scores_once_and_projectile_is_swept() {
    let a = Panda::spawn_at(0, 0, v(100_000, 100_000), 0);
    let b = Panda::spawn_at(1, 1, v(100_000, 103_000), 0);
    let mut state = board(vec![a, b], Vec::new());
    let fire = InputState { fire: true, ..idle() };
    state.update(&vec![fire, idle()]);
    assert_eq!(state.bullet_vector.len(), 1);
    assert_eq!(state.panda_vector[0].score, 0);
    assert_eq!(state.panda_vector[1].score, 0);
    state.update(&vec![idle(), idle()]);
    assert_eq!(state.panda_vector[0].score, POINT_WIN_PER_SUCCESSFUL_SHOT);
    assert_eq!(state.panda_vector[1].score, -POINT_LOST_WHEN_SHOT);
    assert_eq!(state.bullet_vector.len(), 1);
    assert!(state.bullet_vector[0].to_remove);
    state.update(&vec![idle(), idle()]);
    assert!(state.bullet_vector.is_empty());
    assert_eq!(state.panda_vector[0].score, POINT_WIN_PER_SUCCESSFUL_SHOT);
    assert_eq!(state.panda_vector[1].score, -POINT_LOST_WHEN_SHOT);
}

fn scored_board(order: &[usize]) -> State {
    let pandas = vec![
        Panda::spawn_at(0, 0, v(10_000, 10_000), 0),
        Panda::spawn_at(1, 1, v(50_000, 10_000), 0),
        Panda::spawn_at(2, 2, v(90_000, 10_000), 0),
    ];
    let shots = [
        Bullet::new(0, v(50_000, 11_000), 0, 0),
        Bullet::new(0, v(90_000, 9_000), 0, 0),
        Bullet::new(1, v(10_500, 10_000), 0, 1),
        Bullet::new(2, v(200_000, 200_000), 0, 2),
        Bullet::new(1, v(51_000, 10_000), 0, 1),
    ];
    board(pandas, order.iter().map(|&i| shots[i]).collect())
}

#[test]
fn score_deltas_sum_to_hits() {
    let mut state = scored_board(&[0, 1, 2, 3, 4]);
    state.handle_collisions();
    let scores: Vec<i64> = state.panda_vector.iter().map(|p| p.score).collect();
    assert_eq!(scores, vec![-77 + 66, -77 + 33, -77]);
    let total: i64 = scores.iter().sum();
    assert_eq!(total, 3 * POINT_WIN_PER_SUCCESSFUL_SHOT - 3 * POINT_LOST_WHEN_SHOT);
    let marks: Vec<bool> = state.bullet_vector.iter().map(|b| b.to_remove).collect();
    assert_eq!(marks, vec![true, true, true, false, false]);
}

#[test]
fn score_deltas_independent_of_order() {
    let mut a = scored_board(&[0, 1, 2, 3, 4]);
    a.handle_collisions();
    for order in [[4, 3, 2, 1, 0], [2, 0, 4, 1, 3], [1, 4, 0, 3, 2]] {
        let mut b = scored_board(&order);
        b.handle_collisions();
        for k in 0..3 {
            assert_eq!(a.panda_vector[k].score, b.panda_vector[k].score);
        }
    }
}

#[test]
fn two_projectiles_of_one_shooter_both_count() {
    let pandas = vec![
        Panda::spawn_at(0, 0, v(10_000, 10_000), 0),
        Panda::spawn_at(1, 1, v(50_000, 10_000), 0),
        Panda::spawn_at(2, 2, v(90_000, 10_000), 0),
    ];
    let bullets = vec![Bullet::new(0, v(50_000, 10_000), 0, 0), Bullet::new(0, v(90_000, 10_000), 0, 0)];
    let mut state = board(pandas, bullets);
    state.handle_collisions();
    assert_eq!(state.panda_vector[0].score, 2 * POINT_WIN_PER_SUCCESSFUL_SHOT);
}

#[test]
fn board_construction_and_epochs() {
    let arena = Arena::new(500_000, 400_000);
    let mut state = State::new(arena, 4);
    assert_eq!(state.panda_vector.len(), 4);
    for (k, p) in state.panda_vector.iter().enumerate() {
        assert_eq!(p.tag, k);
        assert_eq!(p.color, k % 8);
        assert!(p.pos.x >= 0 && p.pos.x < arena.width);
        assert!(p.pos.y >= 0 && p.pos.y < arena.height);
        assert!(p.facing >= 0 && p.facing < 6284);
    }
    assert_eq!(state.save_dir, "tmp/save/");
    assert!(state.has_room());
    state.panda_vector[2].score = 10;
    let idle4 = vec![idle(); 4];
    for k in 0..COUNTDOWN {
        assert!(state.update(&idle4).is_none());
        assert_eq!(state.countdown, COUNTDOWN - 1 - k);
        assert_eq!(state.generation, 0);
    }
    assert_eq!(state.countdown, 0);
    let end = state.update(&idle4).expect("the epoch is over");
    assert_eq!(end.fitness, vec![0, 0, 10, 0]);
    assert!(!end.explore);
    assert_eq!(state.countdown, COUNTDOWN);
    assert_eq!(state.generation, 1);
    assert!(state.bullet_vector.is_empty());
    for (k, p) in state.panda_vector.iter().enumerate() {
        assert_eq!(p.tag, k);
        assert_eq!(p.score, 0);
        assert_eq!(p.cooldown, 0);
        assert_eq!(p.velocity, v(0, 0));
        assert_eq!(p.color, k % 8);
        assert_eq!(p.input_to_ai, [0; 8]);
    }
    state.generation = 49;
    assert!(state.evolve());
}

#[test]
fn board_builders() {
    let arena = Arena::new(500_000, 400_000);
    let state = State::new(arena, 3).wrap_world(false).set_save_directory("elsewhere");
    assert!(!state.wrap_world);
    assert_eq!(state.save_dir, "elsewhere");
    let smaller = State::new(arena, 3).with_actor_capacity(2);
    assert_eq!(smaller.panda_vector.len(), 2);
    let base = State::new(arena, 3);
    let first = base.panda_vector[0].pos;
    let mut base = base;
    base.bullet_vector.push(Bullet::new(2, v(1000, 1000), 0, 2));
    let larger = base.with_actor_capacity(7);
    assert_eq!(larger.bullet_vector.len(), 1);
    assert_eq!(larger.bullet_vector[0].tag, 2);
    assert_eq!(larger.panda_vector.len(), 7);
    for (k, p) in larger.panda_vector.iter().enumerate() {
        assert_eq!(p.tag, k);
        assert_eq!(p.sensor_left.tag, k);
        assert_eq!(p.body.tag, k);
    }
    assert_eq!(larger.panda_vector[3].pos, first);
    assert_eq!(larger.panda_vector[6].pos, first);
}

#[test]
fn speed_controls() {
    let arena = Arena::new(500_000, 400_000);
    let mut state = State::new(arena, 1);
    state.raise_speed();
    assert_eq!(state.speed, GAME_SPEED + 5);
    state.reset_speed();
    assert_eq!(state.speed, GAME_SPEED);
    state.speed = 6;
    state.lower_speed();
    assert_eq!(state.speed, 1);
    state.speed = 5;
    state.lower_speed();
    assert_eq!(state.speed, 5);
}

#[test]
fn reset_board_gives_fresh_actors() {
    let mut state = scored_board(&[0, 1, 2, 3, 4]);
    state.update(&vec![InputState { yaxis: 1000, fire: true, ..idle() }; 3]);
    state.panda_vector[1].score = -5;
    state.reset_board();
    assert_eq!(state.panda_vector.len(), 3);
    assert!(state.bullet_vector.is_empty());
    assert_eq!(state.countdown, COUNTDOWN);
    for (k, p) in state.panda_vector.iter().enumerate() {
        assert_eq!(p.tag, k);
        assert_eq!(p.score, 0);
        assert_eq!(p.velocity, v(0, 0));
        assert_eq!(p.fov_length, 200);
        assert!(p.pos.x >= 0 && p.pos.x <= state.arena.width);
        assert!(p.pos.y >= 0 && p.pos.y <= state.arena.height);
    }
}

#[test]
fn sensors_report_after_actor_step() {
    let arena = Arena::new(500_000, 400_000);
    let mut p = Panda::spawn_at(0, 0, v(100_000, 100_000), 0);
    let bodies = vec![Body::new(1, true, 1500, v(105_050, 149_700))];
    p.update(&arena, &bodies, true, 5555);
    assert_eq!(p.sensor_left.output, [10, 0, 101_589]);
    assert_eq!(p.sensor_right.output, [0, 0, -NOTHINGNESS]);
    assert_eq!(p.sensor_left.pos, p.pos);
    let before = p.sensor_left;
    let mut bullets = Vec::new();
    p.handle_input(&InputState { xaxis: 1000, ..idle() }, &mut bullets, 5555);
    assert_eq!(p.sensor_left.output, before.output);
    assert_eq!(p.sensor_left.distance, before.distance);
    assert_eq!(p.sensor_left.facing, before.facing + 5);
}
