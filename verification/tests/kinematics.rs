use asteroids_sim::angle::{cos_mrad, normalize_angle, sin_mrad, vec2_from_circle, FULL_TURN_MRAD};
use asteroids_sim::camera::{camera_follow, spawn_camera};
use asteroids_sim::fixed::Vec2Fx;
use asteroids_sim::input::InputState;
use asteroids_sim::player::{acceleration, rotation, spawn_player, PLAYER_MAX_ROT_RATE};

fn no_input() -> InputState {
    InputState::released()
}

fn thrust_forward() -> InputState {
    InputState { thrust_forward: true, ..InputState::released() }
}

#[test]
fn example_scenario_thrust_one_second() {
    // Player at the origin facing angle zero (forward = (0, 1)),
    // thrust-forward held for one second: velocity becomes (0, 50),
    // position becomes (0, 50) -- in milli-units, (0, 50_000).
    let mut p = spawn_player();
    rotation(&mut p, thrust_forward(), 1000);
    acceleration(&mut p, thrust_forward(), 1000);
    assert_eq!(p.velocity, Vec2Fx { x: 0, y: 50_000 });
    assert_eq!(p.position, Vec2Fx { x: 0, y: 50_000 });
    assert_eq!(p.heading, 0);
}

#[test]
fn rest_with_zero_dt_changes_nothing() {
    let mut p = spawn_player();
    p.velocity = Vec2Fx { x: 1234, y: -777 };
    p.position = Vec2Fx { x: 55, y: 66 };
    p.angular_rate = 500;
    p.heading = 123;
    let before = p;
    rotation(&mut p, no_input(), 0);
    acceleration(&mut p, no_input(), 0);
    assert_eq!(p, before);

    let mut cam = spawn_camera();
    cam.position = Vec2Fx { x: -9, y: 12 };
    let cam_before = cam;
    camera_follow(&mut cam, Vec2Fx { x: 100_000, y: 0 }, 0);
    assert_eq!(cam, cam_before);
}

#[test]
fn damping_shrinks_velocity_without_sign_change() {
    let mut p = spawn_player();
    p.velocity = Vec2Fx { x: 10_000, y: -10_000 };
    // One 100 ms tick: decrement is 10_000 * 200 * 100 / 1_000_000 = 200.
    rotation(&mut p, no_input(), 100);
    acceleration(&mut p, no_input(), 100);
    assert_eq!(p.velocity.x, 9_800);
    assert_eq!(p.velocity.y, -9_800);
    // Velocity magnitude decreases tick over tick and never flips sign.
    let mut last = p.velocity.x;
    for _ in 0..200 {
        rotation(&mut p, no_input(), 100);
        acceleration(&mut p, no_input(), 100);
        assert!(p.velocity.x >= 0);
        assert!(p.velocity.x <= last);
        assert_eq!(p.velocity.y, -p.velocity.x);
        last = p.velocity.x;
    }
}

#[test]
fn damping_stalls_only_below_fixed_point_epsilon() {
    let mut p = spawn_player();
    p.velocity = Vec2Fx { x: 3, y: 0 };
    // 3 * 200 * 100 / 1_000_000 truncates to zero: within fixed-point
    // epsilon of rest, the component no longer moves.
    rotation(&mut p, no_input(), 100);
    acceleration(&mut p, no_input(), 100);
    assert_eq!(p.velocity.x, 3);
}

#[test]
fn rotation_rate_clamps_at_max() {
    let mut p = spawn_player();
    p.angular_rate = 2_400;
    let left = InputState { rotate_left: true, ..InputState::released() };
    rotation(&mut p, left, 1000);
    assert_eq!(p.angular_rate, PLAYER_MAX_ROT_RATE);
    assert_eq!(p.heading, 2_500);
}

#[test]
fn rotation_wraps_modulo_full_turn() {
    let mut p = spawn_player();
    p.heading = 6_000;
    p.angular_rate = 2_500;
    let left = InputState { rotate_left: true, ..InputState::released() };
    rotation(&mut p, left, 1000);
    // Rate stays clamped at 2_500; heading 6_000 + 2_500 wraps.
    assert_eq!(p.heading, (6_000 + 2_500) - FULL_TURN_MRAD);
}

#[test]
fn opposed_keys_cancel_but_skip_decay() {
    let both_rotate = InputState { rotate_left: true, rotate_right: true, ..InputState::released() };
    let mut p = spawn_player();
    p.angular_rate = 1_000;
    rotation(&mut p, both_rotate, 1000);
    assert_eq!(p.angular_rate, 1_000);

    let both_thrust =
        InputState { thrust_forward: true, thrust_back: true, ..InputState::released() };
    let mut q = spawn_player();
    q.velocity = Vec2Fx { x: 4_000, y: 0 };
    rotation(&mut q, both_thrust, 1000);
    acceleration(&mut q, both_thrust, 1000);
    assert_eq!(q.velocity, Vec2Fx { x: 4_000, y: 0 });
}

#[test]
fn camera_catches_player_at_hundred_units() {
    // At 100 units the correction strength is exactly one per second,
    // so a one-second tick lands the camera on the player.
    let mut cam = spawn_camera();
    camera_follow(&mut cam, Vec2Fx { x: 100_000, y: 0 }, 1000);
    assert_eq!(cam.position, Vec2Fx { x: 100_000, y: 0 });
}

#[test]
fn camera_barely_moves_when_near() {
    // At 10 units the strength is 0.01 per second: 0.1 units in a second.
    let mut cam = spawn_camera();
    camera_follow(&mut cam, Vec2Fx { x: 10_000, y: 0 }, 1000);
    assert_eq!(cam.position, Vec2Fx { x: 100, y: 0 });
}

#[test]
fn trig_is_exact_at_quarter_turns() {
    assert_eq!(sin_mrad(0), 0);
    assert_eq!(cos_mrad(0), 1000);
    assert_eq!(sin_mrad(1571), 1000);
    assert_eq!(cos_mrad(1571), 0);
    assert_eq!(sin_mrad(3142), 0);
    assert_eq!(cos_mrad(3142), -1000);
    assert_eq!(sin_mrad(4713), -1000);
}

#[test]
fn trig_stays_within_scale() {
    for a in 0..FULL_TURN_MRAD {
        let s = sin_mrad(a);
        let c = cos_mrad(a);
        assert!((-1000..=1000).contains(&s));
        assert!((-1000..=1000).contains(&c));
    }
}

#[test]
fn forward_at_zero_heading_is_positive_y() {
    let v = vec2_from_circle(0, 5_000);
    assert_eq!(v, Vec2Fx { x: 0, y: 5_000 });
    let left = vec2_from_circle(1571, 5_000);
    assert_eq!(left, Vec2Fx { x: -5_000, y: 0 });
}

#[test]
fn angles_normalize_into_one_turn() {
    assert_eq!(normalize_angle(-100), FULL_TURN_MRAD - 100);
    assert_eq!(normalize_angle(FULL_TURN_MRAD), 0);
    assert_eq!(normalize_angle(3 * FULL_TURN_MRAD + 7), 7);
    assert_eq!(normalize_angle(-FULL_TURN_MRAD), 0);
}
