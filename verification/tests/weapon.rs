use asteroids_sim::fixed::Vec2Fx;
use asteroids_sim::laser::{
    laser_despawner, laser_movement, player_shoot_laser, spawn_shooter, LASER_LIFETIME_MS,
    LASER_MAX_COOLDOWN_MS,
};
use asteroids_sim::player::spawn_player;

#[test]
fn cooldown_gates_firing_to_one_shot() {
    // Two fire commands less than the cooldown apart produce exactly
    // one projectile.
    let mut shooter = spawn_shooter();
    let player = spawn_player();
    let mut lasers = Vec::new();

    // The fresh weapon needs its first cooldown to run out.
    player_shoot_laser(&mut shooter, &player, &mut lasers, true, LASER_MAX_COOLDOWN_MS);
    assert_eq!(lasers.len(), 1);

    // 100 ms later the cooldown still runs: the command is a no-op.
    player_shoot_laser(&mut shooter, &player, &mut lasers, true, 100);
    assert_eq!(lasers.len(), 1);

    // Another 100 ms and the cooldown has run out again.
    player_shoot_laser(&mut shooter, &player, &mut lasers, true, 100);
    assert_eq!(lasers.len(), 2);
}

#[test]
fn holding_fire_respects_the_cooldown_rate() {
    let mut shooter = spawn_shooter();
    let player = spawn_player();
    let mut lasers = Vec::new();
    // 20 ticks of 50 ms with fire held: 1000 ms pass, the first shot
    // comes once 200 ms have run out, then one every 200 ms: 5 shots.
    for _ in 0..20 {
        player_shoot_laser(&mut shooter, &player, &mut lasers, true, 50);
    }
    assert_eq!(lasers.len(), 5);
}

#[test]
fn not_firing_spawns_nothing() {
    let mut shooter = spawn_shooter();
    let player = spawn_player();
    let mut lasers = Vec::new();
    for _ in 0..10 {
        player_shoot_laser(&mut shooter, &player, &mut lasers, false, 1000);
    }
    assert_eq!(lasers.len(), 0);
}

#[test]
fn bullet_inherits_ship_velocity_plus_kick() {
    let mut shooter = spawn_shooter();
    let mut player = spawn_player();
    player.velocity = Vec2Fx { x: 0, y: 10_000 };
    let mut lasers = Vec::new();
    player_shoot_laser(&mut shooter, &player, &mut lasers, true, 200);
    assert_eq!(lasers.len(), 1);
    // Heading zero: forward is (0, 1); the kick is additive on top of
    // the ship's own velocity, and the muzzle sits 30 units ahead.
    assert_eq!(lasers[0].velocity, Vec2Fx { x: 0, y: 10_000 + 200_000 });
    assert_eq!(lasers[0].position, Vec2Fx { x: 0, y: 30_000 });
    assert_eq!(lasers[0].heading, 0);
    assert_eq!(lasers[0].life_time.remaining_ms, LASER_LIFETIME_MS);
}

#[test]
fn bullet_advances_by_velocity_times_dt() {
    let mut shooter = spawn_shooter();
    let player = spawn_player();
    let mut lasers = Vec::new();
    player_shoot_laser(&mut shooter, &player, &mut lasers, true, 200);
    laser_movement(&mut lasers, 500);
    // 200 units per second for half a second on top of the muzzle.
    assert_eq!(lasers[0].position, Vec2Fx { x: 0, y: 30_000 + 100_000 });
}

#[test]
fn bullet_expires_at_its_lifetime() {
    let mut shooter = spawn_shooter();
    let player = spawn_player();
    let mut lasers = Vec::new();
    player_shoot_laser(&mut shooter, &player, &mut lasers, true, 200);
    // Four seconds: still flying, one second of life left.
    for _ in 0..4 {
        laser_despawner(&mut lasers, 1000);
    }
    assert_eq!(lasers.len(), 1);
    assert_eq!(lasers[0].life_time.remaining_ms, 1000);
    // The fifth second brings the lifetime to zero: removed that tick.
    laser_despawner(&mut lasers, 1000);
    assert_eq!(lasers.len(), 0);
}

#[test]
fn zero_dt_keeps_bullets_alive() {
    let mut shooter = spawn_shooter();
    let player = spawn_player();
    let mut lasers = Vec::new();
    player_shoot_laser(&mut shooter, &player, &mut lasers, true, 200);
    laser_despawner(&mut lasers, 0);
    assert_eq!(lasers.len(), 1);
    assert_eq!(lasers[0].life_time.remaining_ms, LASER_LIFETIME_MS);
}

#[test]
fn despawner_on_an_empty_row_is_a_no_op() {
    let mut lasers = Vec::new();
    laser_despawner(&mut lasers, 1000);
    laser_movement(&mut lasers, 1000);
    assert_eq!(lasers.len(), 0);
}
