use asteroids_sim::asteroid::{
    asteroid_distance_cleanup, asteroid_movement, asteroid_number_timer, asteroid_rotation,
    asteroids_setup, spawn_asteroid, Asteroid, AsteroidsStats, ASTEROID_CULL_DISTANCE,
    ASTEROID_SPAWN_INTERVAL_MS, ASTEROID_SPAWN_RADIUS_MAX, ASTEROID_SPEED_MAX,
    ASTEROID_SPIN_LIMIT, ASTEROID_VARIANT_COUNT,
};
use asteroids_sim::fixed::Vec2Fx;
use asteroids_sim::input::InputState;
use asteroids_sim::world::World;

fn far_rock(x: i64, y: i64) -> Asteroid {
    Asteroid {
        position: Vec2Fx { x, y },
        velocity: Vec2Fx { x: 0, y: 0 },
        angular_velocity: 0,
        heading: 0,
        variant: 0,
    }
}

#[test]
fn difficulty_rises_by_one_each_interval() {
    let mut stats = asteroids_setup();
    assert_eq!(stats.target_number, 1);
    // Four seconds accumulate without a raise.
    for tick in 1..=4u64 {
        asteroid_number_timer(&mut stats, 1000);
        assert_eq!(stats.target_number, 1);
        assert_eq!(stats.spawn_elapsed_ms, tick * 1000);
    }
    // The fifth second completes the interval: exactly one raise, and
    // the timer restarts at its fixed interval.
    asteroid_number_timer(&mut stats, 1000);
    assert_eq!(stats.target_number, 2);
    assert_eq!(stats.spawn_elapsed_ms, 0);
    assert_eq!(stats.spawn_interval_ms, ASTEROID_SPAWN_INTERVAL_MS);
    // And again: never a decrease, one per interval.
    for _ in 0..5 {
        asteroid_number_timer(&mut stats, 1000);
    }
    assert_eq!(stats.target_number, 3);
}

#[test]
fn population_converges_in_exactly_target_ticks() {
    let mut stats = AsteroidsStats {
        target_number: 5,
        current_number: 0,
        spawn_interval_ms: ASTEROID_SPAWN_INTERVAL_MS,
        spawn_elapsed_ms: 0,
    };
    let mut rocks: Vec<Asteroid> = Vec::new();
    let player = Vec2Fx { x: 0, y: 0 };
    for tick in 1..=5u32 {
        spawn_asteroid(&mut stats, &mut rocks, player);
        assert_eq!(rocks.len(), tick as usize);
        assert_eq!(stats.current_number, tick);
    }
    // At the target, filling stops: never more than one per tick and
    // never beyond the target.
    spawn_asteroid(&mut stats, &mut rocks, player);
    assert_eq!(rocks.len(), 5);
    assert_eq!(stats.current_number, 5);
}

#[test]
fn spawn_draws_stay_in_their_ranges() {
    let mut stats = AsteroidsStats {
        target_number: 50,
        current_number: 0,
        spawn_interval_ms: ASTEROID_SPAWN_INTERVAL_MS,
        spawn_elapsed_ms: 0,
    };
    let mut rocks: Vec<Asteroid> = Vec::new();
    let player = Vec2Fx { x: 0, y: 0 };
    for _ in 0..50 {
        spawn_asteroid(&mut stats, &mut rocks, player);
    }
    for rock in &rocks {
        // On the ring: each coordinate within the outer radius, and far
        // enough out that the diagonal cannot hide it at the origin.
        assert!(rock.position.x.abs() <= ASTEROID_SPAWN_RADIUS_MAX);
        assert!(rock.position.y.abs() <= ASTEROID_SPAWN_RADIUS_MAX);
        assert!(rock.position.x.abs().max(rock.position.y.abs()) >= 100_000);
        assert!(rock.velocity.x.abs() <= ASTEROID_SPEED_MAX);
        assert!(rock.velocity.y.abs() <= ASTEROID_SPEED_MAX);
        assert!(rock.angular_velocity.abs() <= ASTEROID_SPIN_LIMIT);
        assert!((rock.variant as i64) < ASTEROID_VARIANT_COUNT);
        assert_eq!(rock.heading, 0);
    }
}

#[test]
fn culling_threshold_is_exact() {
    let player = Vec2Fx { x: 0, y: 0 };
    let mut rocks = vec![
        far_rock(ASTEROID_CULL_DISTANCE + 1, 0),
        far_rock(ASTEROID_CULL_DISTANCE - 1, 0),
        far_rock(ASTEROID_CULL_DISTANCE, 0),
        far_rock(283_000, 283_000),
        far_rock(-282_000, 282_000),
    ];
    let mut stats = AsteroidsStats {
        target_number: 5,
        current_number: rocks.len() as u32,
        spawn_interval_ms: ASTEROID_SPAWN_INTERVAL_MS,
        spawn_elapsed_ms: 0,
    };
    asteroid_distance_cleanup(&mut rocks, &mut stats, player);
    // Strictly beyond 400 units goes, at or within 400 units stays;
    // the diagonal at ~400.2 units goes, the one at ~398.8 stays.
    assert_eq!(rocks.len(), 3);
    assert_eq!(stats.current_number, 3);
    assert_eq!(rocks[0].position, Vec2Fx { x: ASTEROID_CULL_DISTANCE - 1, y: 0 });
    assert_eq!(rocks[1].position, Vec2Fx { x: ASTEROID_CULL_DISTANCE, y: 0 });
    assert_eq!(rocks[2].position, Vec2Fx { x: -282_000, y: 282_000 });
}

#[test]
fn fresh_spawn_is_never_culled_in_the_same_tick() {
    let player = Vec2Fx { x: 0, y: 0 };
    for _ in 0..50 {
        let mut stats = AsteroidsStats {
            target_number: 1,
            current_number: 0,
            spawn_interval_ms: ASTEROID_SPAWN_INTERVAL_MS,
            spawn_elapsed_ms: 0,
        };
        let mut rocks: Vec<Asteroid> = Vec::new();
        spawn_asteroid(&mut stats, &mut rocks, player);
        asteroid_distance_cleanup(&mut rocks, &mut stats, player);
        assert_eq!(rocks.len(), 1);
    }
}

#[test]
fn asteroids_drift_and_tumble_by_their_rates() {
    let mut rocks = vec![Asteroid {
        position: Vec2Fx { x: 1_000, y: 2_000 },
        velocity: Vec2Fx { x: -500, y: 250 },
        angular_velocity: 600,
        heading: 6_000,
        variant: 1,
    }];
    asteroid_rotation(&mut rocks, 1000);
    asteroid_movement(&mut rocks, 1000);
    assert_eq!(rocks[0].position, Vec2Fx { x: 500, y: 2_250 });
    assert_eq!(rocks[0].heading, 6_600 - 6_284);
    asteroid_rotation(&mut rocks, 0);
    asteroid_movement(&mut rocks, 0);
    assert_eq!(rocks[0].position, Vec2Fx { x: 500, y: 2_250 });
    assert_eq!(rocks[0].heading, 6_600 - 6_284);
}

#[test]
fn world_enters_at_fixed_initial_values() {
    let w = World::enter_simulation();
    assert_eq!(w.stats.target_number, 1);
    assert_eq!(w.stats.current_number, 0);
    assert_eq!(w.lasers.len(), 0);
    assert_eq!(w.asteroids.len(), 0);
    assert_eq!(w.player.position, Vec2Fx { x: 0, y: 0 });
    assert_eq!(w.player.heading, 0);
    assert_eq!(w.score(), 0);
}

#[test]
fn world_ticks_fill_and_escalate() {
    let mut w = World::enter_simulation();
    let idle = InputState::released();
    // First tick: the fill brings the population to the target of one.
    w.tick(idle, 1000);
    assert_eq!(w.asteroids.len(), 1);
    assert_eq!(w.stats.target_number, 1);
    // Ticks two to four change neither count; the fifth completes the
    // difficulty interval and the fill follows with one more asteroid.
    for _ in 0..3 {
        w.tick(idle, 1000);
        assert_eq!(w.asteroids.len(), 1);
    }
    w.tick(idle, 1000);
    assert_eq!(w.stats.target_number, 2);
    assert_eq!(w.asteroids.len(), 2);
    // The live count never exceeds the target.
    for _ in 0..20 {
        w.tick(idle, 500);
        assert!(w.stats.current_number <= w.stats.target_number);
        assert_eq!(w.stats.current_number as usize, w.asteroids.len());
    }
}

#[test]
fn world_tick_with_fire_spawns_bullets() {
    let mut w = World::enter_simulation();
    let firing = InputState { fire: true, ..InputState::released() };
    w.tick(firing, 200);
    assert_eq!(w.lasers.len(), 1);
    w.tick(firing, 100);
    assert_eq!(w.lasers.len(), 1);
    w.tick(firing, 100);
    assert_eq!(w.lasers.len(), 2);
}

#[test]
fn world_exit_tears_everything_down() {
    let mut w = World::enter_simulation();
    let firing = InputState { fire: true, ..InputState::released() };
    for _ in 0..10 {
        w.tick(firing, 300);
    }
    assert!(!w.asteroids.is_empty());
    w.exit_simulation();
    assert_eq!(w.asteroids.len(), 0);
    assert_eq!(w.lasers.len(), 0);
    assert_eq!(w.stats.target_number, 1);
    assert_eq!(w.stats.current_number, 0);
    assert_eq!(w.player.position, Vec2Fx { x: 0, y: 0 });
}

#[test]
fn empty_fields_pass_through_every_system() {
    let player = Vec2Fx { x: 0, y: 0 };
    let mut rocks: Vec<Asteroid> = Vec::new();
    let mut stats = asteroids_setup();
    asteroid_rotation(&mut rocks, 1000);
    asteroid_movement(&mut rocks, 1000);
    asteroid_distance_cleanup(&mut rocks, &mut stats, player);
    assert_eq!(rocks.len(), 0);
    assert_eq!(stats.current_number, 0);
}

#[test]
fn world_tick_at_zero_dt_moves_nothing() {
    let mut w = World::enter_simulation();
    w.tick(InputState::released(), 1000);
    let pos = w.player.position;
    let cam = w.camera.position;
    let rock = w.asteroids[0];
    w.tick(InputState::released(), 0);
    assert_eq!(w.player.position, pos);
    assert_eq!(w.camera.position, cam);
    assert_eq!(w.asteroids[0].position, rock.position);
    assert_eq!(w.asteroids[0].heading, rock.heading);
}
