//! The simulation world: every entity the scene owns, and the tick that
//! advances them all in their fixed order.
//!
//! Per tick: integrate the player's turn, then its translation; follow
//! with the camera; run the weapon cooldown and possibly fire; advance
//! and expire the laser bullets; turn and drift the asteroids; tick the
//! difficulty timer; fill the population by at most one asteroid; and
//! finally cull the asteroids that strayed too far.  Entering the scene
//! builds everything at fixed initial values; leaving it tears
//! everything down.

use vstd::prelude::*;

verus! {

use crate::angle::FULL_TURN_MRAD;
use crate::asteroid::ASTEROID_SPAWN_INTERVAL_MS;
use crate::asteroid::Asteroid;
use crate::asteroid::AsteroidV;
use crate::asteroid::AsteroidsStats;
use crate::asteroid::SampleV;
use crate::asteroid::StatsV;
use crate::asteroid::asteroid_distance_cleanup;
use crate::asteroid::asteroid_from_sample;
use crate::asteroid::asteroid_movement;
use crate::asteroid::asteroid_number_timer;
use crate::asteroid::asteroid_rotation;
use crate::asteroid::asteroids_setup;
use crate::asteroid::asteroids_view;
use crate::asteroid::cull_asteroids;
use crate::asteroid::lemma_cull_asteroids_preserves;
use crate::asteroid::move_asteroids;
use crate::asteroid::number_timer_step;
use crate::asteroid::sample_wf;
use crate::asteroid::spawn_asteroid;
use crate::asteroid::turn_asteroids;
use crate::camera::CameraV;
use crate::camera::PlayerCamera;
use crate::camera::camera_follow;
use crate::camera::camera_follow_step;
use crate::camera::spawn_camera;
use crate::fixed::MAX_TICK_MS;
use crate::fixed::POS_LIMIT;
use crate::fixed::VEL_LIMIT;
use crate::fixed::Vec2V;
use crate::laser::LASER_LIFETIME_MS;
use crate::laser::LASER_MAX_COOLDOWN_MS;
use crate::laser::LASER_MUZZLE_OFFSET;
use crate::laser::LaserBullet;
use crate::laser::LaserShooter;
use crate::laser::LaserV;
use crate::laser::ShooterV;
use crate::laser::despawn_lasers;
use crate::laser::laser_age;
use crate::laser::laser_despawner;
use crate::laser::laser_move;
use crate::laser::laser_movement;
use crate::laser::lasers_view;
use crate::laser::lemma_despawn_lasers_preserves;
use crate::laser::move_lasers;
use crate::laser::new_laser;
use crate::laser::player_shoot_laser;
use crate::laser::shoot_step;
use crate::laser::spawn_shooter;
use crate::player::Player;
use crate::player::PlayerV;
use crate::player::acceleration;
use crate::player::acceleration_step;
use crate::player::player_wf;
use crate::player::rotation;
use crate::player::rotation_step;
use crate::player::spawn_player;
use crate::input::InputState;

/// Everything the scene owns while the simulation runs.
pub struct World {
    pub player: Player,
    pub camera: PlayerCamera,
    pub shooter: LaserShooter,
    pub lasers: Vec<LaserBullet>,
    pub asteroids: Vec<Asteroid>,
    pub stats: AsteroidsStats,
}

/// Mathematical view of a `World`.
pub struct WorldV {
    pub player: PlayerV,
    pub camera: CameraV,
    pub shooter: ShooterV,
    pub lasers: Seq<LaserV>,
    pub asteroids: Seq<AsteroidV>,
    pub stats: StatsV,
}

impl View for World {
    type V = WorldV;

    open spec fn view(&self) -> WorldV {
        WorldV {
            player: self.player@,
            camera: self.camera@,
            shooter: self.shooter@,
            lasers: lasers_view(self.lasers@),
            asteroids: asteroids_view(self.asteroids@),
            stats: self.stats@,
        }
    }
}

/// Per-bullet facts that every tick keeps: lifetime within its full
/// span, heading reduced, speed within what firing can produce.
pub open spec fn laser_persistent_ok(l: LaserV) -> bool {
    &&& 0 <= l.life_time <= LASER_LIFETIME_MS
    &&& 0 <= l.heading < FULL_TURN_MRAD
    &&& -50_250_000 <= l.velocity.x <= 50_250_000
    &&& -50_250_000 <= l.velocity.y <= 50_250_000
}

/// A live bullet: persistent facts plus lifetime left.
pub open spec fn laser_ok(l: LaserV) -> bool {
    laser_persistent_ok(l) && l.life_time > 0
}

/// Per-asteroid facts that every tick keeps: heading reduced, tumble
/// and drift within what spawning can produce, a real sprite variant.
pub open spec fn asteroid_ok(a: AsteroidV) -> bool {
    &&& 0 <= a.heading < FULL_TURN_MRAD
    &&& -700 <= a.angular_velocity <= 700
    &&& -80_000 <= a.velocity.x <= 80_000
    &&& -80_000 <= a.velocity.y <= 80_000
    &&& 0 <= a.variant < 3
}

/// The world's own invariant, established on scene entry and kept by
/// every tick: the live count is the asteroid count and never exceeds
/// the target, the difficulty timer sits inside its fixed interval, the
/// weapon cooldown inside its span, and every entity is individually
/// well formed.
pub open spec fn world_counts_ok(w: WorldV) -> bool {
    &&& player_wf(w.player)
    &&& w.stats.current_number == w.asteroids.len()
    &&& w.stats.current_number <= w.stats.target_number
    &&& w.stats.spawn_interval == ASTEROID_SPAWN_INTERVAL_MS
    &&& 0 <= w.stats.spawn_elapsed < w.stats.spawn_interval
    &&& 0 <= w.shooter.cooldown <= LASER_MAX_COOLDOWN_MS
    &&& w.shooter.offset == LASER_MUZZLE_OFFSET
    &&& forall|i: int| 0 <= i < w.lasers.len() ==> laser_ok(#[trigger] w.lasers[i])
    &&& forall|i: int| 0 <= i < w.asteroids.len() ==> asteroid_ok(#[trigger] w.asteroids[i])
}

/// Numeric bounds under which a tick cannot overflow: every position in
/// the world within its limit.  Machine limits only; a tick is not
/// proved to re-establish them, but it can leave them only by a
/// microscopic margin next to the limits themselves.
pub open spec fn world_in_bounds(w: WorldV) -> bool {
    &&& -POS_LIMIT <= w.player.position.x <= POS_LIMIT
    &&& -POS_LIMIT <= w.player.position.y <= POS_LIMIT
    &&& -VEL_LIMIT <= w.player.velocity.x <= VEL_LIMIT
    &&& -VEL_LIMIT <= w.player.velocity.y <= VEL_LIMIT
    &&& -POS_LIMIT <= w.camera.position.x <= POS_LIMIT
    &&& -POS_LIMIT <= w.camera.position.y <= POS_LIMIT
    &&& forall|i: int| 0 <= i < w.lasers.len() ==> {
        &&& -900_000_000 <= (#[trigger] w.lasers[i]).position.x <= 900_000_000
        &&& -900_000_000 <= w.lasers[i].position.y <= 900_000_000
    }
    &&& forall|i: int| 0 <= i < w.asteroids.len() ==> {
        &&& -900_000_000 <= (#[trigger] w.asteroids[i]).position.x <= 900_000_000
        &&& -900_000_000 <= w.asteroids[i].position.y <= 900_000_000
    }
}

/// The world as scene entry builds it.
pub open spec fn initial_world() -> WorldV {
    WorldV {
        player: PlayerV {
            position: Vec2V { x: 0, y: 0 },
            velocity: Vec2V { x: 0, y: 0 },
            angular_rate: 0,
            heading: 0,
        },
        camera: CameraV { position: Vec2V { x: 0, y: 0 } },
        shooter: ShooterV {
            cooldown: LASER_MAX_COOLDOWN_MS as int,
            offset: LASER_MUZZLE_OFFSET as int,
        },
        lasers: Seq::empty(),
        asteroids: Seq::empty(),
        stats: StatsV {
            target_number: 1,
            current_number: 0,
            spawn_interval: ASTEROID_SPAWN_INTERVAL_MS as int,
            spawn_elapsed: 0,
        },
    }
}

/// One whole tick of the world, in the fixed order described above,
/// around the one spawn sample `sv` the tick may consume.
pub open spec fn world_tick_spec(w: WorldV, input: InputState, dt: int, sv: SampleV) -> WorldV {
    let p1 = rotation_step(w.player, input, dt);
    let p2 = acceleration_step(p1, input, dt);
    let cam = CameraV { position: camera_follow_step(w.camera.position, p2.position, dt) };
    let sl = shoot_step(w.shooter, p2, w.lasers, input.fire, dt);
    let lasers_after = despawn_lasers(move_lasers(sl.1, dt), dt);
    let drifted = move_asteroids(turn_asteroids(w.asteroids, dt), dt);
    let st1 = number_timer_step(w.stats, dt);
    let filled = crate::asteroid::spawn_step_spec(st1, drifted, p2.position, sv);
    let st2 = filled.0;
    let asts2 = filled.1;
    let survivors = cull_asteroids(asts2, p2.position);
    WorldV {
        player: p2,
        camera: cam,
        shooter: sl.0,
        lasers: lasers_after,
        asteroids: survivors,
        stats: StatsV { current_number: survivors.len() as int, ..st2 },
    }
}

impl World {
    /// Build the world the scene owns on entry: player and camera at
    /// the origin, weapon cold, no bullets, no asteroids, pacing at one
    /// wanted and none live.
    pub fn enter_simulation() -> (w: World)
        ensures
            w@ == initial_world(),
            world_counts_ok(w@),
            world_in_bounds(w@),
    {
        let w = World {
            player: spawn_player(),
            camera: spawn_camera(),
            shooter: spawn_shooter(),
            lasers: Vec::new(),
            asteroids: Vec::new(),
            stats: asteroids_setup(),
        };
        proof {
            assert(lasers_view(w.lasers@) =~= Seq::<LaserV>::empty());
            assert(asteroids_view(w.asteroids@) =~= Seq::<AsteroidV>::empty());
            assert(w@ =~= initial_world());
        }
        w
    }

    /// Tear everything down, back to the state a fresh entry builds:
    /// the population fill stops (none wanted beyond the initial one),
    /// asteroids and bullets are destroyed, player and camera reset.
    pub fn exit_simulation(&mut self)
        ensures
            final(self)@ == initial_world(),
    {
        self.stats = asteroids_setup();
        self.asteroids = Vec::new();
        self.lasers = Vec::new();
        self.player = spawn_player();
        self.camera = spawn_camera();
        self.shooter = spawn_shooter();
        proof {
            assert(lasers_view(self.lasers@) =~= Seq::<LaserV>::empty());
            assert(asteroids_view(self.asteroids@) =~= Seq::<AsteroidV>::empty());
            assert(self@ =~= initial_world());
        }
    }

    /// The score the display sink may read; the core never computes
    /// one, so it is the placeholder zero.
    pub fn score(&self) -> (s: u32)
        ensures
            s == 0,
    {
        0
    }

    /// One simulated tick.  Everything but the one spawn draw is
    /// determined by the old state, the input and `dt`; the draw is
    /// covered by some in-range sample, and the world's invariant is
    /// kept.
    #[verifier::rlimit(80)]
    pub fn tick(&mut self, input: InputState, dt_ms: u64)
        requires
            world_counts_ok(old(self)@),
            world_in_bounds(old(self)@),
            dt_ms <= MAX_TICK_MS,
            old(self)@.stats.target_number < u32::MAX,
        ensures
            exists|sv: SampleV| sample_wf(sv) && final(self)@ == world_tick_spec(
                old(self)@,
                input,
                dt_ms as int,
                sv,
            ),
            world_counts_ok(final(self)@),
    {
        let ghost w0 = old(self)@;
        let ghost dt = dt_ms as int;

        rotation(&mut self.player, input, dt_ms);
        acceleration(&mut self.player, input, dt_ms);
        let ghost p2 = self.player@;
        assert(p2 == acceleration_step(rotation_step(w0.player, input, dt), input, dt));

        camera_follow(&mut self.camera, self.player.position, dt_ms);
        assert(self.camera@.position == camera_follow_step(w0.camera.position, p2.position, dt));

        player_shoot_laser(&mut self.shooter, &self.player, &mut self.lasers, input.fire, dt_ms);
        let ghost sl = shoot_step(w0.shooter, p2, w0.lasers, input.fire, dt);
        assert(self.shooter@ == sl.0);
        assert(lasers_view(self.lasers@) == sl.1);

        proof {
            assert forall|i: int| 0 <= i < sl.1.len() implies laser_persistent_ok(
                #[trigger] sl.1[i],
            ) by {
                if i < w0.lasers.len() {
                    assert(laser_ok(w0.lasers[i]));
                } else {
                    crate::angle::lemma_circle_vec_bound(p2.heading, 200_000);
                }
            }
            assert forall|i: int| 0 <= i < self.lasers@.len() implies {
                &&& -1_000_000_000 <= (#[trigger] self.lasers@[i]).position.x <= 1_000_000_000
                &&& -1_000_000_000 <= self.lasers@[i].position.y <= 1_000_000_000
                &&& -100_000_000 <= self.lasers@[i].velocity.x <= 100_000_000
                &&& -100_000_000 <= self.lasers@[i].velocity.y <= 100_000_000
            } by {
                assert(self.lasers@[i]@ == sl.1[i]);
                assert(laser_persistent_ok(sl.1[i]));
                if i < w0.lasers.len() {
                    assert(w0.lasers[i] == lasers_view(old(self).lasers@)[i]);
                } else {
                    crate::angle::lemma_circle_vec_bound(p2.heading, 30_000);
                }
            }
        }

        laser_movement(&mut self.lasers, dt_ms);
        assert(lasers_view(self.lasers@) == move_lasers(sl.1, dt));

        laser_despawner(&mut self.lasers, dt_ms);
        let ghost lasers_after = despawn_lasers(move_lasers(sl.1, dt), dt);
        assert(lasers_view(self.lasers@) == lasers_after);

        proof {
            assert forall|l: LaserV| #[trigger]
                laser_persistent_ok(l) implies laser_persistent_ok(laser_age(l, dt)) by {}
            assert forall|i: int| 0 <= i < move_lasers(sl.1, dt).len() implies
                laser_persistent_ok(#[trigger] move_lasers(sl.1, dt)[i]) by {
                assert(move_lasers(sl.1, dt)[i] == laser_move(sl.1[i], dt));
            }
            lemma_despawn_lasers_preserves(
                move_lasers(sl.1, dt),
                dt,
                |l: LaserV| laser_persistent_ok(l),
            );
        }

        proof {
            assert forall|i: int| 0 <= i < self.asteroids@.len() implies {
                &&& 0 <= (#[trigger] self.asteroids@[i]).heading < FULL_TURN_MRAD
                &&& -1_000_000 <= self.asteroids@[i].angular_velocity <= 1_000_000
                &&& -1_000_000_000 <= self.asteroids@[i].position.x <= 1_000_000_000
                &&& -1_000_000_000 <= self.asteroids@[i].position.y <= 1_000_000_000
                &&& -1_000_000 <= self.asteroids@[i].velocity.x <= 1_000_000
                &&& -1_000_000 <= self.asteroids@[i].velocity.y <= 1_000_000
            } by {
                assert(self.asteroids@[i]@ == w0.asteroids[i]);
                assert(asteroid_ok(w0.asteroids[i]));
            }
        }

        asteroid_rotation(&mut self.asteroids, dt_ms);
        let ghost turned = turn_asteroids(w0.asteroids, dt);
        assert(asteroids_view(self.asteroids@) == turned);

        proof {
            assert forall|i: int| 0 <= i < self.asteroids@.len() implies {
                &&& 0 <= (#[trigger] self.asteroids@[i]).heading < FULL_TURN_MRAD
                &&& -1_000_000_000 <= self.asteroids@[i].position.x <= 1_000_000_000
                &&& -1_000_000_000 <= self.asteroids@[i].position.y <= 1_000_000_000
                &&& -1_000_000 <= self.asteroids@[i].velocity.x <= 1_000_000
                &&& -1_000_000 <= self.asteroids@[i].velocity.y <= 1_000_000
            } by {
                assert(self.asteroids@[i]@ == turned[i]);
                assert(turned[i] == crate::asteroid::asteroid_turn(w0.asteroids[i], dt));
                assert(asteroid_ok(w0.asteroids[i]));
                vstd::arithmetic::div_mod::lemma_mod_bound(
                    w0.asteroids[i].heading + crate::fixed::scale_signed(
                        w0.asteroids[i].angular_velocity,
                        dt,
                        1000,
                    ),
                    6284,
                );
            }
        }

        asteroid_movement(&mut self.asteroids, dt_ms);
        let ghost drifted = move_asteroids(turned, dt);
        assert(asteroids_view(self.asteroids@) == drifted);

        asteroid_number_timer(&mut self.stats, dt_ms);
        let ghost st1 = number_timer_step(w0.stats, dt);
        assert(self.stats@ == st1);

        let ghost spawned = st1.current_number < st1.target_number;
        spawn_asteroid(&mut self.stats, &mut self.asteroids, self.player.position);

        let ghost svw: SampleV = if spawned {
            choose|sv: SampleV|
                sample_wf(sv) && asteroids_view(self.asteroids@) == drifted.push(
                    asteroid_from_sample(p2.position, sv),
                ) && self.stats@ == (StatsV {
                    current_number: st1.current_number + 1,
                    ..st1
                })
        } else {
            SampleV {
                offset_angle: 0,
                radius: 200_000,
                angular_velocity: 0,
                course_jitter: 0,
                speed: 40_000,
                variant: 0,
            }
        };
        let ghost asts2 = if spawned {
            drifted.push(asteroid_from_sample(p2.position, svw))
        } else {
            drifted
        };
        let ghost st2 = if spawned {
            StatsV { current_number: st1.current_number + 1, ..st1 }
        } else {
            st1
        };
        assert(sample_wf(svw));
        assert(asteroids_view(self.asteroids@) == asts2);
        assert(self.stats@ == st2);

        proof {
            assert(turned.len() == w0.asteroids.len());
            assert(drifted.len() == turned.len());
            assert(asteroids_view(self.asteroids@).len() == self.asteroids@.len());
            assert(self.stats@.current_number == self.asteroids@.len());
            assert forall|i: int| 0 <= i < asts2.len() implies {
                &&& -1_000_000_000 <= (#[trigger] asts2[i]).position.x <= 1_000_000_000
                &&& -1_000_000_000 <= asts2[i].position.y <= 1_000_000_000
            } by {
                if i < drifted.len() {
                    assert(drifted[i] == crate::asteroid::asteroid_move(turned[i], dt));
                    assert(turned[i] == crate::asteroid::asteroid_turn(w0.asteroids[i], dt));
                    assert(asteroid_ok(w0.asteroids[i]));
                    assert(-900_000_000 <= w0.asteroids[i].position.x <= 900_000_000);
                    crate::fixed::lemma_scale_signed_bound(
                        w0.asteroids[i].velocity.x,
                        dt,
                        1000,
                        80_000,
                        1000,
                    );
                    crate::fixed::lemma_scale_signed_bound(
                        w0.asteroids[i].velocity.y,
                        dt,
                        1000,
                        80_000,
                        1000,
                    );
                } else {
                    assert(asts2[i] == asteroid_from_sample(p2.position, svw));
                    crate::angle::lemma_circle_vec_bound(svw.offset_angle, svw.radius);
                }
            }
            assert forall|i: int| 0 <= i < self.asteroids@.len() implies {
                &&& -1_000_000_000 <= (#[trigger] self.asteroids@[i]).position.x <= 1_000_000_000
                &&& -1_000_000_000 <= self.asteroids@[i].position.y <= 1_000_000_000
            } by {
                assert(self.asteroids@[i]@ == asteroids_view(self.asteroids@)[i]);
                assert(self.asteroids@[i]@ == asts2[i]);
            }
        }

        asteroid_distance_cleanup(&mut self.asteroids, &mut self.stats, self.player.position);
        let ghost survivors = cull_asteroids(asts2, p2.position);
        assert(asteroids_view(self.asteroids@) == survivors);
        assert(self.stats@ == (StatsV { current_number: survivors.len() as int, ..st2 }));

        proof {
            // The whole-tick equality, then the invariant of the result.
            let wt = world_tick_spec(w0, input, dt, svw);
            assert(self@ == wt);

            assert forall|i: int| 0 <= i < asts2.len() implies asteroid_ok(
                #[trigger] asts2[i],
            ) by {
                if i < drifted.len() {
                    assert(drifted[i] == crate::asteroid::asteroid_move(turned[i], dt));
                    assert(turned[i] == crate::asteroid::asteroid_turn(w0.asteroids[i], dt));
                    assert(asteroid_ok(w0.asteroids[i]));
                    vstd::arithmetic::div_mod::lemma_mod_bound(
                        w0.asteroids[i].heading + crate::fixed::scale_signed(
                            w0.asteroids[i].angular_velocity,
                            dt,
                            1000,
                        ),
                        6284,
                    );
                } else {
                    let course = crate::angle::norm_angle(
                        svw.offset_angle + crate::angle::HALF_TURN_MRAD + svw.course_jitter,
                    );
                    vstd::arithmetic::div_mod::lemma_mod_bound(
                        svw.offset_angle + crate::angle::HALF_TURN_MRAD + svw.course_jitter,
                        6284,
                    );
                    crate::angle::lemma_circle_vec_bound(course, svw.speed);
                }
            }
            lemma_cull_asteroids_preserves(asts2, p2.position, |a: AsteroidV| asteroid_ok(a));
            assert(world_counts_ok(self@));
        }
    }
}

} // verus!
