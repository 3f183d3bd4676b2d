//! The laws of the simulation, each proved over the very spec functions
//! the executable systems are verified against.

use vstd::prelude::*;

verus! {

use vstd::math::min;
use crate::angle::FULL_TURN_MRAD;
use crate::asteroid::ASTEROID_CULL_DISTANCE;
use crate::asteroid::AsteroidV;
use crate::asteroid::SampleV;
use crate::asteroid::StatsV;
use crate::asteroid::asteroid_kept;
use crate::asteroid::asteroid_move;
use crate::asteroid::asteroid_turn;
use crate::asteroid::cull_asteroids;
use crate::asteroid::number_timer_step;
use crate::asteroid::spawn_step_spec;
use crate::camera::camera_follow_step;
use crate::fixed::Vec2V;
use crate::fixed::dist2;
use crate::fixed::lemma_scale_signed_shrinks;
use crate::fixed::lemma_scale_signed_strict;
use crate::fixed::scale_signed;
use crate::input::InputState;
use crate::input::rotating;
use crate::input::thrusting;
use crate::laser::LaserV;
use crate::laser::ShooterV;
use crate::laser::laser_age;
use crate::laser::laser_move;
use crate::laser::shoot_step;
use crate::player::PlayerV;
use crate::player::acceleration_step;
use crate::player::player_wf;
use crate::player::rotation_step;
use crate::player::velocity_step;
use crate::timer::countdown_tick;

/// Sum of a row of durations.
pub open spec fn sum_of(dts: Seq<int>) -> int
    decreases dts.len(),
{
    if dts.len() == 0 {
        0
    } else {
        dts[0] + sum_of(dts.drop_first())
    }
}

/// Integration at rest is idempotent: with no key held and `dt = 0`,
/// one tick changes neither the player's turn state, velocity or
/// position, nor the camera, nor any bullet's or asteroid's place,
/// attitude or remaining lifetime.
pub proof fn lemma_rest_tick_is_identity(
    p: PlayerV,
    cam: Vec2V,
    target: Vec2V,
    l: LaserV,
    a: AsteroidV,
    input: InputState,
)
    requires
        player_wf(p),
        !rotating(input),
        !thrusting(input),
        0 <= l.life_time,
        0 <= a.heading < FULL_TURN_MRAD,
    ensures
        rotation_step(p, input, 0) == p,
        acceleration_step(p, input, 0) == p,
        camera_follow_step(cam, target, 0) == cam,
        laser_move(l, 0) == l,
        laser_age(l, 0).life_time == l.life_time,
        asteroid_turn(a, 0) == a,
        asteroid_move(a, 0) == a,
{
    assert(p.angular_rate * 0 == 0) by (nonlinear_arith);
    assert(p.velocity.x * 0 == 0) by (nonlinear_arith);
    assert(p.velocity.y * 0 == 0) by (nonlinear_arith);
    assert(l.velocity.x * 0 == 0) by (nonlinear_arith);
    assert(l.velocity.y * 0 == 0) by (nonlinear_arith);
    assert(a.velocity.x * 0 == 0) by (nonlinear_arith);
    assert(a.velocity.y * 0 == 0) by (nonlinear_arith);
    assert(a.angular_velocity * 0 == 0) by (nonlinear_arith);
    let dx = target.x - cam.x;
    let dy = target.y - cam.y;
    let d2 = dx * dx + dy * dy;
    lemma_scale_signed_shrinks(p.angular_rate, 0, 1_000_000);
    lemma_scale_signed_shrinks(p.velocity.x, 0, 1_000_000);
    lemma_scale_signed_shrinks(p.velocity.y, 0, 1_000_000);
    assert(scale_signed(p.angular_rate, 0, 1000) == 0);
    assert(scale_signed(scale_signed(dx, d2, 10_000_000_000), 0, 1000) == 0);
    assert(scale_signed(scale_signed(dy, d2, 10_000_000_000), 0, 1000) == 0);
    vstd::arithmetic::div_mod::lemma_small_mod(p.heading as nat, 6284nat);
    vstd::arithmetic::div_mod::lemma_small_mod(a.heading as nat, 6284nat);
    assert(rotation_step(p, input, 0) == p);
    assert(velocity_step(p, input, 0) == p.velocity);
    assert(acceleration_step(p, input, 0) == p);
}

/// At rest, advancing and expiring changes no bullet: moving by a
/// zero-length tick leaves each in place, aging subtracts nothing, and
/// no live bullet expires.
pub proof fn lemma_lasers_rest_identity(s: Seq<LaserV>)
    requires
        forall|i: int| 0 <= i < s.len() ==> (#[trigger] s[i]).life_time > 0,
    ensures
        crate::laser::move_lasers(s, 0) == s,
        crate::laser::despawn_lasers(s, 0) == s,
    decreases s.len(),
{
    assert forall|i: int| 0 <= i < s.len() implies #[trigger] crate::laser::move_lasers(s, 0)[i]
        == s[i] by {
        let l = s[i];
        assert(l.velocity.x * 0 == 0) by (nonlinear_arith);
        assert(l.velocity.y * 0 == 0) by (nonlinear_arith);
        assert(laser_move(l, 0) == l);
    }
    assert(crate::laser::move_lasers(s, 0) =~= s);
    if s.len() > 0 {
        assert(forall|i: int| 0 <= i < s.drop_last().len() ==> (#[trigger] s.drop_last()[i])
            .life_time > 0);
        lemma_lasers_rest_identity(s.drop_last());
        assert(s.last().life_time > 0);
        assert(laser_age(s.last(), 0) == s.last());
        assert(crate::laser::despawn_lasers(s, 0) =~= s);
    }
}

/// Integration at rest is idempotent for the whole world: a tick of
/// zero length with no key held leaves the player, the camera and
/// every bullet exactly as they were.  (The spawner may still fill one
/// asteroid, and culling still applies: both are timeless rules.)
pub proof fn lemma_world_rest_identity(
    w: crate::world::WorldV,
    input: InputState,
    sv: SampleV,
)
    requires
        crate::world::world_counts_ok(w),
        !rotating(input),
        !thrusting(input),
        !input.fire,
    ensures
        crate::world::world_tick_spec(w, input, 0, sv).player == w.player,
        crate::world::world_tick_spec(w, input, 0, sv).camera == w.camera,
        crate::world::world_tick_spec(w, input, 0, sv).lasers == w.lasers,
{
    let idle_laser = LaserV {
        position: Vec2V { x: 0, y: 0 },
        velocity: Vec2V { x: 0, y: 0 },
        heading: 0,
        life_time: 1,
    };
    let idle_rock = AsteroidV {
        position: Vec2V { x: 0, y: 0 },
        velocity: Vec2V { x: 0, y: 0 },
        angular_velocity: 0,
        heading: 0,
        variant: 0,
    };
    lemma_rest_tick_is_identity(
        w.player,
        w.camera.position,
        w.player.position,
        idle_laser,
        idle_rock,
        input,
    );
    assert forall|i: int| 0 <= i < w.lasers.len() implies (#[trigger] w.lasers[i]).life_time
        > 0 by {
        assert(crate::world::laser_ok(w.lasers[i]));
    }
    lemma_lasers_rest_identity(w.lasers);
    assert(shoot_step(w.shooter, w.player, w.lasers, input.fire, 0).1 == w.lasers);
}

/// Inertial damping is monotone: with no thrust key held and `dt` small
/// against the inverse damping rate, a velocity component never grows
/// and never changes sign, the squared speed never grows, and as long
/// as a component is large enough for the fixed-point decrement to be
/// nonzero it strictly shrinks.
pub proof fn lemma_damping_monotone(p: PlayerV, input: InputState, dt: int)
    requires
        !thrusting(input),
        0 <= dt,
        crate::player::PLAYER_DECELERATION * dt <= 1_000_000,
    ensures
        p.velocity.x >= 0 ==> 0 <= velocity_step(p, input, dt).x <= p.velocity.x,
        p.velocity.x <= 0 ==> p.velocity.x <= velocity_step(p, input, dt).x <= 0,
        p.velocity.y >= 0 ==> 0 <= velocity_step(p, input, dt).y <= p.velocity.y,
        p.velocity.y <= 0 ==> p.velocity.y <= velocity_step(p, input, dt).y <= 0,
        p.velocity.x * (crate::player::PLAYER_DECELERATION * dt) >= 1_000_000
            ==> velocity_step(p, input, dt).x < p.velocity.x,
        p.velocity.x * (crate::player::PLAYER_DECELERATION * dt) <= -1_000_000
            ==> velocity_step(p, input, dt).x > p.velocity.x,
        velocity_step(p, input, dt).x * velocity_step(p, input, dt).x + velocity_step(
            p,
            input,
            dt,
        ).y * velocity_step(p, input, dt).y <= p.velocity.x * p.velocity.x + p.velocity.y
            * p.velocity.y,
        p.velocity.x * (crate::player::PLAYER_DECELERATION * dt) >= 1_000_000
            || p.velocity.x * (crate::player::PLAYER_DECELERATION * dt) <= -1_000_000
            ==> velocity_step(p, input, dt).x * velocity_step(p, input, dt).x + velocity_step(
            p,
            input,
            dt,
        ).y * velocity_step(p, input, dt).y < p.velocity.x * p.velocity.x + p.velocity.y
            * p.velocity.y,
{
    let k = crate::player::PLAYER_DECELERATION * dt;
    lemma_scale_signed_shrinks(p.velocity.x, k, 1_000_000);
    lemma_scale_signed_shrinks(p.velocity.y, k, 1_000_000);
    if p.velocity.x * k >= 1_000_000 {
        assert(p.velocity.x >= 0) by (nonlinear_arith)
            requires
                p.velocity.x * k >= 1_000_000,
                0 <= k <= 1_000_000,
        ;
        lemma_scale_signed_strict(p.velocity.x, k, 1_000_000);
    }
    if p.velocity.x * k <= -1_000_000 {
        assert(p.velocity.x < 0) by (nonlinear_arith)
            requires
                p.velocity.x * k <= -1_000_000,
                0 <= k <= 1_000_000,
        ;
        assert((-p.velocity.x) * k >= 1_000_000) by (nonlinear_arith)
            requires
                p.velocity.x * k <= -1_000_000,
        ;
        lemma_scale_signed_strict(-p.velocity.x, k, 1_000_000);
    }
    let vs = velocity_step(p, input, dt);
    assert(vs.x * vs.x <= p.velocity.x * p.velocity.x) by (nonlinear_arith)
        requires
            p.velocity.x >= 0 ==> 0 <= vs.x <= p.velocity.x,
            p.velocity.x <= 0 ==> p.velocity.x <= vs.x <= 0,
    ;
    assert(vs.y * vs.y <= p.velocity.y * p.velocity.y) by (nonlinear_arith)
        requires
            p.velocity.y >= 0 ==> 0 <= vs.y <= p.velocity.y,
            p.velocity.y <= 0 ==> p.velocity.y <= vs.y <= 0,
    ;
    if p.velocity.x * k >= 1_000_000 || p.velocity.x * k <= -1_000_000 {
        assert(vs.x * vs.x < p.velocity.x * p.velocity.x) by (nonlinear_arith)
            requires
                p.velocity.x >= 0 ==> 0 <= vs.x < p.velocity.x,
                p.velocity.x <= 0 ==> p.velocity.x < vs.x <= 0,
                p.velocity.x != 0,
        ;
    }
}

/// The population fill iterated over a row of spawn draws.
pub open spec fn fill_many(
    st: StatsV,
    asts: Seq<AsteroidV>,
    p: Vec2V,
    samples: Seq<SampleV>,
) -> (StatsV, Seq<AsteroidV>)
    decreases samples.len(),
{
    if samples.len() == 0 {
        (st, asts)
    } else {
        let stepped = spawn_step_spec(st, asts, p, samples[0]);
        fill_many(stepped.0, stepped.1, p, samples.drop_first())
    }
}

/// The population converges: each fill tick below the target adds
/// exactly one live asteroid, so after `n` ticks the live count is `n`
/// closer to the target and never beyond it.  In particular, from a
/// count of zero and a target of `N`, exactly `N` ticks of fill reach a
/// live count of `N`.
pub proof fn lemma_population_convergence(
    st: StatsV,
    asts: Seq<AsteroidV>,
    p: Vec2V,
    samples: Seq<SampleV>,
)
    requires
        st.current_number == asts.len(),
        st.current_number <= st.target_number,
    ensures
        fill_many(st, asts, p, samples).0.current_number == min(
            st.current_number + samples.len(),
            st.target_number,
        ),
        fill_many(st, asts, p, samples).1.len() == min(
            st.current_number + samples.len(),
            st.target_number,
        ),
        fill_many(st, asts, p, samples).0.target_number == st.target_number,
    decreases samples.len(),
{
    if samples.len() > 0 {
        let stepped = spawn_step_spec(st, asts, p, samples[0]);
        lemma_population_convergence(stepped.0, stepped.1, p, samples.drop_first());
    }
}

/// The difficulty timer iterated over a row of tick durations.
pub open spec fn timer_many(st: StatsV, dts: Seq<int>) -> StatsV
    decreases dts.len(),
{
    if dts.len() == 0 {
        st
    } else {
        timer_many(number_timer_step(st, dts[0]), dts.drop_first())
    }
}

/// Difficulty is monotone: one timer tick raises the target by exactly
/// one when the accumulated time reaches the interval and leaves it
/// unchanged otherwise, so over any row of ticks the target never
/// decreases.
pub proof fn lemma_difficulty_monotone(st: StatsV, dt: int, dts: Seq<int>)
    ensures
        number_timer_step(st, dt).target_number == st.target_number + (
        if st.spawn_elapsed + dt >= st.spawn_interval {
            1int
        } else {
            0int
        }),
        timer_many(st, dts).target_number >= st.target_number,
    decreases dts.len(),
{
    if dts.len() > 0 {
        lemma_difficulty_monotone(number_timer_step(st, dts[0]), dt, dts.drop_first());
    }
}

/// Difficulty is monotone over whole world ticks as well: neither the
/// population fill nor the culling pass touches the target, so a tick
/// never lowers it.
pub proof fn lemma_world_difficulty_monotone(
    w: crate::world::WorldV,
    input: InputState,
    dt: int,
    sv: SampleV,
)
    ensures
        crate::world::world_tick_spec(w, input, dt, sv).stats.target_number
            >= w.stats.target_number,
{
}

/// Whether a projectile with `life` milliseconds left is still live
/// after its lifetime ticks down by each duration in turn; expiry
/// removes it in the very tick its lifetime reaches zero.
pub open spec fn alive_after(life: int, dts: Seq<int>) -> bool
    decreases dts.len(),
{
    if dts.len() == 0 {
        life > 0
    } else {
        let aged = countdown_tick(life, dts[0]);
        aged > 0 && alive_after(aged, dts.drop_first())
    }
}

/// A projectile's lifetime bounds its stay: once the ticked time since
/// its creation reaches its lifetime, it is gone — so it is absent at
/// every moment strictly after creation time plus lifetime.
pub proof fn lemma_projectile_lifetime(life: int, dts: Seq<int>)
    requires
        sum_of(dts) >= life,
    ensures
        !alive_after(life, dts),
    decreases dts.len(),
{
    if dts.len() == 0 {
    } else {
        let aged = countdown_tick(life, dts[0]);
        if aged > 0 {
            lemma_projectile_lifetime(aged, dts.drop_first());
        }
    }
}

/// The weapon iterated over rows of fire flags and tick durations.
pub open spec fn fire_many(
    sh: ShooterV,
    p: PlayerV,
    lasers: Seq<LaserV>,
    fires: Seq<bool>,
    dts: Seq<int>,
) -> (ShooterV, Seq<LaserV>)
    decreases fires.len(),
{
    if fires.len() == 0 || dts.len() == 0 {
        (sh, lasers)
    } else {
        let stepped = shoot_step(sh, p, lasers, fires[0], dts[0]);
        fire_many(stepped.0, p, stepped.1, fires.drop_first(), dts.drop_first())
    }
}

/// While the cooldown outlasts the ticked time, no fire command lands:
/// however the fire key is pressed, no bullet appears and the cooldown
/// merely runs down by the total time.
pub proof fn lemma_no_shot_while_hot(
    sh: ShooterV,
    p: PlayerV,
    lasers: Seq<LaserV>,
    fires: Seq<bool>,
    dts: Seq<int>,
)
    requires
        fires.len() == dts.len(),
        forall|i: int| 0 <= i < dts.len() ==> #[trigger] dts[i] >= 0,
        sum_of(dts) < sh.cooldown,
    ensures
        fire_many(sh, p, lasers, fires, dts).1 == lasers,
        fire_many(sh, p, lasers, fires, dts).0.cooldown == sh.cooldown - sum_of(dts),
        fire_many(sh, p, lasers, fires, dts).0.offset == sh.offset,
    decreases fires.len(),
{
    if fires.len() > 0 {
        assert(dts[0] >= 0);
        assert(sum_of(dts.drop_first()) >= 0) by {
            lemma_sum_of_nonneg(dts.drop_first());
        }
        let stepped = shoot_step(sh, p, lasers, fires[0], dts[0]);
        lemma_no_shot_while_hot(stepped.0, p, stepped.1, fires.drop_first(), dts.drop_first());
    }
}

/// A row of nonnegative durations sums to a nonnegative time.
pub proof fn lemma_sum_of_nonneg(dts: Seq<int>)
    requires
        forall|i: int| 0 <= i < dts.len() ==> #[trigger] dts[i] >= 0,
    ensures
        sum_of(dts) >= 0,
    decreases dts.len(),
{
    if dts.len() > 0 {
        lemma_sum_of_nonneg(dts.drop_first());
    }
}

/// Cooldown gating: a fire command with the cooldown run out produces
/// exactly one bullet, and any further fire commands in the same row
/// produce none as long as the time ticked after the shot stays under
/// the cooldown span.  Two fire commands less than the full cooldown
/// apart therefore yield exactly one projectile.
pub proof fn lemma_cooldown_gating(
    sh: ShooterV,
    p: PlayerV,
    lasers: Seq<LaserV>,
    fires: Seq<bool>,
    dts: Seq<int>,
)
    requires
        fires.len() == dts.len(),
        fires.len() >= 1,
        fires[0],
        forall|i: int| 0 <= i < dts.len() ==> #[trigger] dts[i] >= 0,
        sh.cooldown == 0,
        sum_of(dts.drop_first()) < crate::laser::LASER_MAX_COOLDOWN_MS,
    ensures
        fire_many(sh, p, lasers, fires, dts).1.len() == lasers.len() + 1,
{
    let stepped = shoot_step(sh, p, lasers, fires[0], dts[0]);
    assert(countdown_tick(0, dts[0]) == 0);
    assert(stepped.0.cooldown == crate::laser::LASER_MAX_COOLDOWN_MS);
    assert(stepped.1 == lasers.push(crate::laser::new_laser(p, sh.offset)));
    lemma_no_shot_while_hot(stepped.0, p, stepped.1, fires.drop_first(), dts.drop_first());
}

/// The spawn ring lies inside the cull ring: a freshly spawned
/// asteroid stands within the cull distance of the player it was
/// placed around, so the culling pass of its spawn tick never removes
/// it.  This holds with room to spare for the fixed-point circle: the
/// sine and cosine are never both above 706 thousandths, so the
/// offset's squared length stays well under the squared cull distance.
pub proof fn lemma_fresh_spawn_inside_cull(p: Vec2V, s: SampleV)
    requires
        crate::asteroid::sample_wf(s),
    ensures
        asteroid_kept(crate::asteroid::asteroid_from_sample(p, s), p),
{
    let rock = crate::asteroid::asteroid_from_sample(p, s);
    let off = crate::angle::circle_vec(s.offset_angle, s.radius);
    assert(rock.position.x - p.x == off.x);
    assert(rock.position.y - p.y == off.y);
    let sv = crate::angle::sine_mrad(s.offset_angle);
    let cv = crate::angle::cosine_mrad(s.offset_angle);
    crate::angle::lemma_sine_mrad_range(s.offset_angle);
    vstd::arithmetic::div_mod::lemma_mod_bound(s.offset_angle + 1571, 6284);
    crate::angle::lemma_sine_mrad_range(crate::angle::norm_angle(s.offset_angle + 1571));
    crate::angle::lemma_sin_cos_not_both_large(s.offset_angle);
    vstd::arithmetic::div_mod::lemma_fundamental_div_mod_converse_div(
        706int * 299_999,
        1000,
        211_799,
        294,
    );
    vstd::arithmetic::div_mod::lemma_fundamental_div_mod_converse_div(
        1000int * 299_999,
        1000,
        299_999,
        0,
    );
    if -706 <= sv <= 706 {
        crate::fixed::lemma_scale_signed_bound(-sv, s.radius, 1000, 706, 299_999);
        crate::fixed::lemma_scale_signed_bound(cv, s.radius, 1000, 1000, 299_999);
        assert(off.x * off.x + off.y * off.y <= 160_000_000_000int)
            by (nonlinear_arith)
            requires
                -211_799 <= off.x <= 211_799,
                -299_999 <= off.y <= 299_999,
        ;
    } else {
        crate::fixed::lemma_scale_signed_bound(-sv, s.radius, 1000, 1000, 299_999);
        crate::fixed::lemma_scale_signed_bound(cv, s.radius, 1000, 706, 299_999);
        assert(off.x * off.x + off.y * off.y <= 160_000_000_000int)
            by (nonlinear_arith)
            requires
                -299_999 <= off.x <= 299_999,
                -211_799 <= off.y <= 211_799,
        ;
    }
    assert(dist2(rock.position, p) == off.x * off.x + off.y * off.y);
}
/// the cull distance from the player is absent after the pass, and one
/// within the distance survives the pass (culling alone never removes
/// it).
pub proof fn lemma_culling_threshold(a: AsteroidV, s: Seq<AsteroidV>, p: Vec2V)
    ensures
        dist2(a.position, p) > ASTEROID_CULL_DISTANCE * ASTEROID_CULL_DISTANCE
            ==> !cull_asteroids(s, p).contains(a),
        s.contains(a) && dist2(a.position, p) <= ASTEROID_CULL_DISTANCE * ASTEROID_CULL_DISTANCE
            ==> cull_asteroids(s, p).contains(a),
    decreases s.len(),
{
    if s.len() == 0 {
        assert(!cull_asteroids(s, p).contains(a));
    } else {
        lemma_culling_threshold(a, s.drop_last(), p);
        let rest = cull_asteroids(s.drop_last(), p);
        let culled = cull_asteroids(s, p);
        if dist2(a.position, p) > ASTEROID_CULL_DISTANCE * ASTEROID_CULL_DISTANCE {
            if asteroid_kept(s.last(), p) {
                assert(forall|i: int| 0 <= i < culled.len() ==> culled[i] == if i < rest.len() {
                    rest[i]
                } else {
                    s.last()
                });
                assert(!culled.contains(a)) by {
                    assert forall|i: int| 0 <= i < culled.len() implies culled[i] != a by {
                        if i < rest.len() {
                            assert(!rest.contains(a));
                        } else {
                            assert(culled[i] == s.last());
                            assert(asteroid_kept(s.last(), p));
                        }
                    }
                }
            }
        }
        if s.contains(a) && dist2(a.position, p) <= ASTEROID_CULL_DISTANCE
            * ASTEROID_CULL_DISTANCE {
            let j = choose|j: int| 0 <= j < s.len() && s[j] == a;
            if j < s.len() - 1 {
                assert(s.drop_last()[j] == a);
                assert(s.drop_last().contains(a));
                assert(rest.contains(a));
                if asteroid_kept(s.last(), p) {
                    let k = choose|k: int| 0 <= k < rest.len() && rest[k] == a;
                    assert(culled[k] == a);
                    assert(culled.contains(a));
                } else {
                    assert(culled.contains(a));
                }
            } else {
                assert(s.last() == a);
                assert(asteroid_kept(s.last(), p));
                assert(culled.last() == a);
                assert(culled.contains(a));
            }
        }
    }
}

} // verus!
