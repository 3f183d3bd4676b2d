//! Asteroids: difficulty pacing, randomized spawning, drift and culling.
//!
//! A repeating five-second timer raises the target population by one
//! each time it elapses.  While the live count is short of the target,
//! each tick spawns exactly one asteroid on a ring around the player,
//! drifting roughly back toward it; the sampled quantities all come from
//! one randomness primitive and the rest is exact.  Asteroids further
//! than the cull distance from the player are removed, one tick at a
//! time, and the live count follows.

use vstd::prelude::*;

verus! {

use crate::angle::FULL_TURN_MRAD;
use crate::angle::HALF_TURN_MRAD;
use crate::angle::circle_vec;
use crate::angle::norm_angle;
use crate::angle::normalize_angle;
use crate::angle::vec2_from_circle;
use crate::fixed::MAX_TICK_MS;
use crate::fixed::Vec2Fx;
use crate::fixed::Vec2V;
use crate::fixed::dist2;
use crate::fixed::lemma_scale_signed_bound;
use crate::fixed::scale_i64;
use crate::fixed::scale_signed;
use crate::rng::sample_in_range;

/// Milliseconds between two raises of the target population.
pub const ASTEROID_SPAWN_INTERVAL_MS: u64 = 5_000;

/// Inner radius of the spawn ring, in milli-units.
pub const ASTEROID_SPAWN_RADIUS_MIN: i64 = 200_000;

/// Outer radius of the spawn ring (exclusive), in milli-units.
pub const ASTEROID_SPAWN_RADIUS_MAX: i64 = 300_000;

/// Slowest spawn drift, in milli-units per second.
pub const ASTEROID_SPEED_MIN: i64 = 40_000;

/// Fastest spawn drift (exclusive), in milli-units per second.
pub const ASTEROID_SPEED_MAX: i64 = 80_000;

/// Spawn tumble rate lies in `(-limit, limit)`, in milliradians per
/// second.
pub const ASTEROID_SPIN_LIMIT: i64 = 700;

/// The drift heading is the ring angle plus a half turn, jittered
/// within `(-limit, limit)` milliradians.
pub const ASTEROID_COURSE_JITTER: i64 = 500;

/// Number of cosmetic sprite variants.
pub const ASTEROID_VARIANT_COUNT: i64 = 3;

/// An asteroid further than this from the player is removed, in
/// milli-units.
pub const ASTEROID_CULL_DISTANCE: i64 = 400_000;

/// Positions handed to the asteroid systems stay within this bound, in
/// milli-units; machine limit only.
pub const ASTEROID_POS_LIMIT: i64 = 1_000_000_000;

/// Speeds and tumble rates handed to the asteroid systems stay within
/// this bound; machine limit only, far above what spawning produces.
pub const ASTEROID_VEL_LIMIT: i64 = 1_000_000;

/// One asteroid.
#[derive(Clone, Copy, PartialEq, Eq, Structural, Debug)]
pub struct Asteroid {
    pub position: Vec2Fx,
    pub velocity: Vec2Fx,
    pub angular_velocity: i64,
    pub heading: i64,
    pub variant: u8,
}

/// Mathematical view of an `Asteroid`.
pub struct AsteroidV {
    pub position: Vec2V,
    pub velocity: Vec2V,
    pub angular_velocity: int,
    pub heading: int,
    pub variant: int,
}

impl View for Asteroid {
    type V = AsteroidV;

    open spec fn view(&self) -> AsteroidV {
        AsteroidV {
            position: self.position@,
            velocity: self.velocity@,
            angular_velocity: self.angular_velocity as int,
            heading: self.heading as int,
            variant: self.variant as int,
        }
    }
}

/// The views of a field of asteroids.
pub open spec fn asteroids_view(s: Seq<Asteroid>) -> Seq<AsteroidV> {
    s.map_values(|a: Asteroid| a@)
}

/// The spawn pacing: target and live population, and the elapsed time
/// of the repeating difficulty timer.
#[derive(Clone, Copy, PartialEq, Eq, Structural, Debug)]
pub struct AsteroidsStats {
    pub target_number: u32,
    pub current_number: u32,
    pub spawn_interval_ms: u64,
    pub spawn_elapsed_ms: u64,
}

/// Mathematical view of `AsteroidsStats`.
pub struct StatsV {
    pub target_number: int,
    pub current_number: int,
    pub spawn_interval: int,
    pub spawn_elapsed: int,
}

impl View for AsteroidsStats {
    type V = StatsV;

    open spec fn view(&self) -> StatsV {
        StatsV {
            target_number: self.target_number as int,
            current_number: self.current_number as int,
            spawn_interval: self.spawn_interval_ms as int,
            spawn_elapsed: self.spawn_elapsed_ms as int,
        }
    }
}

/// The pacing as it exists on scene entry: one asteroid wanted, none
/// live, the difficulty timer at the start of its interval.
pub fn asteroids_setup() -> (st: AsteroidsStats)
    ensures
        st@ == (StatsV {
            target_number: 1,
            current_number: 0,
            spawn_interval: ASTEROID_SPAWN_INTERVAL_MS as int,
            spawn_elapsed: 0,
        }),
{
    AsteroidsStats {
        target_number: 1,
        current_number: 0,
        spawn_interval_ms: ASTEROID_SPAWN_INTERVAL_MS,
        spawn_elapsed_ms: 0,
    }
}

/// One tick of the difficulty timer: when the accumulated time reaches
/// the interval the target population rises by exactly one and the
/// timer restarts at its fixed interval; otherwise only the accumulator
/// advances.
pub open spec fn number_timer_step(st: StatsV, dt: int) -> StatsV {
    if st.spawn_elapsed + dt >= st.spawn_interval {
        StatsV { target_number: st.target_number + 1, spawn_elapsed: 0, ..st }
    } else {
        StatsV { spawn_elapsed: st.spawn_elapsed + dt, ..st }
    }
}

/// One tick of the difficulty timer, exact against `number_timer_step`.
pub fn asteroid_number_timer(stats: &mut AsteroidsStats, dt_ms: u64)
    requires
        old(stats)@.target_number < u32::MAX,
        old(stats)@.spawn_elapsed + dt_ms <= u64::MAX,
    ensures
        final(stats)@ == number_timer_step(old(stats)@, dt_ms as int),
{
    let elapsed = stats.spawn_elapsed_ms + dt_ms;
    if elapsed >= stats.spawn_interval_ms {
        stats.target_number = stats.target_number + 1;
        stats.spawn_elapsed_ms = 0;
    } else {
        stats.spawn_elapsed_ms = elapsed;
    }
}

/// What one spawn draws from the randomness primitive.
#[derive(Clone, Copy, PartialEq, Eq, Structural, Debug)]
pub struct SpawnSample {
    pub offset_angle: i64,
    pub radius: i64,
    pub angular_velocity: i64,
    pub course_jitter: i64,
    pub speed: i64,
    pub variant: i64,
}

/// Mathematical view of a `SpawnSample`.
pub struct SampleV {
    pub offset_angle: int,
    pub radius: int,
    pub angular_velocity: int,
    pub course_jitter: int,
    pub speed: int,
    pub variant: int,
}

impl View for SpawnSample {
    type V = SampleV;

    open spec fn view(&self) -> SampleV {
        SampleV {
            offset_angle: self.offset_angle as int,
            radius: self.radius as int,
            angular_velocity: self.angular_velocity as int,
            course_jitter: self.course_jitter as int,
            speed: self.speed as int,
            variant: self.variant as int,
        }
    }
}

/// The ranges every spawn draw lies in; this is all that is known of a
/// draw, whatever the randomness returned.
pub open spec fn sample_wf(s: SampleV) -> bool {
    &&& 0 <= s.offset_angle < FULL_TURN_MRAD
    &&& ASTEROID_SPAWN_RADIUS_MIN <= s.radius < ASTEROID_SPAWN_RADIUS_MAX
    &&& -ASTEROID_SPIN_LIMIT <= s.angular_velocity < ASTEROID_SPIN_LIMIT
    &&& -ASTEROID_COURSE_JITTER <= s.course_jitter < ASTEROID_COURSE_JITTER
    &&& ASTEROID_SPEED_MIN <= s.speed < ASTEROID_SPEED_MAX
    &&& 0 <= s.variant < ASTEROID_VARIANT_COUNT
}

/// Draw one spawn's worth of randomness; every draw lies in its range.
pub fn draw_spawn_sample() -> (s: SpawnSample)
    ensures
        sample_wf(s@),
{
    SpawnSample {
        offset_angle: sample_in_range(0, FULL_TURN_MRAD),
        radius: sample_in_range(ASTEROID_SPAWN_RADIUS_MIN, ASTEROID_SPAWN_RADIUS_MAX),
        angular_velocity: sample_in_range(-ASTEROID_SPIN_LIMIT, ASTEROID_SPIN_LIMIT),
        course_jitter: sample_in_range(-ASTEROID_COURSE_JITTER, ASTEROID_COURSE_JITTER),
        speed: sample_in_range(ASTEROID_SPEED_MIN, ASTEROID_SPEED_MAX),
        variant: sample_in_range(0, ASTEROID_VARIANT_COUNT),
    }
}

/// The asteroid a sample places around a player at `p`: on the ring at
/// `p + (-sin θ, cos θ) * radius`, drifting along the jittered opposite
/// angle `θ + half turn + jitter` at the sampled speed, tumbling at the
/// sampled rate, upright, wearing the sampled sprite variant.
pub open spec fn asteroid_from_sample(p: Vec2V, s: SampleV) -> AsteroidV {
    let offset = circle_vec(s.offset_angle, s.radius);
    let course = norm_angle(s.offset_angle + HALF_TURN_MRAD + s.course_jitter);
    AsteroidV {
        position: Vec2V { x: p.x + offset.x, y: p.y + offset.y },
        velocity: circle_vec(course, s.speed),
        angular_velocity: s.angular_velocity,
        heading: 0,
        variant: s.variant,
    }
}

/// Place the asteroid a given sample describes, exact against
/// `asteroid_from_sample`, and count it.
pub fn spawn_asteroid_from_sample(
    stats: &mut AsteroidsStats,
    asteroids: &mut Vec<Asteroid>,
    player_pos: Vec2Fx,
    sample: SpawnSample,
)
    requires
        sample_wf(sample@),
        old(stats)@.current_number < old(stats)@.target_number,
        -ASTEROID_POS_LIMIT <= player_pos@.x <= ASTEROID_POS_LIMIT,
        -ASTEROID_POS_LIMIT <= player_pos@.y <= ASTEROID_POS_LIMIT,
    ensures
        asteroids_view(final(asteroids)@) == asteroids_view(old(asteroids)@).push(
            asteroid_from_sample(player_pos@, sample@),
        ),
        final(stats)@ == (StatsV {
            current_number: old(stats)@.current_number + 1,
            ..old(stats)@
        }),
{
    let offset = vec2_from_circle(sample.offset_angle, sample.radius);
    let course = normalize_angle(sample.offset_angle + HALF_TURN_MRAD + sample.course_jitter);
    let velocity = vec2_from_circle(course, sample.speed);
    let rock = Asteroid {
        position: player_pos.plus(offset),
        velocity,
        angular_velocity: sample.angular_velocity,
        heading: 0,
        variant: sample.variant as u8,
    };
    asteroids.push(rock);
    stats.current_number = stats.current_number + 1;
    proof {
        assert(asteroids_view(asteroids@)
            =~= asteroids_view(old(asteroids)@).push(
                asteroid_from_sample(player_pos@, sample@),
            ));
    }
}

/// One population-fill step around the sample `s`: while the live
/// count is short of the target, exactly one asteroid appears and is
/// counted; at or above the target, nothing changes.
pub open spec fn spawn_step_spec(
    st: StatsV,
    asts: Seq<AsteroidV>,
    p: Vec2V,
    s: SampleV,
) -> (StatsV, Seq<AsteroidV>) {
    if st.current_number < st.target_number {
        (
            StatsV { current_number: st.current_number + 1, ..st },
            asts.push(asteroid_from_sample(p, s)),
        )
    } else {
        (st, asts)
    }
}

/// While the live count is short of the target, place exactly one new
/// asteroid around the player and count it; otherwise change nothing.
/// What the draw returned is not knowable in advance: all that holds is
/// that some in-range sample describes the placed asteroid.
pub fn spawn_asteroid(
    stats: &mut AsteroidsStats,
    asteroids: &mut Vec<Asteroid>,
    player_pos: Vec2Fx,
)
    requires
        -ASTEROID_POS_LIMIT <= player_pos@.x <= ASTEROID_POS_LIMIT,
        -ASTEROID_POS_LIMIT <= player_pos@.y <= ASTEROID_POS_LIMIT,
    ensures
        old(stats)@.current_number < old(stats)@.target_number ==> exists|sv: SampleV|
            sample_wf(sv) && asteroids_view(final(asteroids)@) == asteroids_view(
                old(asteroids)@,
            ).push(asteroid_from_sample(player_pos@, sv)) && final(stats)@ == (StatsV {
                current_number: old(stats)@.current_number + 1,
                ..old(stats)@
            }),
        old(stats)@.current_number >= old(stats)@.target_number ==> final(stats)@ == old(stats)@
            && final(asteroids)@ == old(asteroids)@,
{
    if stats.current_number < stats.target_number {
        let sample = draw_spawn_sample();
        spawn_asteroid_from_sample(stats, asteroids, player_pos, sample);
        proof {
            let sv = sample@;
            assert(sample_wf(sv) && asteroids_view(asteroids@) == asteroids_view(
                old(asteroids)@,
            ).push(asteroid_from_sample(player_pos@, sv)) && stats@ == (StatsV {
                current_number: old(stats)@.current_number + 1,
                ..old(stats)@
            }));
        }
    }
}

/// An asteroid turned by one tick: the heading advances by the tumble
/// rate times `dt` and stays reduced.
pub open spec fn asteroid_turn(a: AsteroidV, dt: int) -> AsteroidV {
    AsteroidV { heading: norm_angle(a.heading + scale_signed(a.angular_velocity, dt, 1000)), ..a }
}

/// All asteroids turned by one tick.
pub open spec fn turn_asteroids(s: Seq<AsteroidV>, dt: int) -> Seq<AsteroidV> {
    s.map_values(|a: AsteroidV| asteroid_turn(a, dt))
}

/// Turn every asteroid by one tick, exact against `turn_asteroids`.
pub fn asteroid_rotation(asteroids: &mut Vec<Asteroid>, dt_ms: u64)
    requires
        dt_ms <= MAX_TICK_MS,
        forall|i: int| 0 <= i < old(asteroids)@.len() ==> {
            &&& 0 <= #[trigger] old(asteroids)@[i].heading < FULL_TURN_MRAD
            &&& -ASTEROID_VEL_LIMIT <= old(asteroids)@[i].angular_velocity <= ASTEROID_VEL_LIMIT
        },
    ensures
        asteroids_view(final(asteroids)@) == turn_asteroids(
            asteroids_view(old(asteroids)@),
            dt_ms as int,
        ),
{
    let dt = dt_ms as i64;
    let mut out: Vec<Asteroid> = Vec::new();
    let mut i: usize = 0;
    while i < asteroids.len()
        invariant
            i <= asteroids.len(),
            asteroids@ == old(asteroids)@,
            dt == dt_ms as i64,
            dt_ms <= MAX_TICK_MS,
            forall|k: int| 0 <= k < old(asteroids)@.len() ==> {
                &&& 0 <= #[trigger] old(asteroids)@[k].heading < FULL_TURN_MRAD
                &&& -ASTEROID_VEL_LIMIT <= old(asteroids)@[k].angular_velocity
                    <= ASTEROID_VEL_LIMIT
            },
            out@.len() == i,
            forall|k: int| 0 <= k < i ==> #[trigger] out@[k]@ == asteroid_turn(
                old(asteroids)@[k]@,
                dt_ms as int,
            ),
        decreases asteroids.len() - i,
    {
        let a = asteroids[i];
        proof {
            assert((a@.angular_velocity) * (dt as int) <= i64::MAX * 1000
                && -(i64::MAX * 1000) <= (a@.angular_velocity) * (dt as int)) by (nonlinear_arith)
                requires
                    -1_000_000 <= a@.angular_velocity <= 1_000_000,
                    0 <= dt as int <= 1000,
            ;
            lemma_scale_signed_bound(a@.angular_velocity, dt as int, 1000, 1_000_000, 1000);
        }
        let swing = scale_i64(a.angular_velocity, dt, 1000);
        let turned = Asteroid { heading: normalize_angle(a.heading + swing), ..a };
        out.push(turned);
        i = i + 1;
    }
    proof {
        assert(asteroids_view(out@) =~= turn_asteroids(
            asteroids_view(old(asteroids)@),
            dt_ms as int,
        ));
    }
    *asteroids = out;
}

/// An asteroid drifted by one tick: `position + velocity * dt`.
pub open spec fn asteroid_move(a: AsteroidV, dt: int) -> AsteroidV {
    AsteroidV {
        position: Vec2V {
            x: a.position.x + scale_signed(a.velocity.x, dt, 1000),
            y: a.position.y + scale_signed(a.velocity.y, dt, 1000),
        },
        ..a
    }
}

/// All asteroids drifted by one tick.
pub open spec fn move_asteroids(s: Seq<AsteroidV>, dt: int) -> Seq<AsteroidV> {
    s.map_values(|a: AsteroidV| asteroid_move(a, dt))
}

/// Drift every asteroid by one tick, exact against `move_asteroids`.
pub fn asteroid_movement(asteroids: &mut Vec<Asteroid>, dt_ms: u64)
    requires
        dt_ms <= MAX_TICK_MS,
        forall|i: int| 0 <= i < old(asteroids)@.len() ==> {
            &&& -ASTEROID_POS_LIMIT <= #[trigger] old(asteroids)@[i].position.x
                <= ASTEROID_POS_LIMIT
            &&& -ASTEROID_POS_LIMIT <= old(asteroids)@[i].position.y <= ASTEROID_POS_LIMIT
            &&& -ASTEROID_VEL_LIMIT <= old(asteroids)@[i].velocity.x <= ASTEROID_VEL_LIMIT
            &&& -ASTEROID_VEL_LIMIT <= old(asteroids)@[i].velocity.y <= ASTEROID_VEL_LIMIT
        },
    ensures
        asteroids_view(final(asteroids)@) == move_asteroids(
            asteroids_view(old(asteroids)@),
            dt_ms as int,
        ),
{
    let dt = dt_ms as i64;
    let mut out: Vec<Asteroid> = Vec::new();
    let mut i: usize = 0;
    while i < asteroids.len()
        invariant
            i <= asteroids.len(),
            asteroids@ == old(asteroids)@,
            dt == dt_ms as i64,
            dt_ms <= MAX_TICK_MS,
            forall|k: int| 0 <= k < old(asteroids)@.len() ==> {
                &&& -ASTEROID_POS_LIMIT <= #[trigger] old(asteroids)@[k].position.x
                    <= ASTEROID_POS_LIMIT
                &&& -ASTEROID_POS_LIMIT <= old(asteroids)@[k].position.y <= ASTEROID_POS_LIMIT
                &&& -ASTEROID_VEL_LIMIT <= old(asteroids)@[k].velocity.x <= ASTEROID_VEL_LIMIT
                &&& -ASTEROID_VEL_LIMIT <= old(asteroids)@[k].velocity.y <= ASTEROID_VEL_LIMIT
            },
            out@.len() == i,
            forall|k: int| 0 <= k < i ==> #[trigger] out@[k]@ == asteroid_move(
                old(asteroids)@[k]@,
                dt_ms as int,
            ),
        decreases asteroids.len() - i,
    {
        let a = asteroids[i];
        proof {
            assert((a@.velocity.x) * (dt as int) <= i64::MAX * 1000
                && -(i64::MAX * 1000) <= (a@.velocity.x) * (dt as int)
                && (a@.velocity.y) * (dt as int) <= i64::MAX * 1000
                && -(i64::MAX * 1000) <= (a@.velocity.y) * (dt as int)) by (nonlinear_arith)
                requires
                    -1_000_000 <= a@.velocity.x <= 1_000_000,
                    -1_000_000 <= a@.velocity.y <= 1_000_000,
                    0 <= dt as int <= 1000,
            ;
            lemma_scale_signed_bound(a@.velocity.x, dt as int, 1000, 1_000_000, 1000);
            lemma_scale_signed_bound(a@.velocity.y, dt as int, 1000, 1_000_000, 1000);
        }
        let mx = scale_i64(a.velocity.x, dt, 1000);
        let my = scale_i64(a.velocity.y, dt, 1000);
        let moved = Asteroid {
            position: Vec2Fx { x: a.position.x + mx, y: a.position.y + my },
            ..a
        };
        out.push(moved);
        i = i + 1;
    }
    proof {
        assert(asteroids_view(out@) =~= move_asteroids(
            asteroids_view(old(asteroids)@),
            dt_ms as int,
        ));
    }
    *asteroids = out;
}

/// An asteroid survives culling exactly when its squared distance to
/// the player is within the squared cull distance; strictly beyond it,
/// it is removed.
pub open spec fn asteroid_kept(a: AsteroidV, p: Vec2V) -> bool {
    dist2(a.position, p) <= ASTEROID_CULL_DISTANCE * ASTEROID_CULL_DISTANCE
}

/// The asteroids that survive culling around a player at `p`, in
/// the order they stood in.
pub open spec fn cull_asteroids(s: Seq<AsteroidV>, p: Vec2V) -> Seq<AsteroidV>
    decreases s.len(),
{
    if s.len() == 0 {
        Seq::empty()
    } else {
        let rest = cull_asteroids(s.drop_last(), p);
        if asteroid_kept(s.last(), p) {
            rest.push(s.last())
        } else {
            rest
        }
    }
}

/// Culling keeps a subset: it never grows the field, and every
/// per-asteroid fact that held before holds of every survivor.
pub proof fn lemma_cull_asteroids_preserves(
    s: Seq<AsteroidV>,
    p: Vec2V,
    q: spec_fn(AsteroidV) -> bool,
)
    requires
        forall|i: int| 0 <= i < s.len() ==> q(#[trigger] s[i]),
    ensures
        cull_asteroids(s, p).len() <= s.len(),
        forall|i: int| 0 <= i < cull_asteroids(s, p).len() ==> q(
            #[trigger] cull_asteroids(s, p)[i],
        ),
    decreases s.len(),
{
    if s.len() > 0 {
        assert(forall|i: int| 0 <= i < s.drop_last().len() ==> q(#[trigger] s.drop_last()[i]));
        lemma_cull_asteroids_preserves(s.drop_last(), p, q);
        assert(q(s.last()));
    }
}

/// Remove every asteroid strictly further than the cull distance from
/// the player, exact against `cull_asteroids`; the live count follows
/// the survivors.
pub fn asteroid_distance_cleanup(
    asteroids: &mut Vec<Asteroid>,
    stats: &mut AsteroidsStats,
    player_pos: Vec2Fx,
)
    requires
        old(stats)@.current_number == old(asteroids)@.len(),
        -ASTEROID_POS_LIMIT <= player_pos@.x <= ASTEROID_POS_LIMIT,
        -ASTEROID_POS_LIMIT <= player_pos@.y <= ASTEROID_POS_LIMIT,
        forall|i: int| 0 <= i < old(asteroids)@.len() ==> {
            &&& -ASTEROID_POS_LIMIT <= #[trigger] old(asteroids)@[i].position.x
                <= ASTEROID_POS_LIMIT
            &&& -ASTEROID_POS_LIMIT <= old(asteroids)@[i].position.y <= ASTEROID_POS_LIMIT
        },
    ensures
        asteroids_view(final(asteroids)@) == cull_asteroids(
            asteroids_view(old(asteroids)@),
            player_pos@,
        ),
        final(stats)@ == (StatsV {
            current_number: final(asteroids)@.len() as int,
            ..old(stats)@
        }),
{
    let mut out: Vec<Asteroid> = Vec::new();
    let mut i: usize = 0;
    while i < asteroids.len()
        invariant
            i <= asteroids.len(),
            asteroids@ == old(asteroids)@,
            -ASTEROID_POS_LIMIT <= player_pos@.x <= ASTEROID_POS_LIMIT,
            -ASTEROID_POS_LIMIT <= player_pos@.y <= ASTEROID_POS_LIMIT,
            forall|k: int| 0 <= k < old(asteroids)@.len() ==> {
                &&& -ASTEROID_POS_LIMIT <= #[trigger] old(asteroids)@[k].position.x
                    <= ASTEROID_POS_LIMIT
                &&& -ASTEROID_POS_LIMIT <= old(asteroids)@[k].position.y <= ASTEROID_POS_LIMIT
            },
            out@.len() <= i,
            asteroids_view(out@) == cull_asteroids(
                asteroids_view(old(asteroids)@.take(i as int)),
                player_pos@,
            ),
        decreases asteroids.len() - i,
    {
        let a = asteroids[i];
        let dx = a.position.x - player_pos.x;
        let dy = a.position.y - player_pos.y;
        proof {
            assert(0 <= dx * dx <= 4_000_000_000_000_000_000
                && 0 <= dy * dy <= 4_000_000_000_000_000_000) by (nonlinear_arith)
                requires
                    -2_000_000_000 <= dx as int <= 2_000_000_000,
                    -2_000_000_000 <= dy as int <= 2_000_000_000,
            ;
            let next = asteroids_view(old(asteroids)@.take(i as int + 1));
            assert(next.drop_last() =~= asteroids_view(old(asteroids)@.take(i as int)));
            assert(next.last() == old(asteroids)@[i as int]@);
        }
        let d2 = dx * dx + dy * dy;
        if d2 <= ASTEROID_CULL_DISTANCE * ASTEROID_CULL_DISTANCE {
            out.push(a);
            proof {
                assert(asteroids_view(out@) =~= cull_asteroids(
                    asteroids_view(old(asteroids)@.take(i as int + 1)),
                    player_pos@,
                ));
            }
        } else {
            proof {
                assert(asteroids_view(out@) =~= cull_asteroids(
                    asteroids_view(old(asteroids)@.take(i as int + 1)),
                    player_pos@,
                ));
            }
        }
        i = i + 1;
    }
    proof {
        assert(old(asteroids)@.take(old(asteroids)@.len() as int) =~= old(asteroids)@);
    }
    stats.current_number = out.len() as u32;
    *asteroids = out;
}

/// Remove every asteroid, as scene exit does.
pub fn remove_asteroids(asteroids: &mut Vec<Asteroid>)
    ensures
        final(asteroids)@.len() == 0,
{
    *asteroids = Vec::new();
}

} // verus!
