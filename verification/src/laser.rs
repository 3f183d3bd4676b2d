//! The weapon and its time-limited projectiles.
//!
//! Firing is gated by a cooldown: a fire command while the cooldown has
//! run out spawns one laser bullet ahead of the ship and rewinds the
//! cooldown; a fire command while it is still running is a no-op, not an
//! error.  Each bullet inherits the ship's velocity plus a fixed kick
//! along the ship's forward vector, and lives for a fixed time.

use vstd::prelude::*;

verus! {

use crate::angle::circle_vec;
use crate::angle::vec2_from_circle;
use crate::fixed::MAX_TICK_MS;
use crate::fixed::Vec2Fx;
use crate::fixed::Vec2V;
use crate::fixed::lemma_scale_signed_bound;
use crate::fixed::scale_i64;
use crate::fixed::scale_signed;
use crate::player::Player;
use crate::player::PlayerV;
use crate::player::player_wf;
use crate::timer::Countdown;
use crate::timer::countdown_tick;

/// Milliseconds between two shots.
pub const LASER_MAX_COOLDOWN_MS: u64 = 200;

/// Kick a bullet gets along the ship's forward vector, in milli-units
/// per second.
pub const LASER_SPEED: i64 = 200_000;

/// Lifetime of a bullet, in milliseconds.
pub const LASER_LIFETIME_MS: u64 = 5_000;

/// How far ahead of the ship a bullet appears, in milli-units.
pub const LASER_MUZZLE_OFFSET: i64 = 30_000;

/// Positions handed to the laser systems stay within this bound, in
/// milli-units; machine limit only.
pub const LASER_POS_LIMIT: i64 = 1_000_000_000;

/// Speeds of lasers stay within this bound, in milli-units per second;
/// machine limit only.
pub const LASER_VEL_LIMIT: i64 = 100_000_000;

/// The player's weapon: a cooldown and the muzzle offset.
#[derive(Clone, Copy, PartialEq, Eq, Structural, Debug)]
pub struct LaserShooter {
    pub cooldown: Countdown,
    pub offset: i64,
}

/// Mathematical view of a `LaserShooter`.
pub struct ShooterV {
    pub cooldown: int,
    pub offset: int,
}

impl View for LaserShooter {
    type V = ShooterV;

    open spec fn view(&self) -> ShooterV {
        ShooterV { cooldown: self.cooldown.remaining_ms as int, offset: self.offset as int }
    }
}

/// One laser bullet.
#[derive(Clone, Copy, PartialEq, Eq, Structural, Debug)]
pub struct LaserBullet {
    pub position: Vec2Fx,
    pub velocity: Vec2Fx,
    pub heading: i64,
    pub life_time: Countdown,
}

/// Mathematical view of a `LaserBullet`.
pub struct LaserV {
    pub position: Vec2V,
    pub velocity: Vec2V,
    pub heading: int,
    pub life_time: int,
}

impl View for LaserBullet {
    type V = LaserV;

    open spec fn view(&self) -> LaserV {
        LaserV {
            position: self.position@,
            velocity: self.velocity@,
            heading: self.heading as int,
            life_time: self.life_time.remaining_ms as int,
        }
    }
}

/// The views of a row of bullets.
pub open spec fn lasers_view(s: Seq<LaserBullet>) -> Seq<LaserV> {
    s.map_values(|b: LaserBullet| b@)
}

/// The weapon as it exists on scene entry: cooldown full, so the first
/// shot becomes available one cooldown after entry.
pub fn spawn_shooter() -> (sh: LaserShooter)
    ensures
        sh@.cooldown == LASER_MAX_COOLDOWN_MS,
        sh@.offset == LASER_MUZZLE_OFFSET,
{
    LaserShooter { cooldown: Countdown::new(LASER_MAX_COOLDOWN_MS), offset: LASER_MUZZLE_OFFSET }
}

/// The bullet a ship in state `p` fires from a muzzle `offset` ahead:
/// placed at `position + forward * offset`, moving at
/// `velocity + forward * LASER_SPEED`, facing the ship's way, with a
/// full lifetime.
pub open spec fn new_laser(p: PlayerV, offset: int) -> LaserV {
    let muzzle = circle_vec(p.heading, offset);
    let kick = circle_vec(p.heading, LASER_SPEED as int);
    LaserV {
        position: Vec2V { x: p.position.x + muzzle.x, y: p.position.y + muzzle.y },
        velocity: Vec2V { x: p.velocity.x + kick.x, y: p.velocity.y + kick.y },
        heading: p.heading,
        life_time: LASER_LIFETIME_MS as int,
    }
}

/// One tick of the weapon: the cooldown runs down first; a fire command
/// with the cooldown at zero then appends one bullet and rewinds the
/// cooldown, and any other combination changes nothing but the cooldown.
pub open spec fn shoot_step(
    sh: ShooterV,
    p: PlayerV,
    lasers: Seq<LaserV>,
    fire: bool,
    dt: int,
) -> (ShooterV, Seq<LaserV>) {
    let cd = countdown_tick(sh.cooldown, dt);
    if fire && cd == 0 {
        (
            ShooterV { cooldown: LASER_MAX_COOLDOWN_MS as int, offset: sh.offset },
            lasers.push(new_laser(p, sh.offset)),
        )
    } else {
        (ShooterV { cooldown: cd, offset: sh.offset }, lasers)
    }
}

/// One tick of the weapon, exact against `shoot_step`.
pub fn player_shoot_laser(
    shooter: &mut LaserShooter,
    player: &Player,
    lasers: &mut Vec<LaserBullet>,
    fire: bool,
    dt_ms: u64,
)
    requires
        player_wf(player@),
        0 <= old(shooter)@.offset <= 1_000_000,
        -LASER_POS_LIMIT <= player@.position.x <= LASER_POS_LIMIT,
        -LASER_POS_LIMIT <= player@.position.y <= LASER_POS_LIMIT,
        -(LASER_VEL_LIMIT - LASER_SPEED) <= player@.velocity.x <= LASER_VEL_LIMIT - LASER_SPEED,
        -(LASER_VEL_LIMIT - LASER_SPEED) <= player@.velocity.y <= LASER_VEL_LIMIT - LASER_SPEED,
        dt_ms <= MAX_TICK_MS,
    ensures
        final(shooter)@ == shoot_step(
            old(shooter)@,
            player@,
            lasers_view(old(lasers)@),
            fire,
            dt_ms as int,
        ).0,
        lasers_view(final(lasers)@) == shoot_step(
            old(shooter)@,
            player@,
            lasers_view(old(lasers)@),
            fire,
            dt_ms as int,
        ).1,
        final(lasers)@.len() == old(lasers)@.len() + (
        if fire && countdown_tick(old(shooter)@.cooldown, dt_ms as int) == 0 {
            1int
        } else {
            0int
        }),
{
    let finished = shooter.cooldown.tick(dt_ms);
    if fire && finished {
        shooter.cooldown.reset(LASER_MAX_COOLDOWN_MS);
        let muzzle = vec2_from_circle(player.heading, shooter.offset);
        let kick = vec2_from_circle(player.heading, LASER_SPEED);
        let bullet = LaserBullet {
            position: player.position.plus(muzzle),
            velocity: player.velocity.plus(kick),
            heading: player.heading,
            life_time: Countdown::new(LASER_LIFETIME_MS),
        };
        lasers.push(bullet);
        proof {
            assert(lasers_view(lasers@)
                =~= lasers_view(old(lasers)@).push(new_laser(player@, old(shooter)@.offset)));
        }
    }
}

/// A bullet advanced by one tick: `position + velocity * dt`.
pub open spec fn laser_move(l: LaserV, dt: int) -> LaserV {
    LaserV {
        position: Vec2V {
            x: l.position.x + scale_signed(l.velocity.x, dt, 1000),
            y: l.position.y + scale_signed(l.velocity.y, dt, 1000),
        },
        ..l
    }
}

/// All bullets advanced by one tick.
pub open spec fn move_lasers(s: Seq<LaserV>, dt: int) -> Seq<LaserV> {
    s.map_values(|l: LaserV| laser_move(l, dt))
}

/// Advance every live bullet by one tick, exact against `move_lasers`.
pub fn laser_movement(lasers: &mut Vec<LaserBullet>, dt_ms: u64)
    requires
        dt_ms <= MAX_TICK_MS,
        forall|i: int| 0 <= i < old(lasers)@.len() ==> {
            &&& -LASER_POS_LIMIT <= #[trigger] old(lasers)@[i].position.x <= LASER_POS_LIMIT
            &&& -LASER_POS_LIMIT <= old(lasers)@[i].position.y <= LASER_POS_LIMIT
            &&& -LASER_VEL_LIMIT <= old(lasers)@[i].velocity.x <= LASER_VEL_LIMIT
            &&& -LASER_VEL_LIMIT <= old(lasers)@[i].velocity.y <= LASER_VEL_LIMIT
        },
    ensures
        lasers_view(final(lasers)@) == move_lasers(lasers_view(old(lasers)@), dt_ms as int),
{
    let dt = dt_ms as i64;
    let mut out: Vec<LaserBullet> = Vec::new();
    let mut i: usize = 0;
    while i < lasers.len()
        invariant
            i <= lasers.len(),
            lasers@ == old(lasers)@,
            dt == dt_ms as i64,
            dt_ms <= MAX_TICK_MS,
            forall|k: int| 0 <= k < old(lasers)@.len() ==> {
                &&& -LASER_POS_LIMIT <= #[trigger] old(lasers)@[k].position.x <= LASER_POS_LIMIT
                &&& -LASER_POS_LIMIT <= old(lasers)@[k].position.y <= LASER_POS_LIMIT
                &&& -LASER_VEL_LIMIT <= old(lasers)@[k].velocity.x <= LASER_VEL_LIMIT
                &&& -LASER_VEL_LIMIT <= old(lasers)@[k].velocity.y <= LASER_VEL_LIMIT
            },
            out@.len() == i,
            forall|k: int| 0 <= k < i ==> #[trigger] out@[k]@ == laser_move(old(lasers)@[k]@, dt_ms as int),
        decreases lasers.len() - i,
    {
        let l = lasers[i];
        proof {
            assert((l@.velocity.x) * (dt as int) <= i64::MAX * 1000
                && -(i64::MAX * 1000) <= (l@.velocity.x) * (dt as int)
                && (l@.velocity.y) * (dt as int) <= i64::MAX * 1000
                && -(i64::MAX * 1000) <= (l@.velocity.y) * (dt as int)) by (nonlinear_arith)
                requires
                    -100_000_000 <= l@.velocity.x <= 100_000_000,
                    -100_000_000 <= l@.velocity.y <= 100_000_000,
                    0 <= dt as int <= 1000,
            ;
            lemma_scale_signed_bound(l@.velocity.x, dt as int, 1000, 100_000_000, 1000);
            lemma_scale_signed_bound(l@.velocity.y, dt as int, 1000, 100_000_000, 1000);
        }
        let mx = scale_i64(l.velocity.x, dt, 1000);
        let my = scale_i64(l.velocity.y, dt, 1000);
        let moved = LaserBullet {
            position: Vec2Fx { x: l.position.x + mx, y: l.position.y + my },
            ..l
        };
        out.push(moved);
        i = i + 1;
    }
    proof {
        assert(lasers_view(out@) =~= move_lasers(lasers_view(old(lasers)@), dt_ms as int));
    }
    *lasers = out;
}

/// A bullet after its lifetime ticks down; it survives the tick exactly
/// when some lifetime is left.
pub open spec fn laser_age(l: LaserV, dt: int) -> LaserV {
    LaserV { life_time: countdown_tick(l.life_time, dt), ..l }
}

/// The bullets that survive the tick, aged; one whose remaining
/// lifetime reaches zero is dropped in this same tick.
pub open spec fn despawn_lasers(s: Seq<LaserV>, dt: int) -> Seq<LaserV>
    decreases s.len(),
{
    if s.len() == 0 {
        Seq::empty()
    } else {
        let rest = despawn_lasers(s.drop_last(), dt);
        let aged = laser_age(s.last(), dt);
        if aged.life_time > 0 {
            rest.push(aged)
        } else {
            rest
        }
    }
}

/// Aging and dropping keeps every per-bullet fact that aging itself
/// keeps, never grows the row, and leaves no expired bullet behind.
pub proof fn lemma_despawn_lasers_preserves(s: Seq<LaserV>, dt: int, p: spec_fn(LaserV) -> bool)
    requires
        forall|i: int| 0 <= i < s.len() ==> p(#[trigger] s[i]),
        forall|l: LaserV| #[trigger] p(l) ==> p(laser_age(l, dt)),
    ensures
        despawn_lasers(s, dt).len() <= s.len(),
        forall|i: int| 0 <= i < despawn_lasers(s, dt).len() ==> p(
            #[trigger] despawn_lasers(s, dt)[i],
        ) && despawn_lasers(s, dt)[i].life_time > 0,
    decreases s.len(),
{
    if s.len() > 0 {
        assert(forall|i: int| 0 <= i < s.drop_last().len() ==> p(#[trigger] s.drop_last()[i]));
        lemma_despawn_lasers_preserves(s.drop_last(), dt, p);
        assert(p(s.last()));
    }
}

/// Age every bullet and drop the expired, exact against
/// `despawn_lasers`.
pub fn laser_despawner(lasers: &mut Vec<LaserBullet>, dt_ms: u64)
    ensures
        lasers_view(final(lasers)@) == despawn_lasers(lasers_view(old(lasers)@), dt_ms as int),
{
    let mut out: Vec<LaserBullet> = Vec::new();
    let mut i: usize = 0;
    while i < lasers.len()
        invariant
            i <= lasers.len(),
            lasers@ == old(lasers)@,
            lasers_view(out@) == despawn_lasers(
                lasers_view(old(lasers)@.take(i as int)),
                dt_ms as int,
            ),
        decreases lasers.len() - i,
    {
        let ghost prefix = lasers_view(old(lasers)@.take(i as int));
        let mut aged = lasers[i];
        aged.life_time.tick(dt_ms);
        proof {
            let next = lasers_view(old(lasers)@.take(i as int + 1));
            assert(next.drop_last() =~= prefix);
            assert(next.last() == old(lasers)@[i as int]@);
        }
        if aged.life_time.remaining_ms > 0 {
            out.push(aged);
            proof {
                assert(lasers_view(out@) =~= despawn_lasers(
                    lasers_view(old(lasers)@.take(i as int + 1)),
                    dt_ms as int,
                ));
            }
        } else {
            proof {
                assert(lasers_view(out@) =~= despawn_lasers(
                    lasers_view(old(lasers)@.take(i as int + 1)),
                    dt_ms as int,
                ));
            }
        }
        i = i + 1;
    }
    proof {
        assert(old(lasers)@.take(old(lasers)@.len() as int) =~= old(lasers)@);
    }
    *lasers = out;
}

} // verus!
