//! The player ship and its per-tick kinematic integration.
//!
//! Each tick first integrates the turn rate and heading (`rotation`),
//! then the velocity and position (`acceleration`).  Held keys add a
//! constant acceleration; with no key held the respective rate decays
//! toward zero.  Holding both keys of a pair counts as input (the decay
//! is skipped) while the two accelerations cancel — that is deliberate.

use vstd::prelude::*;

verus! {

use crate::angle::FULL_TURN_MRAD;
use crate::angle::cosine_mrad;
use crate::angle::norm_angle;
use crate::angle::normalize_angle;
use crate::angle::sine_mrad;
use crate::angle::sin_mrad;
use crate::angle::cos_mrad;
use crate::fixed::MAX_TICK_MS;
use crate::fixed::POS_LIMIT;
use crate::fixed::VEL_LIMIT;
use crate::fixed::Vec2Fx;
use crate::fixed::Vec2V;
use crate::fixed::lemma_scale_signed_bound;
use crate::fixed::lemma_scale_signed_shrinks;
use crate::fixed::scale_i64;
use crate::fixed::scale_signed;
use crate::input::InputState;

/// Thrust acceleration, in milli-units per second squared.
pub const PLAYER_ACCELERATION: i64 = 50_000;

/// Linear damping rate, in thousandths per second.
pub const PLAYER_DECELERATION: i64 = 200;

/// Turn acceleration, in milliradians per second squared.
pub const PLAYER_ROT_ACC: i64 = 2_000;

/// Turn damping rate, in thousandths per second.
pub const PLAYER_ROT_DEC: i64 = 500;

/// The turn rate is clamped to this magnitude, in milliradians per
/// second.
pub const PLAYER_MAX_ROT_RATE: i64 = 2_500;

/// The player ship.
#[derive(Clone, Copy, PartialEq, Eq, Structural, Debug)]
pub struct Player {
    pub position: Vec2Fx,
    pub velocity: Vec2Fx,
    pub angular_rate: i64,
    pub heading: i64,
}

/// Mathematical view of a `Player`.
pub struct PlayerV {
    pub position: Vec2V,
    pub velocity: Vec2V,
    pub angular_rate: int,
    pub heading: int,
}

impl View for Player {
    type V = PlayerV;

    open spec fn view(&self) -> PlayerV {
        PlayerV {
            position: self.position@,
            velocity: self.velocity@,
            angular_rate: self.angular_rate as int,
            heading: self.heading as int,
        }
    }
}

/// Invariant kept by every tick: the heading is reduced and the turn
/// rate is clamped.
pub open spec fn player_wf(p: PlayerV) -> bool {
    &&& 0 <= p.heading < FULL_TURN_MRAD
    &&& -PLAYER_MAX_ROT_RATE <= p.angular_rate <= PLAYER_MAX_ROT_RATE
}

/// Numeric bounds under which a tick cannot overflow.  Machine limits
/// only; ticking can leave them, but only by a microscopic margin, so a
/// caller that keeps its world anywhere near the play field
/// re-establishes them trivially.
pub open spec fn player_in_bounds(p: PlayerV) -> bool {
    &&& -POS_LIMIT <= p.position.x <= POS_LIMIT
    &&& -POS_LIMIT <= p.position.y <= POS_LIMIT
    &&& -VEL_LIMIT <= p.velocity.x <= VEL_LIMIT
    &&& -VEL_LIMIT <= p.velocity.y <= VEL_LIMIT
}

/// The turn rate after one tick: pushed by a held rotate key and
/// clamped, or decayed toward zero when no rotate key is held.
pub open spec fn angular_rate_step(rate: int, input: InputState, dt: int) -> int {
    let push = (PLAYER_ROT_ACC * dt) / 1000;
    if input.rotate_left && input.rotate_right {
        rate
    } else if input.rotate_left {
        if rate + push > PLAYER_MAX_ROT_RATE {
            PLAYER_MAX_ROT_RATE as int
        } else {
            rate + push
        }
    } else if input.rotate_right {
        if rate - push < -PLAYER_MAX_ROT_RATE {
            -PLAYER_MAX_ROT_RATE as int
        } else {
            rate - push
        }
    } else {
        rate - scale_signed(rate, PLAYER_ROT_DEC * dt, 1_000_000)
    }
}

/// One tick of turn integration: update the rate, then advance the
/// heading by `rate * dt` and reduce it.
pub open spec fn rotation_step(p: PlayerV, input: InputState, dt: int) -> PlayerV {
    let rate = angular_rate_step(p.angular_rate, input, dt);
    PlayerV {
        angular_rate: rate,
        heading: norm_angle(p.heading + scale_signed(rate, dt, 1000)),
        ..p
    }
}

/// The velocity after one tick: pushed along the forward vector
/// `(-sin heading, cos heading)` by a held thrust key, or decayed toward
/// zero when no thrust key is held.
pub open spec fn velocity_step(p: PlayerV, input: InputState, dt: int) -> Vec2V {
    let fx = -sine_mrad(p.heading);
    let fy = cosine_mrad(p.heading);
    if input.thrust_forward && input.thrust_back {
        p.velocity
    } else if input.thrust_forward {
        Vec2V {
            x: p.velocity.x + scale_signed(fx, PLAYER_ACCELERATION * dt, 1_000_000),
            y: p.velocity.y + scale_signed(fy, PLAYER_ACCELERATION * dt, 1_000_000),
        }
    } else if input.thrust_back {
        Vec2V {
            x: p.velocity.x - scale_signed(fx, PLAYER_ACCELERATION * dt, 1_000_000),
            y: p.velocity.y - scale_signed(fy, PLAYER_ACCELERATION * dt, 1_000_000),
        }
    } else {
        Vec2V {
            x: p.velocity.x - scale_signed(p.velocity.x, PLAYER_DECELERATION * dt, 1_000_000),
            y: p.velocity.y - scale_signed(p.velocity.y, PLAYER_DECELERATION * dt, 1_000_000),
        }
    }
}

/// One tick of translation integration: update the velocity, then
/// advance the position by `velocity * dt`.
pub open spec fn acceleration_step(p: PlayerV, input: InputState, dt: int) -> PlayerV {
    let vel = velocity_step(p, input, dt);
    PlayerV {
        velocity: vel,
        position: Vec2V {
            x: p.position.x + scale_signed(vel.x, dt, 1000),
            y: p.position.y + scale_signed(vel.y, dt, 1000),
        },
        ..p
    }
}

/// The player as it exists the moment the simulation is entered: at the
/// origin, at rest, facing along the positive y axis.
pub fn spawn_player() -> (p: Player)
    ensures
        p@.position == (Vec2V { x: 0, y: 0 }),
        p@.velocity == (Vec2V { x: 0, y: 0 }),
        p@.angular_rate == 0,
        p@.heading == 0,
        player_wf(p@),
        player_in_bounds(p@),
{
    Player {
        position: Vec2Fx::zero(),
        velocity: Vec2Fx::zero(),
        angular_rate: 0,
        heading: 0,
    }
}

/// One tick of turn integration, exact against `rotation_step`.
pub fn rotation(p: &mut Player, input: InputState, dt_ms: u64)
    requires
        player_wf(old(p)@),
        dt_ms <= MAX_TICK_MS,
    ensures
        final(p)@ == rotation_step(old(p)@, input, dt_ms as int),
        player_wf(final(p)@),
        final(p).position == old(p).position,
        final(p).velocity == old(p).velocity,
{
    let dt = dt_ms as i64;
    let push = (PLAYER_ROT_ACC * dt) / 1000;
    let rate: i64 = if input.rotate_left && input.rotate_right {
        p.angular_rate
    } else if input.rotate_left {
        let r = p.angular_rate + push;
        if r > PLAYER_MAX_ROT_RATE {
            PLAYER_MAX_ROT_RATE
        } else {
            r
        }
    } else if input.rotate_right {
        let r = p.angular_rate - push;
        if r < -PLAYER_MAX_ROT_RATE {
            -PLAYER_MAX_ROT_RATE
        } else {
            r
        }
    } else {
        let ghost r0 = old(p)@.angular_rate;
        proof {
            assert(r0 * (PLAYER_ROT_DEC * (dt as int)) <= i64::MAX * 1_000_000
                && -(i64::MAX * 1_000_000) <= r0 * (PLAYER_ROT_DEC * (dt as int)))
                by (nonlinear_arith)
                requires
                    -2500 <= r0 <= 2500,
                    0 <= PLAYER_ROT_DEC * (dt as int) <= 500_000,
            ;
            lemma_scale_signed_shrinks(r0, PLAYER_ROT_DEC * (dt as int), 1_000_000);
        }
        let decay = scale_i64(p.angular_rate, PLAYER_ROT_DEC * dt, 1_000_000);
        p.angular_rate - decay
    };
    proof {
        assert(rate * (dt as int) <= i64::MAX * 1000
            && -(i64::MAX * 1000) <= rate * (dt as int)) by (nonlinear_arith)
            requires
                -2500 <= rate as int <= 2500,
                0 <= dt as int <= 1000,
        ;
        lemma_scale_signed_bound(rate as int, dt as int, 1000, 2500, 1000);
    }
    let swing = scale_i64(rate, dt, 1000);
    p.angular_rate = rate;
    p.heading = normalize_angle(p.heading + swing);
}

/// One tick of translation integration, exact against
/// `acceleration_step`.
pub fn acceleration(p: &mut Player, input: InputState, dt_ms: u64)
    requires
        player_wf(old(p)@),
        player_in_bounds(old(p)@),
        dt_ms <= MAX_TICK_MS,
    ensures
        final(p)@ == acceleration_step(old(p)@, input, dt_ms as int),
        player_wf(final(p)@),
        final(p).heading == old(p).heading,
        final(p).angular_rate == old(p).angular_rate,
        -(VEL_LIMIT + 50_000) <= final(p)@.velocity.x <= VEL_LIMIT + 50_000,
        -(VEL_LIMIT + 50_000) <= final(p)@.velocity.y <= VEL_LIMIT + 50_000,
        -(POS_LIMIT + 50_050_000) <= final(p)@.position.x <= POS_LIMIT + 50_050_000,
        -(POS_LIMIT + 50_050_000) <= final(p)@.position.y <= POS_LIMIT + 50_050_000,
{
    let dt = dt_ms as i64;
    let thrust = PLAYER_ACCELERATION * dt;
    let vx: i64;
    let vy: i64;
    if input.thrust_forward && input.thrust_back {
        vx = p.velocity.x;
        vy = p.velocity.y;
    } else if input.thrust_forward || input.thrust_back {
        let s = sin_mrad(p.heading);
        let c = cos_mrad(p.heading);
        proof {
            assert((-(s as int)) * (PLAYER_ACCELERATION * (dt as int)) <= i64::MAX * 1_000_000
                && -(i64::MAX * 1_000_000)
                <= (-(s as int)) * (PLAYER_ACCELERATION * (dt as int))
                && (c as int) * (PLAYER_ACCELERATION * (dt as int)) <= i64::MAX * 1_000_000
                && -(i64::MAX * 1_000_000)
                <= (c as int) * (PLAYER_ACCELERATION * (dt as int))) by (nonlinear_arith)
                requires
                    -1000 <= s as int <= 1000,
                    -1000 <= c as int <= 1000,
                    0 <= PLAYER_ACCELERATION * (dt as int) <= 50_000_000,
            ;
            lemma_scale_signed_bound(
                -(s as int),
                PLAYER_ACCELERATION * (dt as int),
                1_000_000,
                1000,
                50_000_000,
            );
            lemma_scale_signed_bound(
                c as int,
                PLAYER_ACCELERATION * (dt as int),
                1_000_000,
                1000,
                50_000_000,
            );
        }
        let ax = scale_i64(-s, thrust, 1_000_000);
        let ay = scale_i64(c, thrust, 1_000_000);
        if input.thrust_forward {
            vx = p.velocity.x + ax;
            vy = p.velocity.y + ay;
        } else {
            vx = p.velocity.x - ax;
            vy = p.velocity.y - ay;
        }
    } else {
        let ghost v0x = old(p)@.velocity.x;
        let ghost v0y = old(p)@.velocity.y;
        proof {
            assert(v0x * (PLAYER_DECELERATION * (dt as int)) <= i64::MAX * 1_000_000
                && -(i64::MAX * 1_000_000) <= v0x * (PLAYER_DECELERATION * (dt as int))
                && v0y * (PLAYER_DECELERATION * (dt as int)) <= i64::MAX * 1_000_000
                && -(i64::MAX * 1_000_000) <= v0y * (PLAYER_DECELERATION * (dt as int)))
                by (nonlinear_arith)
                requires
                    -50_000_000 <= v0x <= 50_000_000,
                    -50_000_000 <= v0y <= 50_000_000,
                    0 <= PLAYER_DECELERATION * (dt as int) <= 200_000,
            ;
            lemma_scale_signed_shrinks(v0x, PLAYER_DECELERATION * (dt as int), 1_000_000);
            lemma_scale_signed_shrinks(v0y, PLAYER_DECELERATION * (dt as int), 1_000_000);
        }
        let drag = PLAYER_DECELERATION * dt;
        let dx = scale_i64(p.velocity.x, drag, 1_000_000);
        let dy = scale_i64(p.velocity.y, drag, 1_000_000);
        vx = p.velocity.x - dx;
        vy = p.velocity.y - dy;
    }
    proof {
        assert((vx as int) * (dt as int) <= i64::MAX * 1000
            && -(i64::MAX * 1000) <= (vx as int) * (dt as int)
            && (vy as int) * (dt as int) <= i64::MAX * 1000
            && -(i64::MAX * 1000) <= (vy as int) * (dt as int)) by (nonlinear_arith)
            requires
                -50_050_000 <= vx as int <= 50_050_000,
                -50_050_000 <= vy as int <= 50_050_000,
                0 <= dt as int <= 1000,
        ;
        lemma_scale_signed_bound(vx as int, dt as int, 1000, 50_050_000, 1000);
        lemma_scale_signed_bound(vy as int, dt as int, 1000, 50_050_000, 1000);
    }
    let mx = scale_i64(vx, dt, 1000);
    let my = scale_i64(vy, dt, 1000);
    p.velocity = Vec2Fx { x: vx, y: vy };
    p.position = Vec2Fx { x: p.position.x + mx, y: p.position.y + my };
}

} // verus!
