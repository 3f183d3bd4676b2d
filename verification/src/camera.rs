//! The camera that follows the player.
//!
//! The correction is distance-weighted: with `diff` the offset from
//! camera to player, the camera moves by `diff` times the square of a
//! hundredth of the distance, per second of `dt`.  Far displacements
//! correct quickly, near ones barely
//! move.  There is deliberately no clamp: at a very large offset one
//! large tick can overshoot, an accepted quirk of the rule rather than a bug.

use vstd::prelude::*;

verus! {

use crate::fixed::MAX_TICK_MS;
use crate::fixed::Vec2Fx;
use crate::fixed::Vec2V;
use crate::fixed::lemma_scale_signed_bound;
use crate::fixed::scale_i64;
use crate::fixed::scale_signed;

/// The camera correction works on diffs up to this size, in milli-units;
/// machine limit only.
pub const CAMERA_DIFF_LIMIT: i64 = 1_500_000_000;

/// The camera itself stays meaningful up to this coordinate, in
/// milli-units; machine limit only.
pub const CAMERA_POS_LIMIT: i64 = 2_000_000_000;

/// The camera; it only reads the player, never owns it.
#[derive(Clone, Copy, PartialEq, Eq, Structural, Debug)]
pub struct PlayerCamera {
    pub position: Vec2Fx,
}

/// Mathematical view of a `PlayerCamera`.
pub struct CameraV {
    pub position: Vec2V,
}

impl View for PlayerCamera {
    type V = CameraV;

    open spec fn view(&self) -> CameraV {
        CameraV { position: self.position@ }
    }
}

/// One tick of camera following.  With `diff = player - camera` in
/// milli-units, the correction per axis is
/// `diff * |diff|^2 / 10^10 * dt / 1000`, staged exactly as written:
/// that is `diff * (|diff| / 100000)^2` — the squared correction
/// strength of the real-valued rule, carried in fixed point.
pub open spec fn camera_follow_step(cam: Vec2V, player: Vec2V, dt: int) -> Vec2V {
    let dx = player.x - cam.x;
    let dy = player.y - cam.y;
    let d2 = dx * dx + dy * dy;
    Vec2V {
        x: cam.x + scale_signed(scale_signed(dx, d2, 10_000_000_000), dt, 1000),
        y: cam.y + scale_signed(scale_signed(dy, d2, 10_000_000_000), dt, 1000),
    }
}

/// The camera as it exists on scene entry: at the origin.
pub fn spawn_camera() -> (c: PlayerCamera)
    ensures
        c@.position == (Vec2V { x: 0, y: 0 }),
{
    PlayerCamera { position: Vec2Fx::zero() }
}

/// One tick of camera following, exact against `camera_follow_step`.
pub fn camera_follow(cam: &mut PlayerCamera, player_pos: Vec2Fx, dt_ms: u64)
    requires
        -CAMERA_DIFF_LIMIT <= player_pos@.x - old(cam)@.position.x <= CAMERA_DIFF_LIMIT,
        -CAMERA_DIFF_LIMIT <= player_pos@.y - old(cam)@.position.y <= CAMERA_DIFF_LIMIT,
        -CAMERA_POS_LIMIT <= old(cam)@.position.x <= CAMERA_POS_LIMIT,
        -CAMERA_POS_LIMIT <= old(cam)@.position.y <= CAMERA_POS_LIMIT,
        dt_ms <= MAX_TICK_MS,
    ensures
        final(cam)@.position == camera_follow_step(old(cam)@.position, player_pos@, dt_ms as int),
{
    let dt = dt_ms as i64;
    let dx = player_pos.x - cam.position.x;
    let dy = player_pos.y - cam.position.y;
    proof {
        assert(0 <= dx * dx <= 2_250_000_000_000_000_000
            && 0 <= dy * dy <= 2_250_000_000_000_000_000) by (nonlinear_arith)
            requires
                -1_500_000_000 <= dx as int <= 1_500_000_000,
                -1_500_000_000 <= dy as int <= 1_500_000_000,
        ;
    }
    let d2 = dx * dx + dy * dy;
    proof {
        assert((dx as int) * (d2 as int) <= i64::MAX * 10_000_000_000
            && -(i64::MAX * 10_000_000_000) <= (dx as int) * (d2 as int)
            && (dy as int) * (d2 as int) <= i64::MAX * 10_000_000_000
            && -(i64::MAX * 10_000_000_000) <= (dy as int) * (d2 as int)) by (nonlinear_arith)
            requires
                -1_500_000_000 <= dx as int <= 1_500_000_000,
                -1_500_000_000 <= dy as int <= 1_500_000_000,
                0 <= d2 as int <= 4_500_000_000_000_000_000,
        ;
        lemma_scale_signed_bound(
            dx as int,
            d2 as int,
            10_000_000_000,
            1_500_000_000,
            4_500_000_000_000_000_000,
        );
        lemma_scale_signed_bound(
            dy as int,
            d2 as int,
            10_000_000_000,
            1_500_000_000,
            4_500_000_000_000_000_000,
        );
    }
    let tx = scale_i64(dx, d2, 10_000_000_000);
    let ty = scale_i64(dy, d2, 10_000_000_000);
    proof {
        assert((tx as int) * (dt as int) <= i64::MAX * 1000
            && -(i64::MAX * 1000) <= (tx as int) * (dt as int)
            && (ty as int) * (dt as int) <= i64::MAX * 1000
            && -(i64::MAX * 1000) <= (ty as int) * (dt as int)) by (nonlinear_arith)
            requires
                -675_000_000_000_000_000 <= tx as int <= 675_000_000_000_000_000,
                -675_000_000_000_000_000 <= ty as int <= 675_000_000_000_000_000,
                0 <= dt as int <= 1000,
        ;
        lemma_scale_signed_bound(tx as int, dt as int, 1000, 675_000_000_000_000_000, 1000);
        lemma_scale_signed_bound(ty as int, dt as int, 1000, 675_000_000_000_000_000, 1000);
    }
    let cx = scale_i64(tx, dt, 1000);
    let cy = scale_i64(ty, dt, 1000);
    cam.position = Vec2Fx { x: cam.position.x + cx, y: cam.position.y + cy };
}

} // verus!
