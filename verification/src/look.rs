//! The look controller.
//!
//! Each tick it sums the pointer-motion events that arrived since the
//! last tick; if the sum is zero it leaves everything alone, otherwise
//! it turns the player body about the world vertical axis (yaw) and the
//! camera pivot about its local lateral axis (pitch), clamping the
//! stored pitch to a quarter turn and applying only the clamped
//! difference to the pivot, so that the stored scalar and the applied
//! rotation can never drift apart.

use vstd::prelude::*;
use crate::fixed::{abs_val, div_toward_zero, clamp_val, div_trunc64, clamp64, SCALE};
use crate::state::{
    MotionDelta, PlayerBody, CameraRig, body_wf, camera_wf, yaw_wf, PI_FX, TWO_PI_FX,
    PITCH_LIMIT_FX,
};
use vstd::arithmetic::div_mod::lemma_fundamental_div_mod;
use vstd::arithmetic::div_mod::lemma_fundamental_div_mod_converse_mod;
use vstd::arithmetic::div_mod::lemma_mod_division_less_than_divisor;
use vstd::arithmetic::div_mod::lemma_small_mod;

verus! {

/// Pointer sensitivity: fixed-point radians of rotation per whole pixel
/// of pointer motion (0.005 radians per pixel).
pub const SENSITIVITY_FX: i64 = 5_000;

/// Largest admissible magnitude of one pointer-motion event component.
pub const MOTION_MAX_FX: i64 = 1_000_000_000_000;

/// Largest admissible number of pointer-motion events in one tick.
pub const MOTION_EVENTS_MAX: usize = 1024;

/// Sum of the horizontal components of a tick's motion events.
pub open spec fn sum_dx(s: Seq<MotionDelta>) -> int
    decreases s.len(),
{
    if s.len() == 0 {
        0
    } else {
        sum_dx(s.drop_last()) + s.last().x
    }
}

/// Sum of the vertical components of a tick's motion events.
pub open spec fn sum_dy(s: Seq<MotionDelta>) -> int
    decreases s.len(),
{
    if s.len() == 0 {
        0
    } else {
        sum_dy(s.drop_last()) + s.last().y
    }
}

/// An angle reduced into the wrapped interval `(-PI_FX, PI_FX]`.
pub open spec fn wrap_angle(a: int) -> int {
    let m = a % (TWO_PI_FX as int);
    if m > PI_FX {
        m - TWO_PI_FX
    } else {
        m
    }
}

/// The angle turned this tick for a summed horizontal pointer motion:
/// pointer motion to the right turns in the negative direction.
pub open spec fn yaw_delta(sx: int) -> int {
    div_toward_zero(-sx * SENSITIVITY_FX, SCALE as int)
}

/// The yaw after one tick: the delta composed with the old angle, then
/// wrapped.
pub open spec fn yaw_step(yaw: int, sx: int) -> int {
    wrap_angle(yaw + yaw_delta(sx))
}

/// The stored pitch after one tick: the (sign-inverted, scaled) vertical
/// motion is composed with the old pitch, then clamped to a quarter
/// turn either way.
pub open spec fn pitch_step(pitch: int, sy: int) -> int {
    clamp_val(
        pitch + div_toward_zero(-sy * SENSITIVITY_FX, SCALE as int),
        -PITCH_LIMIT_FX as int,
        PITCH_LIMIT_FX as int,
    )
}

/// Wrapping always lands in the wrapped interval.
pub proof fn lemma_wrap_angle_range(a: int)
    ensures
        yaw_wf(wrap_angle(a)),
{
    lemma_mod_division_less_than_divisor(a, TWO_PI_FX as int);
}

/// An angle already in the wrapped interval is left unchanged by
/// wrapping.
pub proof fn lemma_wrap_angle_id(a: int)
    requires
        yaw_wf(a),
    ensures
        wrap_angle(a) == a,
{
    if a >= 0 {
        lemma_small_mod(a as nat, TWO_PI_FX as nat);
    } else {
        lemma_fundamental_div_mod_converse_mod(a, TWO_PI_FX as int, -1, a + TWO_PI_FX);
    }
}

/// Reduces an angle into the wrapped interval, exactly [`wrap_angle`].
fn wrap_angle_fx(a: i64) -> (r: i64)
    requires
        a > i64::MIN,
    ensures
        r == wrap_angle(a as int),
        yaw_wf(r as int),
{
    proof {
        lemma_wrap_angle_range(a as int);
        lemma_mod_division_less_than_divisor(a as int, TWO_PI_FX as int);
    }
    let m: i64 = if a >= 0 {
        ((a as u64) % (TWO_PI_FX as u64)) as i64
    } else {
        let mag: u64 = (-a) as u64;
        let r0: u64 = mag % (TWO_PI_FX as u64);
        proof {
            lemma_mod_division_less_than_divisor(mag as int, TWO_PI_FX as int);
            lemma_fundamental_div_mod(mag as int, TWO_PI_FX as int);
            if r0 == 0 {
                lemma_fundamental_div_mod_converse_mod(
                    a as int,
                    TWO_PI_FX as int,
                    -(mag as int / TWO_PI_FX as int),
                    0,
                );
            } else {
                lemma_fundamental_div_mod_converse_mod(
                    a as int,
                    TWO_PI_FX as int,
                    -(mag as int / TWO_PI_FX as int) - 1,
                    TWO_PI_FX - r0 as int,
                );
            }
        }
        if r0 == 0 {
            0
        } else {
            TWO_PI_FX - (r0 as i64)
        }
    };
    if m > PI_FX {
        m - TWO_PI_FX
    } else {
        m
    }
}

/// Applies one tick of pointer motion to the player body's yaw and the
/// camera's pitch.
///
/// A tick whose events sum to zero changes nothing at all. Any other
/// tick wraps the new yaw, clamps the new stored pitch, applies exactly
/// the clamped pitch difference to the pivot, and leaves the velocity
/// alone. Both well-formedness invariants are preserved, so the pitch
/// can never leave its quarter-turn range and the applied rotation can
/// never drift from the stored scalar.
pub fn look_update(body: &mut PlayerBody, cam: &mut CameraRig, deltas: &Vec<MotionDelta>)
    requires
        body_wf(*old(body)),
        camera_wf(*old(cam)),
        deltas@.len() <= MOTION_EVENTS_MAX,
        forall|k: int|
            0 <= k < deltas@.len() ==> abs_val(#[trigger] deltas@[k].x as int) <= MOTION_MAX_FX
                && abs_val(deltas@[k].y as int) <= MOTION_MAX_FX,
    ensures
        final(body).velocity == old(body).velocity,
        body_wf(*final(body)),
        camera_wf(*final(cam)),
        ({
            let sx = sum_dx(deltas@);
            let sy = sum_dy(deltas@);
            if sx == 0 && sy == 0 {
                final(body).yaw == old(body).yaw && *final(cam) == *old(cam)
            } else {
                final(body).yaw == yaw_step(old(body).yaw as int, sx) && final(cam).pitch
                    == pitch_step(old(cam).pitch as int, sy) && final(cam).applied_pitch
                    - old(cam).applied_pitch == final(cam).pitch - old(cam).pitch
            }
        }),
{
    let mut sx: i64 = 0;
    let mut sy: i64 = 0;
    let mut k: usize = 0;
    while k < deltas.len()
        invariant
            k <= deltas@.len(),
            deltas@.len() <= MOTION_EVENTS_MAX,
            forall|j: int|
                0 <= j < deltas@.len() ==> abs_val(#[trigger] deltas@[j].x as int) <= MOTION_MAX_FX
                    && abs_val(deltas@[j].y as int) <= MOTION_MAX_FX,
            sx == sum_dx(deltas@.take(k as int)),
            sy == sum_dy(deltas@.take(k as int)),
            abs_val(sx as int) <= k * MOTION_MAX_FX,
            abs_val(sy as int) <= k * MOTION_MAX_FX,
        decreases deltas@.len() - k,
    {
        let d = deltas[k];
        proof {
            assert(deltas@.take(k + 1).drop_last() =~= deltas@.take(k as int));
            assert(deltas@.take(k + 1).last() == deltas@[k as int]);
        }
        sx = sx + d.x;
        sy = sy + d.y;
        k = k + 1;
    }
    proof {
        assert(deltas@.take(deltas@.len() as int) =~= deltas@);
    }
    if sx == 0 && sy == 0 {
        return ;
    }
    let ydel: i64 = div_trunc64(-sx * SENSITIVITY_FX, SCALE);
    body.yaw = wrap_angle_fx(body.yaw + ydel);
    let pdel: i64 = div_trunc64(-sy * SENSITIVITY_FX, SCALE);
    let target: i64 = clamp64(cam.pitch + pdel, -PITCH_LIMIT_FX, PITCH_LIMIT_FX);
    let change: i64 = target - cam.pitch;
    cam.pitch = target;
    cam.applied_pitch = cam.applied_pitch + change;
}

} // verus!
