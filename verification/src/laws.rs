//! Global laws of the controller, stated and proved over the same spec
//! functions that the executable contracts use.

use vstd::prelude::*;
use crate::fixed::abs_val;
use crate::state::{
    Vec3Fx, InputSnapshot, MotionDelta, forward_axis, strafe_axis, no_movement_keys,
    PITCH_LIMIT_FX,
};
use crate::movement::{
    grounded, unit_h, raw_direction, sprint_applies, scaled_direction, next_velocity, norm2,
    JUMP_SPEED_FX,
};
use crate::look::{sum_dx, sum_dy, pitch_step};

verus! {

/// With no movement key held, no jump edge and no pointer motion, the
/// tick is inert: the new velocity has zero horizontal components and
/// an untouched vertical one, and the motion sums are zero, so the look
/// controller leaves every orientation as it was.
pub proof fn lemma_idle_tick_is_still(
    s: InputSnapshot,
    fwd: Vec3Fx,
    right: Vec3Fx,
    cur: Vec3Fx,
    ds: Seq<MotionDelta>,
)
    requires
        no_movement_keys(s),
        !s.jump_pressed,
        ds.len() == 0,
    ensures
        next_velocity(s, fwd, right, cur).x == 0,
        next_velocity(s, fwd, right, cur).z == 0,
        next_velocity(s, fwd, right, cur).y == cur.y,
        sum_dx(ds) == 0,
        sum_dy(ds) == 0,
{
    let f = unit_h(fwd);
    let r = unit_h(right);
    assert(forward_axis(s) == 0 && strafe_axis(s) == 0);
    assert(forward_axis(s) * f.0 == 0 && strafe_axis(s) * r.0 == 0 && forward_axis(s) * f.1 == 0
        && strafe_axis(s) * r.1 == 0) by (nonlinear_arith)
        requires
            forward_axis(s) == 0 && strafe_axis(s) == 0,
    ;
}

/// Opposing keys cancel along their axis: forward with backward leaves
/// only the strafe contribution, left with right leaves only the
/// forward contribution, and both pairs together leave no direction at
/// all.
pub proof fn lemma_opposing_keys_cancel(s: InputSnapshot, fwd: Vec3Fx, right: Vec3Fx)
    ensures
        s.forward == s.backward ==> forward_axis(s) == 0 && raw_direction(s, fwd, right)
            == (strafe_axis(s) * unit_h(right).0, strafe_axis(s) * unit_h(right).1),
        s.left == s.right ==> strafe_axis(s) == 0 && raw_direction(s, fwd, right) == (
            forward_axis(s) * unit_h(fwd).0,
            forward_axis(s) * unit_h(fwd).1,
        ),
{
    let f = unit_h(fwd);
    let r = unit_h(right);
    if s.forward == s.backward {
        assert(forward_axis(s) * f.0 == 0 && forward_axis(s) * f.1 == 0) by (nonlinear_arith)
            requires
                forward_axis(s) == 0,
        ;
    }
    if s.left == s.right {
        assert(strafe_axis(s) * r.0 == 0 && strafe_axis(s) * r.1 == 0) by (nonlinear_arith)
            requires
                strafe_axis(s) == 0,
        ;
    }
}

/// The stored pitch after a whole sequence of look ticks, folding
/// [`pitch_step`] over the summed vertical motion of each tick.
pub open spec fn pitch_after(p: int, ticks: Seq<int>) -> int
    decreases ticks.len(),
{
    if ticks.len() == 0 {
        p
    } else {
        pitch_step(pitch_after(p, ticks.drop_last()), ticks.last())
    }
}

/// One look tick always lands the stored pitch inside the quarter-turn
/// range, whatever pitch it started from and however large the motion.
pub proof fn lemma_pitch_step_clamped(p: int, sy: int)
    ensures
        abs_val(pitch_step(p, sy)) <= PITCH_LIMIT_FX,
{
}

/// After any sequence of look ticks from a well-formed pitch, the
/// stored pitch is still within the quarter-turn range: unbounded raw
/// input cannot push it past the clamp.
pub proof fn lemma_pitch_always_clamped(p: int, ticks: Seq<int>)
    requires
        abs_val(p) <= PITCH_LIMIT_FX,
    ensures
        abs_val(pitch_after(p, ticks)) <= PITCH_LIMIT_FX,
    decreases ticks.len(),
{
    if ticks.len() > 0 {
        lemma_pitch_always_clamped(p, ticks.drop_last());
        lemma_pitch_step_clamped(pitch_after(p, ticks.drop_last()), ticks.last());
    }
}

/// A body that has just been launched is no longer grounded, so a jump
/// edge on the very next tick cannot launch it again: the vertical
/// velocity passes through unchanged.
pub proof fn lemma_jump_not_repeated(s: InputSnapshot, fwd: Vec3Fx, right: Vec3Fx, v: Vec3Fx)
    requires
        v.y == JUMP_SPEED_FX,
    ensures
        !grounded(v.y as int),
        next_velocity(s, fwd, right, v).y == v.y,
{
}

/// The sprint multiplier needs all three of its conditions at once;
/// lacking any one of them, a non-zero direction is normalized to unit
/// length instead — in particular a pure strafe with sprint held is
/// never scaled.
pub proof fn lemma_sprint_gate(s: InputSnapshot, fwd: Vec3Fx, right: Vec3Fx, vy: int)
    ensures
        !s.forward ==> !sprint_applies(s, vy),
        !s.sprint ==> !sprint_applies(s, vy),
        !grounded(vy) ==> !sprint_applies(s, vy),
        ({
            let d = raw_direction(s, fwd, right);
            !sprint_applies(s, vy) && !(d.0 == 0 && d.1 == 0) ==> scaled_direction(
                s,
                fwd,
                right,
                vy,
            ) == norm2(d.0, d.1)
        }),
{
}

} // verus!
