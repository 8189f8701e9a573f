//! The movement controller.
//!
//! Each tick it reads the input snapshot and the camera's forward and
//! right basis vectors, accumulates a horizontal direction in the
//! camera's frame, applies the sprint gate, and produces the velocity to
//! hand back to the physics engine: horizontal components overwritten,
//! the vertical one preserved except on a grounded jump edge.

use vstd::prelude::*;
use crate::fixed::{
    abs_val, div_toward_zero, sqrt_floor, isqrt64, div_trunc64, abs64, SCALE,
};
use crate::state::{
    Vec3Fx, InputSnapshot, PlayerBody, forward_axis, strafe_axis,
};
use vstd::arithmetic::mul::lemma_mul_upper_bound;
use vstd::arithmetic::mul::lemma_mul_inequality;
use vstd::arithmetic::div_mod::lemma_div_is_ordered;
use vstd::arithmetic::div_mod::lemma_div_multiples_vanish;
use vstd::arithmetic::div_mod::lemma_div_pos_is_pos;

verus! {

/// Base horizontal speed, in whole world units per second.
pub const BASE_SPEED_WHOLE: i64 = 10;

/// Vertical launch speed of a jump, in fixed-point counts.
pub const JUMP_SPEED_FX: i64 = 10_000_000;

/// Vertical speeds strictly below this magnitude count as "on the
/// ground", a heuristic stand-in for contact detection.
pub const GROUND_EPS_FX: i64 = 100;

/// Largest admissible magnitude of a camera basis component.
pub const BASIS_MAX_FX: i64 = 1_000_000_000;

/// The grounded heuristic: vertical speed is negligibly small.
pub open spec fn grounded(vy: int) -> bool {
    abs_val(vy) < GROUND_EPS_FX
}

/// A planar vector scaled to unit length in fixed point, rounding each
/// component toward zero; the zero vector stays the zero vector.
pub open spec fn norm2(x: int, z: int) -> (int, int) {
    let l = sqrt_floor(x * x + z * z);
    if l == 0 {
        (0int, 0int)
    } else {
        (div_toward_zero(x * SCALE, l), div_toward_zero(z * SCALE, l))
    }
}

/// The camera basis vector projected onto the horizontal plane and
/// normalized: its vertical component is discarded outright.
pub open spec fn unit_h(v: Vec3Fx) -> (int, int) {
    norm2(v.x as int, v.z as int)
}

/// The unnormalized key direction: held keys add or subtract the
/// horizontal unit basis vectors componentwise. Diagonals therefore sum
/// two unit vectors, and opposing keys cancel.
pub open spec fn raw_direction(s: InputSnapshot, fwd: Vec3Fx, right: Vec3Fx) -> (int, int) {
    let f = unit_h(fwd);
    let r = unit_h(right);
    (
        forward_axis(s) * f.0 + strafe_axis(s) * r.0,
        forward_axis(s) * f.1 + strafe_axis(s) * r.1,
    )
}

/// The sprint gate: sprint held, forward held, and grounded, all at
/// once.
pub open spec fn sprint_applies(s: InputSnapshot, vy: int) -> bool {
    s.sprint && s.forward && grounded(vy)
}

/// The key direction after the sprint gate: zero stays zero; a
/// sprinting direction is scaled by three halves without being
/// normalized first (so a sprinting diagonal is faster than a sprinting
/// axis run, a deliberate quirk); any other direction is normalized to
/// unit length.
pub open spec fn scaled_direction(s: InputSnapshot, fwd: Vec3Fx, right: Vec3Fx, vy: int) -> (
    int,
    int,
) {
    let d = raw_direction(s, fwd, right);
    if d.0 == 0 && d.1 == 0 {
        d
    } else if sprint_applies(s, vy) {
        (div_toward_zero(3 * d.0, 2), div_toward_zero(3 * d.1, 2))
    } else {
        norm2(d.0, d.1)
    }
}

/// The velocity the controller writes back: the scaled direction times
/// the base speed horizontally, and vertically the old speed — replaced
/// by the launch speed exactly when the jump edge fires while grounded.
pub open spec fn next_velocity(s: InputSnapshot, fwd: Vec3Fx, right: Vec3Fx, cur: Vec3Fx) -> Vec3Fx {
    let d = scaled_direction(s, fwd, right, cur.y as int);
    let vy = if s.jump_pressed && grounded(cur.y as int) {
        JUMP_SPEED_FX as int
    } else {
        cur.y as int
    };
    Vec3Fx {
        x: (d.0 * BASE_SPEED_WHOLE) as i64,
        y: vy as i64,
        z: (d.1 * BASE_SPEED_WHOLE) as i64,
    }
}

/// Whether a vertical speed counts as grounded, exactly [`grounded`].
pub fn is_grounded(vy: i64) -> (r: bool)
    ensures
        r == grounded(vy as int),
{
    -GROUND_EPS_FX < vy && vy < GROUND_EPS_FX
}

/// Normalizes a planar vector to fixed-point unit length, exactly
/// [`norm2`]; each resulting component is at most one unit in
/// magnitude.
pub fn normalize2(x: i64, z: i64) -> (u: (i64, i64))
    requires
        abs_val(x as int) <= BASIS_MAX_FX,
        abs_val(z as int) <= BASIS_MAX_FX,
    ensures
        u.0 == norm2(x as int, z as int).0,
        u.1 == norm2(x as int, z as int).1,
        abs_val(u.0 as int) <= SCALE,
        abs_val(u.1 as int) <= SCALE,
{
    let ax = abs64(x);
    let az = abs64(z);
    proof {
        lemma_mul_upper_bound(ax as int, BASIS_MAX_FX as int, ax as int, BASIS_MAX_FX as int);
        lemma_mul_upper_bound(az as int, BASIS_MAX_FX as int, az as int, BASIS_MAX_FX as int);
        assert((ax as int) * (ax as int) == (x as int) * (x as int)) by (nonlinear_arith)
            requires
                ax as int == abs_val(x as int),
        ;
        assert((az as int) * (az as int) == (z as int) * (z as int)) by (nonlinear_arith)
            requires
                az as int == abs_val(z as int),
        ;
        assert((ax as int) * (ax as int) >= 0) by (nonlinear_arith);
        assert((az as int) * (az as int) >= 0) by (nonlinear_arith);
    }
    let sq: u64 = (ax as u64) * (ax as u64) + (az as u64) * (az as u64);
    let l: u64 = isqrt64(sq);
    if l == 0 {
        (0, 0)
    } else {
        proof {
            let n = (x as int) * (x as int) + (z as int) * (z as int);
            assert(l == sqrt_floor(n));
            lemma_component_within_length(x as int, z as int, l as int);
            lemma_component_within_length(z as int, x as int, l as int);
            lemma_scaled_quotient_bounded(x as int, l as int);
            lemma_scaled_quotient_bounded(z as int, l as int);
        }
        let qx = div_trunc64(x * SCALE, l as i64);
        let qz = div_trunc64(z * SCALE, l as i64);
        (qx, qz)
    }
}

/// A component of a planar vector is no longer than the rounded-down
/// length of the vector.
proof fn lemma_component_within_length(x: int, z: int, l: int)
    requires
        l >= 0,
        l == sqrt_floor(x * x + z * z),
    ensures
        abs_val(x) <= l,
{
    assert(x * x >= 0 && z * z >= 0) by (nonlinear_arith);
    crate::fixed::lemma_sqrt_floor_bounds(x * x + z * z);
    assert(abs_val(x) <= l) by (nonlinear_arith)
        requires
            l >= 0,
            x * x + z * z < (l + 1) * (l + 1),
    ;
}

/// Scaling a component by one fixed-point unit and dividing by the
/// vector's length keeps it within one unit, and the product itself
/// stays far from overflow.
proof fn lemma_scaled_quotient_bounded(x: int, l: int)
    requires
        l >= 1,
        abs_val(x) <= l,
        l <= 2_000_000_000,
    ensures
        abs_val(x * SCALE) <= 2_000_000_000_000_000,
        abs_val(div_toward_zero(x * SCALE, l)) <= SCALE,
{
    let a = abs_val(x);
    assert(a * SCALE == abs_val(x * SCALE)) by (nonlinear_arith)
        requires
            a == abs_val(x),
    ;
    lemma_mul_inequality(a, l, SCALE as int);
    lemma_mul_upper_bound(a, 2_000_000_000, SCALE as int, SCALE as int);
    lemma_div_is_ordered(a * SCALE, l * SCALE, l);
    lemma_div_multiples_vanish(SCALE as int, l);
    assert(l * SCALE == SCALE * l) by (nonlinear_arith);
    lemma_div_pos_is_pos(a * SCALE, l);
    if x >= 0 {
        assert(div_toward_zero(x * SCALE, l) == a * SCALE / l);
    } else {
        assert(-(x * SCALE) == a * SCALE) by (nonlinear_arith)
            requires
                a == -x,
        ;
        assert(div_toward_zero(x * SCALE, l) == -(a * SCALE / l));
    }
}

/// A coefficient in `{-1, 0, 1}` cannot grow a bounded factor.
proof fn lemma_small_coeff_product(c: int, v: int, bound: int)
    requires
        -1 <= c <= 1,
        abs_val(v) <= bound,
        0 <= bound,
    ensures
        abs_val(c * v) <= bound,
{
    assert(abs_val(c * v) <= bound) by (nonlinear_arith)
        requires
            -1 <= c <= 1,
            abs_val(v) <= bound,
            0 <= bound,
    ;
}

/// Computes the velocity to write back this tick, exactly
/// [`next_velocity`].
#[verifier::rlimit(50)]
pub fn movement_velocity(s: InputSnapshot, cam_forward: Vec3Fx, cam_right: Vec3Fx, current: Vec3Fx)
    -> (v: Vec3Fx)
    requires
        abs_val(cam_forward.x as int) <= BASIS_MAX_FX,
        abs_val(cam_forward.z as int) <= BASIS_MAX_FX,
        abs_val(cam_right.x as int) <= BASIS_MAX_FX,
        abs_val(cam_right.z as int) <= BASIS_MAX_FX,
    ensures
        v == next_velocity(s, cam_forward, cam_right, current),
{
    let f = normalize2(cam_forward.x, cam_forward.z);
    let r = normalize2(cam_right.x, cam_right.z);
    let can_jump = is_grounded(current.y);
    let fa: i64 = (if s.forward {
        1
    } else {
        0
    }) - (if s.backward {
        1
    } else {
        0
    });
    let sa: i64 = (if s.right {
        1
    } else {
        0
    }) - (if s.left {
        1
    } else {
        0
    });
    proof {
        lemma_small_coeff_product(fa as int, f.0 as int, SCALE as int);
        lemma_small_coeff_product(sa as int, r.0 as int, SCALE as int);
        lemma_small_coeff_product(fa as int, f.1 as int, SCALE as int);
        lemma_small_coeff_product(sa as int, r.1 as int, SCALE as int);
    }
    let mut dx: i64 = fa * f.0 + sa * r.0;
    let mut dz: i64 = fa * f.1 + sa * r.1;
    proof {
        assert(dx == raw_direction(s, cam_forward, cam_right).0);
        assert(dz == raw_direction(s, cam_forward, cam_right).1);
    }
    let ghost d = scaled_direction(s, cam_forward, cam_right, current.y as int);
    if dx != 0 || dz != 0 {
        if s.sprint && s.forward && can_jump {
            dx = div_trunc64(3 * dx, 2);
            dz = div_trunc64(3 * dz, 2);
            proof {
                assert(dx == d.0 && dz == d.1);
            }
        } else {
            let u = normalize2(dx, dz);
            dx = u.0;
            dz = u.1;
            proof {
                assert(dx == d.0 && dz == d.1);
            }
        }
    } else {
        proof {
            assert(dx == d.0 && dz == d.1);
        }
    }
    let vy: i64 = if s.jump_pressed && can_jump {
        JUMP_SPEED_FX
    } else {
        current.y
    };
    Vec3Fx { x: dx * BASE_SPEED_WHOLE, y: vy, z: dz * BASE_SPEED_WHOLE }
}

/// Writes this tick's velocity into the player body: the yaw is left
/// alone, and the new velocity is exactly [`next_velocity`] of the old
/// one.
pub fn movement_update(
    body: &mut PlayerBody,
    s: InputSnapshot,
    cam_forward: Vec3Fx,
    cam_right: Vec3Fx,
)
    requires
        abs_val(cam_forward.x as int) <= BASIS_MAX_FX,
        abs_val(cam_forward.z as int) <= BASIS_MAX_FX,
        abs_val(cam_right.x as int) <= BASIS_MAX_FX,
        abs_val(cam_right.z as int) <= BASIS_MAX_FX,
    ensures
        final(body).yaw == old(body).yaw,
        final(body).velocity == next_velocity(s, cam_forward, cam_right, old(body).velocity),
{
    let v = movement_velocity(s, cam_forward, cam_right, body.velocity);
    body.velocity = v;
}

} // verus!
