//! Data model: the fixed-point vector, the per-tick input snapshot, and
//! the persistent state of the player body and its camera pivot.

use vstd::prelude::*;
use crate::fixed::abs_val;

verus! {

/// One radian in fixed-point counts times pi, rounded to the nearest
/// count: the half-turn bound for the wrapped yaw angle.
pub const PI_FX: i64 = 3_141_593;

/// One full turn, kept as exactly twice [`PI_FX`] so that wrapping is
/// exact in the model.
pub const TWO_PI_FX: i64 = 6_283_186;

/// Upper bound of the camera pitch, a quarter of pi in fixed-point
/// counts (45 degrees); the lower bound is its negation.
pub const PITCH_LIMIT_FX: i64 = 785_398;

/// A three-component vector of fixed-point scalars. The axes follow the
/// usual right-handed convention: `x` lateral, `y` vertical (up), `z`
/// depth (forward is `-z` when yaw is zero).
#[derive(Clone, Copy, PartialEq, Eq, Structural, Debug)]
pub struct Vec3Fx {
    pub x: i64,
    pub y: i64,
    pub z: i64,
}

impl Vec3Fx {
    /// The zero vector.
    pub fn zero() -> (v: Vec3Fx)
        ensures
            v == (Vec3Fx { x: 0, y: 0, z: 0 }),
    {
        Vec3Fx { x: 0, y: 0, z: 0 }
    }
}

/// The held movement keys and the jump edge for one tick.
///
/// `jump_pressed` is edge-triggered: it is true only on the tick in
/// which the jump key went down, never while the key merely stays held.
#[derive(Clone, Copy, PartialEq, Eq, Structural, Debug)]
pub struct InputSnapshot {
    pub forward: bool,
    pub backward: bool,
    pub left: bool,
    pub right: bool,
    pub sprint: bool,
    pub jump_pressed: bool,
}

impl InputSnapshot {
    /// A snapshot with no key held and no jump edge.
    pub fn idle() -> (s: InputSnapshot)
        ensures
            s == (InputSnapshot {
                forward: false,
                backward: false,
                left: false,
                right: false,
                sprint: false,
                jump_pressed: false,
            }),
    {
        InputSnapshot {
            forward: false,
            backward: false,
            left: false,
            right: false,
            sprint: false,
            jump_pressed: false,
        }
    }
}

/// Net forward coefficient of the held keys: `1` for forward only,
/// `-1` for backward only, `0` when neither or both are held.
pub open spec fn forward_axis(s: InputSnapshot) -> int {
    (if s.forward {
        1int
    } else {
        0int
    }) - (if s.backward {
        1int
    } else {
        0int
    })
}

/// Net strafe coefficient of the held keys: `1` for right only, `-1`
/// for left only, `0` when neither or both are held.
pub open spec fn strafe_axis(s: InputSnapshot) -> int {
    (if s.right {
        1int
    } else {
        0int
    }) - (if s.left {
        1int
    } else {
        0int
    })
}

/// True when no movement key is held.
pub open spec fn no_movement_keys(s: InputSnapshot) -> bool {
    !s.forward && !s.backward && !s.left && !s.right
}

/// One raw pointer-motion event, in fixed-point pixels: positive `x`
/// is motion to the right, positive `y` is motion downward.
#[derive(Clone, Copy, PartialEq, Eq, Structural, Debug)]
pub struct MotionDelta {
    pub x: i64,
    pub y: i64,
}

/// The player body: a yaw-only orientation and the linear velocity that
/// the physics engine integrates. The body never carries roll or pitch,
/// so a single wrapped angle is its whole rotation.
#[derive(Clone, Copy, PartialEq, Eq, Structural, Debug)]
pub struct PlayerBody {
    /// Rotation about the world vertical axis, in fixed-point radians,
    /// wrapped into `(-PI_FX, PI_FX]`.
    pub yaw: i64,
    /// Linear velocity in fixed-point units per second.
    pub velocity: Vec3Fx,
}

/// A yaw angle lies in the wrapped half-open interval `(-PI_FX, PI_FX]`.
pub open spec fn yaw_wf(yaw: int) -> bool {
    -PI_FX < yaw <= PI_FX
}

/// Well-formedness of the player body: its yaw is a wrapped angle.
pub open spec fn body_wf(b: PlayerBody) -> bool {
    yaw_wf(b.yaw as int)
}

impl PlayerBody {
    /// The body as created at startup: facing `-z`, at rest.
    pub fn spawn_at_rest() -> (b: PlayerBody)
        ensures
            b.yaw == 0,
            b.velocity == (Vec3Fx { x: 0, y: 0, z: 0 }),
            body_wf(b),
    {
        PlayerBody { yaw: 0, velocity: Vec3Fx::zero() }
    }
}

/// The camera pivot: the persisted pitch scalar and the pitch rotation
/// actually applied to the pivot's transform. The two are kept by
/// different writers in a host engine, so their agreement is the
/// camera's central invariant rather than a triviality.
#[derive(Clone, Copy, PartialEq, Eq, Structural, Debug)]
pub struct CameraRig {
    /// The stored pitch scalar, in fixed-point radians.
    pub pitch: i64,
    /// The cumulative rotation applied to the pivot about its local
    /// lateral axis, in fixed-point radians.
    pub applied_pitch: i64,
}

/// Well-formedness of the camera: the stored pitch stays within a
/// quarter turn of level, and the applied rotation agrees with it
/// exactly.
pub open spec fn camera_wf(c: CameraRig) -> bool {
    &&& abs_val(c.pitch as int) <= PITCH_LIMIT_FX
    &&& c.applied_pitch == c.pitch
}

impl CameraRig {
    /// The camera as created at startup: level, with no rotation
    /// applied yet.
    pub fn spawn_level() -> (c: CameraRig)
        ensures
            c.pitch == 0,
            c.applied_pitch == 0,
            camera_wf(c),
    {
        CameraRig { pitch: 0, applied_pitch: 0 }
    }
}

} // verus!
