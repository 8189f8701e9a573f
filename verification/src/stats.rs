//! Verifiable pieces of the on-screen diagnostics readout: the
//! flicker filter that snaps negligible velocity components to zero
//! before display, and the visibility toggle driven by the diagnostics
//! hotkey. Text layout and font handling live with the host.

use vstd::prelude::*;
use crate::fixed::abs_val;
use crate::state::Vec3Fx;

verus! {

/// Velocity components below this magnitude are shown as zero, so the
/// readout does not flicker between tiny positive and negative values.
pub const DISPLAY_EPS_FX: i64 = 100;

/// A component as displayed: zero when negligible, itself otherwise.
pub open spec fn snapped(v: int) -> int {
    if abs_val(v) < DISPLAY_EPS_FX {
        0
    } else {
        v
    }
}

/// Snaps one velocity component for display, exactly [`snapped`].
pub fn display_component(v: i64) -> (r: i64)
    ensures
        r == snapped(v as int),
{
    if -DISPLAY_EPS_FX < v && v < DISPLAY_EPS_FX {
        0
    } else {
        v
    }
}

/// Snaps each component of a velocity for display.
pub fn display_velocity(v: Vec3Fx) -> (r: Vec3Fx)
    ensures
        r.x == snapped(v.x as int),
        r.y == snapped(v.y as int),
        r.z == snapped(v.z as int),
{
    Vec3Fx {
        x: display_component(v.x),
        y: display_component(v.y),
        z: display_component(v.z),
    }
}

/// Visibility of the diagnostics readout, mirroring the three-valued
/// visibility a scene graph keeps for a node.
#[derive(Clone, Copy, PartialEq, Eq, Structural, Debug)]
pub enum ReadoutVisibility {
    Visible,
    Hidden,
    Inherited,
}

/// The visibility after the diagnostics hotkey fires: visible becomes
/// hidden, and anything else becomes visible only from the explicit
/// hidden state.
pub open spec fn toggled(v: ReadoutVisibility) -> ReadoutVisibility {
    match v {
        ReadoutVisibility::Visible => ReadoutVisibility::Hidden,
        ReadoutVisibility::Hidden => ReadoutVisibility::Visible,
        ReadoutVisibility::Inherited => ReadoutVisibility::Hidden,
    }
}

/// Toggles the readout's visibility, exactly [`toggled`].
pub fn toggle_readout(v: ReadoutVisibility) -> (r: ReadoutVisibility)
    ensures
        r == toggled(v),
{
    match v {
        ReadoutVisibility::Visible => ReadoutVisibility::Hidden,
        ReadoutVisibility::Hidden => ReadoutVisibility::Visible,
        ReadoutVisibility::Inherited => ReadoutVisibility::Hidden,
    }
}

} // verus!
