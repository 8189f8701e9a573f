//! Verified core of a first-person character controller.
//!
//! The controller turns per-tick input snapshots (held movement keys, a
//! just-pressed jump flag, accumulated pointer motion) into a rigid body's
//! new linear velocity and into yaw/pitch rotations for the body and its
//! camera pivot. All quantities are held in fixed-point arithmetic: an
//! `i64` counts micro-units, with [`fixed::SCALE`] counts to one world
//! unit (one metre, one radian). Rendering, windowing and the physics
//! integration itself are external collaborators; they exchange plain
//! values with this crate at its boundary.
//!
//! Within one simulation tick the host must run the look controller
//! before the movement controller: the movement direction is computed
//! in the camera's frame, and running look second would lag turning
//! input by a tick.
pub mod fixed;
pub mod laws;
pub mod look;
pub mod movement;
pub mod state;
pub mod stats;
