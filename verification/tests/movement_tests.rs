use first_person::movement::{movement_velocity, movement_update, is_grounded};
use first_person::state::{InputSnapshot, PlayerBody, Vec3Fx};

fn idle() -> InputSnapshot {
    InputSnapshot {
        forward: false,
        backward: false,
        left: false,
        right: false,
        sprint: false,
        jump_pressed: false,
    }
}

fn facing_neg_z_forward() -> Vec3Fx {
    Vec3Fx { x: 0, y: 0, z: -1_000_000 }
}

fn facing_neg_z_right() -> Vec3Fx {
    Vec3Fx { x: 1_000_000, y: 0, z: 0 }
}

#[test]
fn idle_input_zeroes_horizontal_velocity() {
    let cur = Vec3Fx { x: 5_000_000, y: 42, z: 3_000_000 };
    let v = movement_velocity(idle(), facing_neg_z_forward(), facing_neg_z_right(), cur);
    assert_eq!(v, Vec3Fx { x: 0, y: 42, z: 0 });
}

#[test]
fn opposing_forward_backward_cancel() {
    let mut s = idle();
    s.forward = true;
    s.backward = true;
    s.right = true;
    let cur = Vec3Fx { x: 0, y: 7, z: 0 };
    let v = movement_velocity(s, facing_neg_z_forward(), facing_neg_z_right(), cur);
    assert_eq!(v, Vec3Fx { x: 10_000_000, y: 7, z: 0 });
}

#[test]
fn opposing_left_right_cancel() {
    let mut s = idle();
    s.left = true;
    s.right = true;
    s.forward = true;
    let cur = Vec3Fx { x: 0, y: -3, z: 0 };
    let v = movement_velocity(s, facing_neg_z_forward(), facing_neg_z_right(), cur);
    assert_eq!(v, Vec3Fx { x: 0, y: -3, z: -10_000_000 });
}

#[test]
fn all_opposing_keys_leave_zero_direction() {
    let mut s = idle();
    s.forward = true;
    s.backward = true;
    s.left = true;
    s.right = true;
    let cur = Vec3Fx { x: 1, y: 2, z: 3 };
    let v = movement_velocity(s, facing_neg_z_forward(), facing_neg_z_right(), cur);
    assert_eq!(v, Vec3Fx { x: 0, y: 2, z: 0 });
}

#[test]
fn forward_facing_neg_z_runs_at_base_speed() {
    let mut s = idle();
    s.forward = true;
    let cur = Vec3Fx { x: 0, y: 1_234_567, z: 0 };
    let v = movement_velocity(s, facing_neg_z_forward(), facing_neg_z_right(), cur);
    assert_eq!(v, Vec3Fx { x: 0, y: 1_234_567, z: -10_000_000 });
}

#[test]
fn diagonal_is_normalized_to_unit_speed() {
    let mut s = idle();
    s.forward = true;
    s.right = true;
    let cur = Vec3Fx { x: 0, y: 555, z: 0 };
    let v = movement_velocity(s, facing_neg_z_forward(), facing_neg_z_right(), cur);
    assert_eq!(v, Vec3Fx { x: 7_071_070, y: 555, z: -7_071_070 });
}

#[test]
fn sprint_scales_by_three_halves() {
    let mut s = idle();
    s.forward = true;
    s.sprint = true;
    let cur = Vec3Fx { x: 0, y: 0, z: 0 };
    let v = movement_velocity(s, facing_neg_z_forward(), facing_neg_z_right(), cur);
    assert_eq!(v, Vec3Fx { x: 0, y: 0, z: -15_000_000 });
}

#[test]
fn sprint_diagonal_is_faster_than_axis_sprint() {
    let mut s = idle();
    s.forward = true;
    s.right = true;
    s.sprint = true;
    let cur = Vec3Fx { x: 0, y: 0, z: 0 };
    let v = movement_velocity(s, facing_neg_z_forward(), facing_neg_z_right(), cur);
    assert_eq!(v, Vec3Fx { x: 15_000_000, y: 0, z: -15_000_000 });
}

#[test]
fn sprint_denied_on_pure_strafe() {
    let mut s = idle();
    s.right = true;
    s.sprint = true;
    let cur = Vec3Fx { x: 0, y: 0, z: 0 };
    let v = movement_velocity(s, facing_neg_z_forward(), facing_neg_z_right(), cur);
    assert_eq!(v, Vec3Fx { x: 10_000_000, y: 0, z: 0 });
}

#[test]
fn sprint_denied_while_airborne() {
    let mut s = idle();
    s.forward = true;
    s.sprint = true;
    let cur = Vec3Fx { x: 0, y: 5_000, z: 0 };
    let v = movement_velocity(s, facing_neg_z_forward(), facing_neg_z_right(), cur);
    assert_eq!(v, Vec3Fx { x: 0, y: 5_000, z: -10_000_000 });
}

#[test]
fn jump_launches_when_grounded() {
    let mut s = idle();
    s.jump_pressed = true;
    let cur = Vec3Fx { x: 0, y: 0, z: 0 };
    let v = movement_velocity(s, facing_neg_z_forward(), facing_neg_z_right(), cur);
    assert_eq!(v.y, 10_000_000);
}

#[test]
fn jump_denied_while_airborne() {
    let mut s = idle();
    s.jump_pressed = true;
    let cur = Vec3Fx { x: 0, y: 200, z: 0 };
    let v = movement_velocity(s, facing_neg_z_forward(), facing_neg_z_right(), cur);
    assert_eq!(v.y, 200);
}

#[test]
fn jump_edge_does_not_relaunch_next_tick() {
    let mut s = idle();
    s.jump_pressed = true;
    let first = movement_velocity(s, facing_neg_z_forward(), facing_neg_z_right(), Vec3Fx {
        x: 0,
        y: 0,
        z: 0,
    });
    assert_eq!(first.y, 10_000_000);
    let second = movement_velocity(s, facing_neg_z_forward(), facing_neg_z_right(), first);
    assert_eq!(second.y, 10_000_000);
}

#[test]
fn grounded_epsilon_boundary() {
    assert!(is_grounded(0));
    assert!(is_grounded(99));
    assert!(is_grounded(-99));
    assert!(!is_grounded(100));
    assert!(!is_grounded(-100));
}

#[test]
fn zero_basis_means_no_movement() {
    let mut s = idle();
    s.forward = true;
    let zero = Vec3Fx { x: 0, y: 0, z: 0 };
    let cur = Vec3Fx { x: 9, y: 8, z: 7 };
    let v = movement_velocity(s, zero, zero, cur);
    assert_eq!(v, Vec3Fx { x: 0, y: 8, z: 0 });
}

#[test]
fn long_basis_is_normalized_first() {
    let mut s = idle();
    s.forward = true;
    let fwd = Vec3Fx { x: 0, y: 0, z: -5_000_000 };
    let right = Vec3Fx { x: 5_000_000, y: 0, z: 0 };
    let cur = Vec3Fx { x: 0, y: 0, z: 0 };
    let v = movement_velocity(s, fwd, right, cur);
    assert_eq!(v, Vec3Fx { x: 0, y: 0, z: -10_000_000 });
}

#[test]
fn pitched_basis_is_projected_to_horizontal() {
    let mut s = idle();
    s.forward = true;
    // Camera looking 45 degrees down while facing -z: the vertical
    // component of its forward vector must not slow the run.
    let fwd = Vec3Fx { x: 0, y: -707_107, z: -707_107 };
    let right = Vec3Fx { x: 1_000_000, y: 0, z: 0 };
    let cur = Vec3Fx { x: 0, y: 0, z: 0 };
    let v = movement_velocity(s, fwd, right, cur);
    assert_eq!(v, Vec3Fx { x: 0, y: 0, z: -10_000_000 });
}

#[test]
fn movement_update_writes_velocity_and_keeps_yaw() {
    let mut body = PlayerBody { yaw: 123_456, velocity: Vec3Fx { x: 1, y: 2, z: 3 } };
    let mut s = idle();
    s.forward = true;
    movement_update(&mut body, s, facing_neg_z_forward(), facing_neg_z_right());
    assert_eq!(body.yaw, 123_456);
    assert_eq!(body.velocity, Vec3Fx { x: 0, y: 2, z: -10_000_000 });
}
