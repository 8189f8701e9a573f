use first_person::look::look_update;
use first_person::state::{CameraRig, MotionDelta, PlayerBody, Vec3Fx};

fn resting_body() -> PlayerBody {
    PlayerBody { yaw: 0, velocity: Vec3Fx { x: 0, y: 0, z: 0 } }
}

fn level_camera() -> CameraRig {
    CameraRig { pitch: 0, applied_pitch: 0 }
}

#[test]
fn pointer_right_turns_yaw_negative() {
    // 100 pixels to the right at 0.005 rad/px: half a radian, negative.
    let mut body = resting_body();
    let mut cam = level_camera();
    let deltas = vec![MotionDelta { x: 100_000_000, y: 0 }];
    look_update(&mut body, &mut cam, &deltas);
    assert_eq!(body.yaw, -500_000);
    assert_eq!(cam.pitch, 0);
    assert_eq!(cam.applied_pitch, 0);
}

#[test]
fn events_are_summed_before_use() {
    let mut body = resting_body();
    let mut cam = level_camera();
    let deltas = vec![
        MotionDelta { x: 40_000_000, y: 10_000_000 },
        MotionDelta { x: 60_000_000, y: -10_000_000 },
    ];
    look_update(&mut body, &mut cam, &deltas);
    assert_eq!(body.yaw, -500_000);
    assert_eq!(cam.pitch, 0);
}

#[test]
fn zero_sum_motion_changes_nothing() {
    let mut body = PlayerBody { yaw: 77, velocity: Vec3Fx { x: 1, y: 2, z: 3 } };
    let mut cam = CameraRig { pitch: 44, applied_pitch: 44 };
    let deltas = vec![
        MotionDelta { x: 50_000_000, y: -20_000_000 },
        MotionDelta { x: -50_000_000, y: 20_000_000 },
    ];
    look_update(&mut body, &mut cam, &deltas);
    assert_eq!(body.yaw, 77);
    assert_eq!(cam.pitch, 44);
    assert_eq!(cam.applied_pitch, 44);
}

#[test]
fn no_events_changes_nothing() {
    let mut body = PlayerBody { yaw: -9, velocity: Vec3Fx { x: 4, y: 5, z: 6 } };
    let mut cam = CameraRig { pitch: -8, applied_pitch: -8 };
    let deltas: Vec<MotionDelta> = vec![];
    look_update(&mut body, &mut cam, &deltas);
    assert_eq!(body.yaw, -9);
    assert_eq!(cam.pitch, -8);
    assert_eq!(cam.applied_pitch, -8);
}

#[test]
fn look_preserves_velocity() {
    let mut body = PlayerBody { yaw: 0, velocity: Vec3Fx { x: 11, y: 22, z: 33 } };
    let mut cam = level_camera();
    let deltas = vec![MotionDelta { x: 1_000_000, y: 2_000_000 }];
    look_update(&mut body, &mut cam, &deltas);
    assert_eq!(body.velocity, Vec3Fx { x: 11, y: 22, z: 33 });
}

#[test]
fn pointer_down_pitches_down_and_clamps_exactly() {
    // Ten thousand ticks of large downward motion: the pitch must sit
    // exactly on the lower clamp, not beyond it, and the applied
    // rotation must agree exactly.
    let mut body = resting_body();
    let mut cam = level_camera();
    for _ in 0..10_000 {
        let deltas = vec![MotionDelta { x: 0, y: 100_000_000 }];
        look_update(&mut body, &mut cam, &deltas);
        assert_eq!(cam.applied_pitch, cam.pitch);
    }
    assert_eq!(cam.pitch, -785_398);
    assert_eq!(cam.applied_pitch, -785_398);
}

#[test]
fn pointer_up_pitches_up_and_clamps_exactly() {
    let mut body = resting_body();
    let mut cam = level_camera();
    for _ in 0..100 {
        let deltas = vec![MotionDelta { x: 0, y: -100_000_000 }];
        look_update(&mut body, &mut cam, &deltas);
    }
    assert_eq!(cam.pitch, 785_398);
    assert_eq!(cam.applied_pitch, 785_398);
}

#[test]
fn one_huge_event_clamps_in_a_single_tick() {
    let mut body = resting_body();
    let mut cam = level_camera();
    let deltas = vec![MotionDelta { x: 0, y: 1_000_000_000_000 }];
    look_update(&mut body, &mut cam, &deltas);
    assert_eq!(cam.pitch, -785_398);
    assert_eq!(cam.applied_pitch, -785_398);
}

#[test]
fn boundary_landing_then_push_adds_no_phantom_rotation() {
    // This vertical motion maps to exactly the quarter-turn limit.
    let mut body = resting_body();
    let mut cam = level_camera();
    let deltas = vec![MotionDelta { x: 0, y: 157_079_600 }];
    look_update(&mut body, &mut cam, &deltas);
    assert_eq!(cam.pitch, -785_398);
    assert_eq!(cam.applied_pitch, -785_398);
    let deltas = vec![MotionDelta { x: 0, y: 157_079_600 }];
    look_update(&mut body, &mut cam, &deltas);
    assert_eq!(cam.pitch, -785_398);
    assert_eq!(cam.applied_pitch, -785_398);
}

#[test]
fn stored_and_applied_pitch_agree_over_mixed_motion() {
    let mut body = resting_body();
    let mut cam = level_camera();
    let script: [i64; 7] = [
        30_000_000,
        -200_000_000,
        500_000_000,
        -1_000_000,
        0,
        999_999_999,
        -450_000_000,
    ];
    for dy in script {
        let deltas = vec![MotionDelta { x: 12_345, y: dy }];
        look_update(&mut body, &mut cam, &deltas);
        assert_eq!(cam.applied_pitch, cam.pitch);
        assert!(cam.pitch <= 785_398);
        assert!(cam.pitch >= -785_398);
    }
}

#[test]
fn yaw_wraps_at_half_turn() {
    let mut body = resting_body();
    let mut cam = level_camera();
    // Each tick turns by +0.5 rad; the seventh crosses pi and wraps.
    for _ in 0..6 {
        let deltas = vec![MotionDelta { x: -100_000_000, y: 0 }];
        look_update(&mut body, &mut cam, &deltas);
    }
    assert_eq!(body.yaw, 3_000_000);
    let deltas = vec![MotionDelta { x: -100_000_000, y: 0 }];
    look_update(&mut body, &mut cam, &deltas);
    assert_eq!(body.yaw, -2_783_186);
}
