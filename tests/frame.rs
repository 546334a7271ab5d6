use raytrace_core::camera::{CameraPose, CameraUniform};
use raytrace_core::frame::{
    frame_plan, frame_rest, frame_wait_nanos, next_phase, surface_error_action, workgroup_count, FrameCommand, FramePhase,
    FrameState, SurfaceAction, SurfaceError,
};

fn pose(x: f32) -> CameraPose {
    let mut p = CameraUniform::new().pose;
    p.view_position = [x.to_bits(), 1.0f32.to_bits(), 2.0f32.to_bits(), 1.0f32.to_bits()];
    p.fov_degrees = 45.0f32.to_bits();
    p
}

#[test]
fn workgroups_round_up() {
    assert_eq!(workgroup_count(0), 0);
    assert_eq!(workgroup_count(1), 1);
    assert_eq!(workgroup_count(8), 1);
    assert_eq!(workgroup_count(9), 2);
    assert_eq!(workgroup_count(800), 100);
    assert_eq!(workgroup_count(601), 76);
    assert_eq!(workgroup_count(u32::MAX), 536_870_912);
}

#[test]
fn phases_run_in_order() {
    let mut p = FramePhase::UpdateUniforms;
    let mut seen = vec![p];
    for _ in 0..6 {
        p = next_phase(p);
        seen.push(p);
    }
    assert_eq!(
        seen,
        vec![
            FramePhase::UpdateUniforms,
            FramePhase::RayTrace,
            FramePhase::Denoise(0),
            FramePhase::Denoise(1),
            FramePhase::Present,
            FramePhase::PaceWait,
            FramePhase::UpdateUniforms
        ]
    );
}

#[test]
fn frame_plan_orders_the_passes() {
    let plan = frame_plan(800, 600);
    assert_eq!(plan.len(), 15);
    assert_eq!(plan[3], FrameCommand::RayTrace { groups_x: 100, groups_y: 75 });
    assert_eq!(plan[4], FrameCommand::SetDenoisePass(0));
    assert_eq!(plan[5], FrameCommand::Denoise { groups_x: 100, groups_y: 75 });
    assert_eq!(plan[7], FrameCommand::SetDenoisePass(1));
    let reference = plan.iter().position(|c| *c == FrameCommand::UploadReferenceCamera).unwrap();
    let last_denoise = plan.iter().rposition(|c| matches!(c, FrameCommand::Denoise { .. })).unwrap();
    assert!(reference > last_denoise);
    assert_eq!(plan[14], FrameCommand::Present);
}

#[test]
fn zero_area_resize_is_ignored() {
    let mut s = FrameState::new(800, 600, CameraUniform::new());
    assert!(!s.resize(0, 0));
    assert_eq!((s.width, s.height, s.aspect_width, s.aspect_height), (800, 600, 800, 600));
    assert!(!s.resize(1024, 0));
    assert_eq!((s.width, s.height), (800, 600));
    assert!(s.resize(1024, 768));
    assert_eq!((s.width, s.height), (1024, 768));
    assert_eq!((s.aspect_width, s.aspect_height), (1024, 768));
    assert_eq!(s.plan()[3], FrameCommand::RayTrace { groups_x: 128, groups_y: 96 });
}

#[test]
fn reference_camera_lags_one_frame() {
    let mut s = FrameState::new(800, 600, CameraUniform::new());
    let still = pose(3.0);
    s.begin_frame(still);
    s.finish_frame();
    let frame1 = s.live;
    s.begin_frame(still);
    // what the second frame's denoise passes read
    assert_eq!(s.reference.frame, frame1.frame);
    assert_eq!(s.reference.pose.view_position, frame1.pose.view_position);
    assert_eq!(s.live.frame, 2);
    assert_eq!(s.reference.frame, 1);
    s.finish_frame();
    assert_eq!(s.reference.frame, 2);
    assert_eq!(s.reference.pose.view_position, s.live.pose.view_position);
}

#[test]
fn reference_keeps_the_previous_pose_when_moving() {
    let mut s = FrameState::new(800, 600, CameraUniform::new());
    s.begin_frame(pose(1.0));
    s.finish_frame();
    s.begin_frame(pose(2.0));
    assert_eq!(s.reference.pose.view_position[0], 1.0f32.to_bits());
    assert_eq!(s.live.pose.view_position[0], 2.0f32.to_bits());
}

#[test]
fn pacing_sleeps_the_rest_of_the_interval() {
    assert_eq!(frame_wait_nanos(0, 1), 0);
    assert_eq!(frame_wait_nanos(60, 0), 16_666_666);
    assert_eq!(frame_wait_nanos(60, 6_666_666), 10_000_000);
    assert_eq!(frame_wait_nanos(60, 20_000_000), 0);
    assert_eq!(frame_wait_nanos(1, 999_999_999), 1);
}

#[test]
fn surface_errors_have_fixed_remedies() {
    assert_eq!(surface_error_action(SurfaceError::Lost), SurfaceAction::Reconfigure);
    assert_eq!(surface_error_action(SurfaceError::Outdated), SurfaceAction::Reconfigure);
    assert_eq!(surface_error_action(SurfaceError::OutOfMemory), SurfaceAction::Exit);
    assert_eq!(surface_error_action(SurfaceError::Timeout), SurfaceAction::Skip);
}

#[test]
fn failed_acquire_drops_the_rest_of_the_frame() {
    assert!(frame_rest(800, 600, false).is_empty());
    let rest = frame_rest(800, 600, true);
    assert_eq!(rest.len(), 12);
    assert_eq!(rest[0], FrameCommand::RayTrace { groups_x: 100, groups_y: 75 });
    let mut s = FrameState::new(800, 600, CameraUniform::new());
    s.begin_frame(pose(1.0));
    s.end_frame(false);
    assert_eq!(s.reference.frame, 0);
    s.end_frame(true);
    assert_eq!(s.reference.frame, 1);
}
