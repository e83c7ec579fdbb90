use particle_sim::mouse::NdcPos;
use particle_sim::surface::{
    choose_format_index, recovery_for, FrameRecovery, SurfaceErrorKind, SurfaceExtent,
};

#[test]
fn window_center_maps_to_origin() {
    let p = NdcPos::from_pixels(400, 300, 800, 600);
    assert_eq!((p.x_num, p.y_num), (0, 0));
    assert_eq!((p.width, p.height), (800, 600));
}

#[test]
fn top_left_maps_to_minus_one_plus_one() {
    let p = NdcPos::from_pixels(0, 0, 800, 600);
    assert_eq!(p.x_num, -(p.width as i64));
    assert_eq!(p.y_num, p.height as i64);
}

#[test]
fn bottom_right_maps_to_plus_one_minus_one() {
    let p = NdcPos::from_pixels(800, 600, 800, 600);
    assert_eq!(p.x_num, p.width as i64);
    assert_eq!(p.y_num, -(p.height as i64));
}

#[test]
fn zero_area_resize_is_a_no_op_and_valid_resize_restores() {
    let mut extent = SurfaceExtent::new(800, 600);
    assert!(!extent.resize(0, 600));
    assert_eq!((extent.width, extent.height), (800, 600));
    assert!(!extent.resize(800, 0));
    assert_eq!((extent.width, extent.height), (800, 600));
    assert!(!extent.resize(0, 0));
    assert_eq!((extent.width, extent.height), (800, 600));
    assert!(extent.resize(1024, 768));
    assert_eq!((extent.width, extent.height), (1024, 768));
}

#[test]
fn lost_and_outdated_reconfigure_timeout_skips_oom_is_fatal() {
    assert_eq!(recovery_for(&SurfaceErrorKind::Lost), FrameRecovery::ReconfigureAndSkip);
    assert_eq!(recovery_for(&SurfaceErrorKind::Outdated), FrameRecovery::ReconfigureAndSkip);
    assert_eq!(recovery_for(&SurfaceErrorKind::Timeout), FrameRecovery::Skip);
    assert_eq!(recovery_for(&SurfaceErrorKind::OutOfMemory), FrameRecovery::Fatal);
}

#[test]
fn first_srgb_format_is_preferred() {
    assert_eq!(choose_format_index(&vec![false, true, true]), 1);
    assert_eq!(choose_format_index(&vec![true, false]), 0);
}

#[test]
fn first_format_is_the_fallback_without_srgb() {
    assert_eq!(choose_format_index(&vec![false, false, false]), 0);
}
