use voxel_renderer::surface::{
    choose_format, choose_present_mode, classify_surface_error, surface_settings,
    FrameErrorAction, PresentMode, SurfaceErrorKind,
};

#[test]
fn first_srgb_format_is_chosen() {
    assert_eq!(choose_format(&[false, true, true]), 1);
    assert_eq!(choose_format(&[true]), 0);
}

#[test]
fn first_format_without_srgb() {
    assert_eq!(choose_format(&[false, false, false]), 0);
}

#[test]
fn mailbox_when_supported() {
    assert_eq!(
        choose_present_mode(&[PresentMode::Fifo, PresentMode::Mailbox, PresentMode::Immediate]),
        PresentMode::Mailbox
    );
}

#[test]
fn fifo_without_mailbox() {
    assert_eq!(choose_present_mode(&[PresentMode::Fifo, PresentMode::Immediate]), PresentMode::Fifo);
    assert_eq!(choose_present_mode(&[]), PresentMode::Fifo);
}

#[test]
fn settings_for_a_window() {
    let s = surface_settings(800, 600, &[false, true], &[PresentMode::Mailbox]);
    assert_eq!(s.width, 800);
    assert_eq!(s.height, 600);
    assert_eq!(s.format, 1);
    assert_eq!(s.present_mode, PresentMode::Mailbox);
    assert_eq!(s.alpha_mode, 0);
    assert_eq!(s.desired_maximum_frame_latency, 2);
}

#[test]
fn surface_errors_are_classified() {
    assert_eq!(classify_surface_error(SurfaceErrorKind::Lost), FrameErrorAction::Ignore);
    assert_eq!(classify_surface_error(SurfaceErrorKind::Outdated), FrameErrorAction::Ignore);
    assert_eq!(classify_surface_error(SurfaceErrorKind::Timeout), FrameErrorAction::Warn);
    assert_eq!(classify_surface_error(SurfaceErrorKind::OutOfMemory), FrameErrorAction::Abort);
    assert_eq!(classify_surface_error(SurfaceErrorKind::Other), FrameErrorAction::Report);
}
