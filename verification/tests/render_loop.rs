use egone::frame::{
    can_render, frame_action, resize_accepted, stats_refresh_due, surface_extent, FrameAction,
};
use egone::settings::{clamp_max_steps, MAX_STEPS_MAX, MAX_STEPS_MIN};

#[test]
fn renders_only_when_active_and_visible() {
    assert!(can_render(true, false));
    assert!(!can_render(true, true));
    assert!(!can_render(false, false));
}

#[test]
fn frame_action_follows_interval() {
    let interval = 16_000_000u128;
    assert!(frame_action(false, 1_000_000_000, interval) == FrameAction::Sleep);
    assert!(frame_action(true, interval, interval) == FrameAction::RedrawNow);
    assert!(frame_action(true, interval + 1, interval) == FrameAction::RedrawNow);
    assert!(frame_action(true, interval - 1, interval) == FrameAction::WaitForNextFrame);
}

#[test]
fn stats_refresh_every_half_second() {
    assert!(!stats_refresh_due(499_999_999));
    assert!(stats_refresh_due(500_000_000));
}

#[test]
fn resize_needs_both_sides() {
    assert!(resize_accepted(1280, 720));
    assert!(!resize_accepted(0, 720));
    assert!(!resize_accepted(1280, 0));
}

#[test]
fn surface_extent_raises_zero_sides() {
    assert_eq!(surface_extent(0, 0), (1, 1));
    assert_eq!(surface_extent(800, 0), (800, 1));
    assert_eq!(surface_extent(800, 600), (800, 600));
}

#[test]
fn max_steps_is_clamped() {
    assert_eq!(clamp_max_steps(0), MAX_STEPS_MIN);
    assert_eq!(clamp_max_steps(8), 8);
    assert_eq!(clamp_max_steps(128), 128);
    assert_eq!(clamp_max_steps(5000), MAX_STEPS_MAX);
    assert_eq!(clamp_max_steps(clamp_max_steps(5000)), 1024);
}
