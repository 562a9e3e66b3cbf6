use render_lifecycle::config::PresentMode;
use render_lifecycle::config::SurfaceConfig;
use render_lifecycle::config::DESIRED_FRAME_LATENCY;

#[test]
fn a_new_config_takes_the_window_size_and_the_chosen_format() {
    let c = SurfaceConfig::new(640, 480, 5);
    assert_eq!(c.width, 640);
    assert_eq!(c.height, 480);
    assert_eq!(c.format, 5);
    assert_eq!(c.present_mode, PresentMode::Fifo);
    assert_eq!(c.desired_maximum_frame_latency, DESIRED_FRAME_LATENCY);
}

#[test]
fn a_new_config_never_has_a_zero_extent() {
    let c = SurfaceConfig::new(0, 0, 5);
    assert_eq!(c.width, 1);
    assert_eq!(c.height, 1);
}

#[test]
fn resize_changes_only_the_extent() {
    let mut c = SurfaceConfig::new(640, 480, 5);
    c.resize(0, 720);
    assert_eq!(c.width, 1);
    assert_eq!(c.height, 720);
    assert_eq!(c.format, 5);
    assert_eq!(c.present_mode, PresentMode::Fifo);
    assert_eq!(c.desired_maximum_frame_latency, DESIRED_FRAME_LATENCY);
}
