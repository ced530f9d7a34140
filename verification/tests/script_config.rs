use aberred::color::Color;
use aberred::gameconfig::GameConfig;
use aberred::script_config::{requested_render_size, requested_target_fps, GameConfigSnapshot};

#[test]
fn snapshot_defaults_before_first_refresh() {
    let snap = GameConfigSnapshot::default();
    assert!(!snap.fullscreen);
    assert!(!snap.vsync);
    assert_eq!(snap.target_fps, 60);
    assert_eq!((snap.render_width, snap.render_height), (640, 360));
    assert_eq!((snap.background_r, snap.background_g, snap.background_b), (80, 80, 80));
    assert!(snap.pixel_snap_camera);
}

#[test]
fn refresh_copies_config_including_pixel_snap() {
    let mut config = GameConfig::new();
    config.fullscreen = true;
    config.target_fps = 144;
    config.set_render_size(320, 180);
    config.background_color = Color::new(1, 2, 3, 255);
    config.pixel_snap_camera = false;
    let mut snap = GameConfigSnapshot::default();
    snap.refresh(&config);
    assert!(snap.fullscreen);
    assert!(snap.vsync);
    assert_eq!(snap.target_fps, 144);
    assert_eq!((snap.render_width, snap.render_height), (320, 180));
    assert_eq!((snap.background_r, snap.background_g, snap.background_b), (1, 2, 3));
    assert!(!snap.pixel_snap_camera);
}

#[test]
fn render_size_requests_are_clamped() {
    assert_eq!(requested_render_size(640, 360), (640, 360));
    assert_eq!(requested_render_size(10, 5000), (120, 4320));
    assert_eq!(requested_render_size(9000, 0), (7680, 120));
    assert_eq!(requested_render_size(120, 4320), (120, 4320));
}

#[test]
fn target_fps_request_defaults_to_sixty() {
    assert_eq!(requested_target_fps(None), 60);
    assert_eq!(requested_target_fps(Some(30)), 30);
    assert_eq!(requested_target_fps(Some(0)), 0);
}
