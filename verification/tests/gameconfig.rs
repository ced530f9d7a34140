use aberred::color::Color;
use aberred::gameconfig::{GameConfig, TextureFilter};
use configparser::ini::Ini;

fn saved_and_reloaded(config: &GameConfig) -> GameConfig {
    let text = config.to_ini().writes();
    let mut loaded = GameConfig::with_path(&config.config_path);
    loaded.load_from_str(&text).unwrap();
    loaded
}

#[test]
fn test_new_defaults() {
    let config = GameConfig::new();
    assert_eq!(config.render_width, 640);
    assert_eq!(config.render_height, 360);
    assert_eq!(config.window_width, 1280);
    assert_eq!(config.window_height, 720);
    assert_eq!(config.target_fps, 120);
    assert!(config.vsync);
    assert!(!config.fullscreen);
}

#[test]
fn test_default_trait() {
    let config = GameConfig::default();
    assert_eq!(config.render_width, 640);
    assert_eq!(config.target_fps, 120);
}

#[test]
fn test_with_path() {
    let config = GameConfig::with_path("/tmp/custom.ini");
    assert_eq!(config.config_path, "/tmp/custom.ini");
    assert_eq!(config.render_width, 640);
}

#[test]
fn test_set_render_size() {
    let mut config = GameConfig::new();
    config.set_render_size(320, 240);
    assert_eq!(config.render_width, 320);
    assert_eq!(config.render_height, 240);
}

#[test]
fn test_set_window_size() {
    let mut config = GameConfig::new();
    config.set_window_size(1920, 1080);
    assert_eq!(config.window_width, 1920);
    assert_eq!(config.window_height, 1080);
}

#[test]
fn test_window_size_getter() {
    let mut config = GameConfig::new();
    config.set_window_size(800, 600);
    assert_eq!(config.window_size(), (800, 600));
}

#[test]
fn test_load_from_file() {
    let mut config = GameConfig::with_path("test_load.ini");
    config
        .load_from_str(
            "[render]\nwidth = 800\nheight = 450\n[window]\nwidth = 1600\nheight = 900\ntarget_fps = 60\nvsync = false\nfullscreen = true\n",
        )
        .unwrap();
    assert_eq!(config.render_width, 800);
    assert_eq!(config.render_height, 450);
    assert_eq!(config.window_width, 1600);
    assert_eq!(config.window_height, 900);
    assert_eq!(config.target_fps, 60);
    assert!(!config.vsync);
    assert!(config.fullscreen);
}

#[test]
fn test_load_from_file_missing_values_keep_defaults() {
    let mut config = GameConfig::with_path("test_partial.ini");
    config.load_from_str("[render]\nwidth = 320\n").unwrap();
    assert_eq!(config.render_width, 320);
    assert_eq!(config.render_height, 360);
    assert_eq!(config.window_width, 1280);
}

#[test]
fn test_load_from_str() {
    let mut config = GameConfig::new();
    config.load_from_str("[render]\nwidth = 800\nheight = 600\n").unwrap();
    assert_eq!(config.render_width, 800);
    assert_eq!(config.render_height, 600);
    assert_eq!(config.target_fps, 120);
}

#[test]
fn test_load_from_str_single_section() {
    let mut config = GameConfig::new();
    assert!(config.load_from_str("[window]\ntarget_fps = 45\n").is_ok());
    assert_eq!(config.target_fps, 45);
    assert_eq!(config.render_width, 640);
}

#[test]
fn test_save_and_reload_roundtrip() {
    let mut config = GameConfig::with_path("test_roundtrip.ini");
    config.set_render_size(400, 300);
    config.set_window_size(800, 600);
    config.target_fps = 30;
    config.vsync = false;
    config.fullscreen = true;
    let loaded = saved_and_reloaded(&config);
    assert_eq!(loaded.render_width, 400);
    assert_eq!(loaded.render_height, 300);
    assert_eq!(loaded.window_width, 800);
    assert_eq!(loaded.window_height, 600);
    assert_eq!(loaded.target_fps, 30);
    assert!(!loaded.vsync);
    assert!(loaded.fullscreen);
}

#[test]
fn test_background_color_save_and_reload_roundtrip() {
    let mut config = GameConfig::with_path("test_bg_roundtrip.ini");
    config.background_color = Color::new(10, 200, 55, 255);
    let loaded = saved_and_reloaded(&config);
    assert_eq!(loaded.background_color.r, 10);
    assert_eq!(loaded.background_color.g, 200);
    assert_eq!(loaded.background_color.b, 55);
    assert_eq!(loaded.background_color.a, 255);
}

#[test]
fn test_background_color_missing_keeps_default() {
    let mut config = GameConfig::with_path("test_bg_missing.ini");
    config.load_from_str("[render]\nwidth = 320\n").unwrap();
    assert_eq!(config.background_color.r, 80);
    assert_eq!(config.background_color.g, 80);
    assert_eq!(config.background_color.b, 80);
}

#[test]
fn test_new_defaults_window_title() {
    let config = GameConfig::new();
    assert_eq!(config.window_title, "Aberred Engine");
}

#[test]
fn test_load_window_title_from_file() {
    let mut config = GameConfig::with_path("test_title.ini");
    config.load_from_str("[window]\ntitle = My Cool Game\n").unwrap();
    assert_eq!(config.window_title, "My Cool Game");
}

#[test]
fn test_window_title_missing_keeps_default() {
    let mut config = GameConfig::with_path("test_title_missing.ini");
    config.load_from_str("[window]\nwidth = 800\n").unwrap();
    assert_eq!(config.window_title, "Aberred Engine");
}

#[test]
fn test_render_target_filter_default_is_nearest() {
    let config = GameConfig::new();
    assert_eq!(config.render_target_filter, TextureFilter::Nearest);
}

#[test]
fn test_render_target_filter_parses_from_ini() {
    let mut config = GameConfig::new();
    config.load_from_str("[render]\nrender_target_filter = bilinear\n").unwrap();
    assert_eq!(config.render_target_filter, TextureFilter::Bilinear);
}

#[test]
fn test_render_target_filter_missing_keeps_nearest() {
    let mut config = GameConfig::new();
    config.load_from_str("[render]\nwidth = 320\n").unwrap();
    assert_eq!(config.render_target_filter, TextureFilter::Nearest);
}

#[test]
fn test_window_title_save_and_reload_roundtrip() {
    let mut config = GameConfig::with_path("test_title_roundtrip.ini");
    config.window_title = "Test Title".to_string();
    let loaded = saved_and_reloaded(&config);
    assert_eq!(loaded.window_title, "Test Title");
}

#[test]
fn unparsable_text_is_an_error_and_changes_nothing() {
    let mut config = GameConfig::new();
    let err = config.load_from_str("[render\nwidth = 1\n").unwrap_err();
    assert!(err.starts_with("Failed to parse config: "), "{err}");
    assert_eq!(config.render_width, 640);
    let err = config.load_from_str("[render]\n= 5\n").unwrap_err();
    assert!(err.starts_with("Failed to parse config: "), "{err}");
}

#[test]
fn malformed_values_keep_current_values() {
    let mut config = GameConfig::new();
    config
        .load_from_str("[render]\nwidth = wide\nbackground_color = 1,2\n[window]\nvsync = maybe\ntarget_fps = -3\n")
        .unwrap();
    assert_eq!(config.render_width, 640);
    assert_eq!(config.background_color, Color::new(80, 80, 80, 255));
    assert!(config.vsync);
    assert_eq!(config.target_fps, 120);
}

#[test]
fn keys_and_booleans_are_case_insensitive() {
    let mut config = GameConfig::new();
    config.load_from_str("[WINDOW]\nVSync = FALSE\nFullscreen = True\n").unwrap();
    assert!(!config.vsync);
    assert!(config.fullscreen);
}

#[test]
fn background_color_accepts_spaces_and_gives_opaque_color() {
    let mut config = GameConfig::new();
    config.load_from_str("[render]\nbackground_color = 1, 2 ,3\n").unwrap();
    assert_eq!(config.background_color, Color::new(1, 2, 3, 255));
    config.load_from_str("[render]\nbackground_color = 256,0,0\n").unwrap();
    assert_eq!(config.background_color, Color::new(1, 2, 3, 255));
}

#[test]
fn unknown_texture_filter_falls_back_to_nearest() {
    let mut config = GameConfig::new();
    config.load_from_str("[render]\nrender_target_filter = bilinear\n").unwrap();
    config.load_from_str("[render]\nrender_target_filter = sharp\n").unwrap();
    assert_eq!(config.render_target_filter, TextureFilter::Nearest);
    assert_eq!(TextureFilter::from_opt_str(None), TextureFilter::Nearest);
    assert_eq!(TextureFilter::from_opt_str(Some("trilinear")), TextureFilter::Trilinear);
}

#[test]
fn pixel_snap_camera_is_read_but_not_saved() {
    let mut config = GameConfig::new();
    config.load_from_str("[render]\npixel_snap_camera = false\n").unwrap();
    assert!(!config.pixel_snap_camera);
    let ini = config.to_ini();
    assert_eq!(ini.get("render", "pixel_snap_camera"), None);
    assert_eq!(ini.get("render", "background_color"), Some("80,80,80".to_string()));
    assert_eq!(ini.get("window", "vsync"), Some("true".to_string()));
}

#[test]
fn apply_ini_reads_a_parsed_ini() {
    let mut ini = Ini::new();
    ini.read("[window]\nwidth = 1024\ntitle = Parsed\n".to_string()).unwrap();
    let mut config = GameConfig::new();
    config.apply_ini(&ini);
    assert_eq!(config.window_width, 1024);
    assert_eq!(config.window_title, "Parsed");
    assert_eq!(config.window_height, 720);
}

#[test]
fn ini_settings_list_what_is_saved_in_order() {
    let config = GameConfig::new();
    let settings = config.ini_settings();
    let names: Vec<(&str, &str)> = settings.iter().map(|(s, k, _)| (s.as_str(), k.as_str())).collect();
    assert_eq!(
        names,
        vec![
            ("render", "width"),
            ("render", "height"),
            ("render", "background_color"),
            ("window", "width"),
            ("window", "height"),
            ("window", "target_fps"),
            ("window", "vsync"),
            ("window", "fullscreen"),
            ("window", "title"),
        ]
    );
    assert_eq!(settings[0].2, "640");
    assert_eq!(settings[2].2, "80,80,80");
    assert_eq!(settings[8].2, "Aberred Engine");
}

#[test]
fn apply_ini_reads_a_case_sensitive_ini() {
    let mut ini = Ini::new_cs();
    ini.read("[render]\nwidth = 800\nHeight = 600\n".to_string()).unwrap();
    let mut config = GameConfig::new();
    config.apply_ini(&ini);
    assert_eq!(config.render_width, 800);
    assert_eq!(config.render_height, 360);
}

#[test]
fn apply_ini_falls_back_to_the_default_section_when_cascading() {
    let mut options = Ini::new().defaults();
    options.cascade_defaults = true;
    let mut ini = Ini::new_from_defaults(options);
    ini.read("[default]\nwidth = 999\nvsync = false\n[render]\nheight = 5\n".to_string()).unwrap();
    let mut config = GameConfig::new();
    config.apply_ini(&ini);
    assert_eq!(config.render_width, 999);
    assert_eq!(config.render_height, 5);
    assert_eq!(config.window_width, 999);
    assert_eq!(config.window_height, 720);
    assert!(!config.vsync);
}

#[test]
fn saved_ini_applies_back_onto_a_fresh_config() {
    let mut config = GameConfig::new();
    config.set_window_size(1024, 768);
    config.window_title = "Saved".to_string();
    let ini = config.to_ini();
    let mut fresh = GameConfig::new();
    fresh.apply_ini(&ini);
    assert_eq!(fresh.window_size(), (1024, 768));
    assert_eq!(fresh.window_title, "Saved");
}
