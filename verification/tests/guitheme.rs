use aberred::color::Color;
use aberred::fontmetrics::FontMetricsWarnCache;
use aberred::guitheme::{GuiButtonSkin, GuiNinePatch, GuiTheme, GuiThemeStore, GuiThemeWarnCache, DEFAULT_GUI_THEME_KEY};

#[test]
fn test_guitheme_construction() {
    let theme = GuiTheme {
        panel: GuiNinePatch { tex_key: "gui_panel".to_string(), left: 6, top: 6, right: 6, bottom: 6 },
        button: None,
        label: None,
        ..GuiTheme::default()
    };
    assert_eq!(theme.panel.left, 6);
    assert_eq!(theme.panel.tex_key, "gui_panel");
}

#[test]
fn test_gui_nine_patch_default_empty_tex_key() {
    let patch = GuiNinePatch::default();
    assert_eq!(patch.tex_key, "");
    assert_eq!(patch.left, 0);
    assert!(patch.is_unset());
}

#[test]
fn test_gui_nine_patch_is_unset_false_when_tex_key_set() {
    let patch = GuiNinePatch { tex_key: "some_tex".to_string(), ..GuiNinePatch::default() };
    assert!(!patch.is_unset());
}

#[test]
fn test_gui_theme_default_button_none() {
    let theme = GuiTheme::default();
    assert!(theme.button.is_none());
    assert_eq!(theme.panel.tex_key, "");
}

#[test]
fn test_gui_theme_default_label_none() {
    let theme = GuiTheme::default();
    assert!(theme.label.is_none());
}

#[test]
fn test_gui_theme_default_font_config() {
    let theme = GuiTheme::default();
    assert_eq!(theme.font, "");
    assert_eq!(theme.text_color, Color::white());
    assert_eq!(theme.text_color, Color::new(255, 255, 255, 255));
}

#[test]
fn drop_invalid_button_skin_clears_button_when_normal_unset() {
    let mut theme = GuiTheme { button: Some(GuiButtonSkin::default()), ..GuiTheme::default() };
    assert!(!theme.drop_invalid_button_skin());
    assert!(theme.button.is_none());
}

#[test]
fn drop_invalid_button_skin_keeps_button_when_normal_set() {
    let mut theme = GuiTheme {
        button: Some(GuiButtonSkin {
            normal: GuiNinePatch { tex_key: "tex".to_string(), ..GuiNinePatch::default() },
            ..GuiButtonSkin::default()
        }),
        ..GuiTheme::default()
    };
    assert!(theme.drop_invalid_button_skin());
    assert!(theme.button.is_some());
}

#[test]
fn test_gui_button_skin_default_all_empty() {
    let skin = GuiButtonSkin::default();
    assert_eq!(skin.normal.tex_key, "");
    assert!(skin.hover.is_none());
    assert!(skin.pressed.is_none());
    assert!(skin.disabled.is_none());
}

#[test]
fn drop_invalid_button_skin_without_button_keeps_theme() {
    let mut theme = GuiTheme::default();
    assert!(theme.drop_invalid_button_skin());
    assert!(theme.button.is_none());
}

#[test]
fn theme_store_insert_then_get_gives_latest_theme() {
    let mut store = GuiThemeStore::default();
    assert!(store.get(DEFAULT_GUI_THEME_KEY).is_none());
    let first = GuiTheme { font: "mono".to_string(), ..GuiTheme::default() };
    store.insert(DEFAULT_GUI_THEME_KEY, first);
    assert_eq!(store.get("default").unwrap().font, "mono");
    let second = GuiTheme { font: "serif".to_string(), ..GuiTheme::default() };
    store.insert("default", second);
    assert_eq!(store.get("default").unwrap().font, "serif");
    assert_eq!(store.themes.len(), 1);
    store.insert("dark", GuiTheme::default());
    assert_eq!(store.get("dark").unwrap().font, "");
    assert_eq!(store.get("default").unwrap().font, "serif");
    assert!(store.get("light").is_none());
}

#[test]
fn theme_warnings_are_reported_once_per_key() {
    let mut cache = GuiThemeWarnCache::default();
    assert!(cache.warn_once("missing"));
    assert!(!cache.warn_once("missing"));
    assert!(cache.warn_once("other"));
    assert!(cache.warn_once_invalid_button_skin("missing"));
    assert!(!cache.warn_once_invalid_button_skin("missing"));
    assert!(!cache.warn_once("other"));
}

#[test]
fn font_warnings_are_reported_once_per_key() {
    let mut cache = FontMetricsWarnCache::default();
    assert!(cache.warn_once("title"));
    assert!(!cache.warn_once("title"));
    assert!(cache.warn_once("body"));
    assert!(!cache.warn_once("body"));
}
