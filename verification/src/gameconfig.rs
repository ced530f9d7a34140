//! Game configuration: render and window sizes, frame rate, display flags,
//! background color, window title and the path of the INI file they are
//! loaded from and saved to.
//!
//! ```ini
//! [render]
//! width = 640
//! height = 360
//! pixel_snap_camera = true
//! background_color = 80,80,80
//! render_target_filter = nearest
//!
//! [window]
//! width = 1280
//! height = 720
//! fullscreen = false
//! vsync = true
//! target_fps = 120
//! title = Aberred Engine
//! ```
//!
//! The INI text is parsed by `configparser`. The floating-point settings
//! (`[simulation] hz`, `snapshot_hz`, `[audio] hz`, `[input] gamepad_deadzone`)
//! are read by the caller from the same file.
use vstd::prelude::*;

use configparser::ini::Ini;

use crate::color::Color;
use crate::text::{
    decimal, decimal_string, eq_ignore_ascii_case, is_lowercase_ascii, lemma_decimal_parses, name_sig, parse_u64_spec,
    parse_u8, parse_u8_spec, split3, split_spec, str_eq, trim, trim_spec, unsigned_grammar,
};

verus! {

#[verifier::external_type_specification]
#[verifier::external_body]
pub struct ExIni(Ini);

/// What an `Ini` holds: the value (or bare key, `None`) stored under each
/// (section, key) pair, with section and key case-folded as it stores them.
pub uninterp spec fn ini_entries(ini: Ini) -> Map<(Seq<char>, Seq<char>), Option<Seq<char>>>;

/// Whether an `Ini` has the options `Ini::new` gives: case-insensitive
/// keys, no cascading to a default section.
pub uninterp spec fn ini_has_default_options(ini: Ini) -> bool;

/// Whether an `Ini` falls back to its default section for a key missing
/// from the section asked for (its `cascade_defaults` option).
pub uninterp spec fn ini_cascades(ini: Ini) -> bool;

/// Whether an `Ini` keeps section and key names as written rather than
/// lowercasing them (its `case_sensitive` option).
pub uninterp spec fn ini_case_sensitive(ini: Ini) -> bool;

/// The name of an `Ini`'s default section, as its options hold it.
pub uninterp spec fn ini_default_section(ini: Ini) -> Seq<char>;

/// What `Ini::read` makes of a text, on an `Ini` with the default options:
/// the entries it holds afterwards, or the error it reports.
pub uninterp spec fn ini_parse(content: Seq<char>) -> Result<Map<(Seq<char>, Seq<char>), Option<Seq<char>>>, Seq<char>>;

/// No entries at all.
pub open spec fn no_entries() -> Map<(Seq<char>, Seq<char>), Option<Seq<char>>> {
    Map::empty()
}

/// `configparser::ini::Ini::new`: an `Ini` with the default options and no entries.
#[verifier::external_body]
fn ini_new() -> (r: Ini)
    ensures
        ini_entries(r) == no_entries(),
        ini_has_default_options(r),
        !ini_cascades(r),
        !ini_case_sensitive(r),
{
    Ini::new()
}

/// `configparser::ini::Ini::read`: parse `content` and replace the entries
/// with what it holds; on a parse error the entries are kept and the error
/// text is returned. The options are not changed. What the parse gives is
/// named by `ini_parse`, not stated.
#[verifier::external_body]
fn ini_read(ini: &mut Ini, content: String) -> (r: Result<(), String>)
    ensures
        ini_has_default_options(*final(ini)) == ini_has_default_options(*old(ini)),
        ini_cascades(*final(ini)) == ini_cascades(*old(ini)),
        ini_case_sensitive(*final(ini)) == ini_case_sensitive(*old(ini)),
        ini_default_section(*final(ini)) == ini_default_section(*old(ini)),
        ini_has_default_options(*old(ini)) ==> match ini_parse(content@) {
            Ok(m) => r is Ok && ini_entries(*final(ini)) == m,
            Err(e) => r matches Err(x) && x@ == e && ini_entries(*final(ini)) == ini_entries(*old(ini)),
        },
{
    match ini.read(content) {
        Ok(_) => Ok(()),
        Err(e) => Err(e),
    }
}

/// `configparser::ini::Ini::set`: store `value` under (section, key),
/// replacing what was stored there. Stated for a section and key that case
/// folding leaves unchanged; the options are not changed.
#[verifier::external_body]
fn ini_set(ini: &mut Ini, section: &str, key: &str, value: String)
    ensures
        ini_has_default_options(*final(ini)) == ini_has_default_options(*old(ini)),
        ini_cascades(*final(ini)) == ini_cascades(*old(ini)),
        ini_case_sensitive(*final(ini)) == ini_case_sensitive(*old(ini)),
        ini_default_section(*final(ini)) == ini_default_section(*old(ini)),
        is_lowercase_ascii(section@) && is_lowercase_ascii(key@)
            ==> ini_entries(*final(ini)) == ini_entries(*old(ini)).insert((section@, key@), Some(value@)),
{
    ini.set(section, key, Some(value));
}

/// The value stored under (section, key), if the key is present with a value.
pub open spec fn ini_value(
    m: Map<(Seq<char>, Seq<char>), Option<Seq<char>>>,
    section: Seq<char>,
    key: Seq<char>,
) -> Option<Seq<char>> {
    if m.contains_key((section, key)) {
        m[(section, key)]
    } else {
        None
    }
}

/// The value an `Ini` reads for (section, key): the one stored there, or,
/// when it cascades and there is none, the one stored under the key in its
/// default section.
pub open spec fn ini_setting(ini: Ini, section: Seq<char>, key: Seq<char>) -> Option<Seq<char>> {
    match ini_value(ini_entries(ini), section, key) {
        Some(v) => Some(v),
        None => if ini_cascades(ini) {
            ini_value(ini_entries(ini), ini_default_section(ini), key)
        } else {
            None
        },
    }
}

/// The values an `Ini` reads, by (section, key).
pub open spec fn ini_settings_read(ini: Ini) -> Map<(Seq<char>, Seq<char>), Option<Seq<char>>> {
    Map::new(|p: (Seq<char>, Seq<char>)| ini_setting(ini, p.0, p.1) is Some, |p: (Seq<char>, Seq<char>)| ini_setting(ini, p.0, p.1))
}

/// Whether the typed getters of an `Ini` return: with cascading, a default
/// section that case folding could change makes them recurse without end.
pub open spec fn ini_getters_return(ini: Ini) -> bool {
    ini_cascades(ini) && !ini_case_sensitive(ini) ==> is_lowercase_ascii(ini_default_section(ini))
}

/// `configparser::ini::Ini::get`: a copy of the value the `Ini` reads for
/// (section, key), falling back to the default section when it cascades.
/// Stated for a section and key that case folding leaves unchanged.
#[verifier::external_body]
fn ini_get(ini: &Ini, section: &str, key: &str) -> (r: Option<String>)
    ensures
        is_lowercase_ascii(section@) && is_lowercase_ascii(key@) ==> match r {
            Some(v) => ini_setting(*ini, section@, key@) == Some(v@),
            None => ini_setting(*ini, section@, key@) is None,
        },
{
    ini.get(section, key)
}

/// `configparser::ini::Ini::getuint`: the value the `Ini` reads for
/// (section, key) parsed as a `u64` (`Ok(None)` when there is none, an
/// error when it does not parse). Stated for a section and key that case
/// folding leaves unchanged. With cascading on a case-insensitive `Ini`
/// whose default section name case folding would change, the lookup of a
/// missing key recurses without end; such `Ini`s are left out.
#[verifier::external_body]
fn ini_getuint(ini: &Ini, section: &str, key: &str) -> (r: Result<Option<u64>, String>)
    requires
        ini_getters_return(*ini),
    ensures
        is_lowercase_ascii(section@) && is_lowercase_ascii(key@) ==> match ini_setting(*ini, section@, key@) {
            Some(v) => match parse_u64_spec(v) {
                Some(n) => r == Ok::<Option<u64>, String>(Some(n)),
                None => r is Err,
            },
            None => r == Ok::<Option<u64>, String>(None),
        },
{
    ini.getuint(section, key)
}

/// `configparser::ini::Ini::getbool`: `true` or `false` for a value the
/// `Ini` reads for (section, key) equal to `"true"` or `"false"` ignoring
/// ASCII case, an error for any other value, `Ok(None)` when there is none.
/// Stated for a section and key that case folding leaves unchanged; the
/// `Ini`s on which it recurses without end are left out, as for `getuint`.
#[verifier::external_body]
fn ini_getbool(ini: &Ini, section: &str, key: &str) -> (r: Result<Option<bool>, String>)
    requires
        ini_getters_return(*ini),
    ensures
        is_lowercase_ascii(section@) && is_lowercase_ascii(key@) ==> match ini_setting(*ini, section@, key@) {
            Some(v) => if eq_ignore_ascii_case(v, "true"@) {
                r == Ok::<Option<bool>, String>(Some(true))
            } else if eq_ignore_ascii_case(v, "false"@) {
                r == Ok::<Option<bool>, String>(Some(false))
            } else {
                r is Err
            },
            None => r == Ok::<Option<bool>, String>(None),
        },
{
    ini.getbool(section, key)
}

/// Texture filter applied to the render target when it is scaled to the window.
#[derive(Clone, Copy, Debug, PartialEq, Eq, Hash, Structural)]
pub enum TextureFilter {
    Nearest,
    Bilinear,
    Trilinear,
    Anisotropic4x,
    Anisotropic8x,
    Anisotropic16x,
}

/// The filter a setting names; unknown names give the default, `Nearest`.
pub open spec fn texture_filter_by_name(s: Seq<char>) -> TextureFilter {
    if s == "bilinear"@ {
        TextureFilter::Bilinear
    } else if s == "trilinear"@ {
        TextureFilter::Trilinear
    } else if s == "anisotropic_4x"@ {
        TextureFilter::Anisotropic4x
    } else if s == "anisotropic_8x"@ {
        TextureFilter::Anisotropic8x
    } else if s == "anisotropic_16x"@ {
        TextureFilter::Anisotropic16x
    } else {
        TextureFilter::Nearest
    }
}

/// Each documented filter name selects its own filter, and every other
/// name selects `Nearest`.
pub proof fn lemma_texture_filter_names(s: Seq<char>)
    ensures
        texture_filter_by_name("nearest"@) == TextureFilter::Nearest,
        texture_filter_by_name("bilinear"@) == TextureFilter::Bilinear,
        texture_filter_by_name("trilinear"@) == TextureFilter::Trilinear,
        texture_filter_by_name("anisotropic_4x"@) == TextureFilter::Anisotropic4x,
        texture_filter_by_name("anisotropic_8x"@) == TextureFilter::Anisotropic8x,
        texture_filter_by_name("anisotropic_16x"@) == TextureFilter::Anisotropic16x,
        s != "bilinear"@ && s != "trilinear"@ && s != "anisotropic_4x"@ && s != "anisotropic_8x"@
            && s != "anisotropic_16x"@ ==> texture_filter_by_name(s) == TextureFilter::Nearest,
{
    reveal_strlit("nearest");
    assert(name_sig("nearest"@) == (7nat, 'n', 's', 't'));
    reveal_strlit("bilinear");
    assert(name_sig("bilinear"@) == (8nat, 'b', 'a', 'r'));
    reveal_strlit("trilinear");
    assert(name_sig("trilinear"@) == (9nat, 't', 'a', 'r'));
    reveal_strlit("anisotropic_4x");
    assert(name_sig("anisotropic_4x"@) == (14nat, 'a', '4', 'x'));
    reveal_strlit("anisotropic_8x");
    assert(name_sig("anisotropic_8x"@) == (14nat, 'a', '8', 'x'));
    reveal_strlit("anisotropic_16x");
    assert(name_sig("anisotropic_16x"@) == (15nat, 'a', '6', 'x'));
}

impl Default for TextureFilter {
    fn default() -> (r: Self)
        ensures
            r == TextureFilter::Nearest,
    {
        TextureFilter::Nearest
    }
}

impl TextureFilter {
    /// The filter a setting names (`nearest`, `bilinear`, `trilinear`,
    /// `anisotropic_4x`, `anisotropic_8x`, `anisotropic_16x`); an absent or
    /// unknown name gives `Nearest`.
    pub fn from_opt_str(s: Option<&str>) -> (r: Self)
        ensures
            r == (match s {
                Some(name) => texture_filter_by_name(name@),
                None => TextureFilter::Nearest,
            }),
    {
        match s {
            None => TextureFilter::Nearest,
            Some(name) => {
                if str_eq(name, "bilinear") {
                    TextureFilter::Bilinear
                } else if str_eq(name, "trilinear") {
                    TextureFilter::Trilinear
                } else if str_eq(name, "anisotropic_4x") {
                    TextureFilter::Anisotropic4x
                } else if str_eq(name, "anisotropic_8x") {
                    TextureFilter::Anisotropic8x
                } else if str_eq(name, "anisotropic_16x") {
                    TextureFilter::Anisotropic16x
                } else {
                    TextureFilter::Nearest
                }
            },
        }
    }
}

/// Game configuration.
#[derive(Clone, Debug)]
pub struct GameConfig {
    /// Internal render width in pixels.
    pub render_width: u32,
    /// Internal render height in pixels.
    pub render_height: u32,
    /// Window width in pixels.
    pub window_width: u32,
    /// Window height in pixels.
    pub window_height: u32,
    /// Target frames per second.
    pub target_fps: u32,
    /// Enable vertical sync.
    pub vsync: bool,
    /// Start in fullscreen mode.
    pub fullscreen: bool,
    /// Snap the camera to integer pixels before rendering.
    pub pixel_snap_camera: bool,
    /// Filter used when the render target is scaled to the window.
    pub render_target_filter: TextureFilter,
    /// Background clear color of the render target.
    pub background_color: Color,
    /// Window title.
    pub window_title: String,
    /// Path of the configuration file.
    pub config_path: String,
}

/// The value of a [`GameConfig`], with its strings as character sequences.
pub struct GameConfigView {
    pub render_width: u32,
    pub render_height: u32,
    pub window_width: u32,
    pub window_height: u32,
    pub target_fps: u32,
    pub vsync: bool,
    pub fullscreen: bool,
    pub pixel_snap_camera: bool,
    pub render_target_filter: TextureFilter,
    pub background_color: Color,
    pub window_title: Seq<char>,
    pub config_path: Seq<char>,
}

impl View for GameConfig {
    type V = GameConfigView;

    open spec fn view(&self) -> GameConfigView {
        GameConfigView {
            render_width: self.render_width,
            render_height: self.render_height,
            window_width: self.window_width,
            window_height: self.window_height,
            target_fps: self.target_fps,
            vsync: self.vsync,
            fullscreen: self.fullscreen,
            pixel_snap_camera: self.pixel_snap_camera,
            render_target_filter: self.render_target_filter,
            background_color: self.background_color,
            window_title: self.window_title@,
            config_path: self.config_path@,
        }
    }
}

/// The safe startup configuration, with the given file path.
pub open spec fn default_config(path: Seq<char>) -> GameConfigView {
    GameConfigView {
        render_width: 640,
        render_height: 360,
        window_width: 1280,
        window_height: 720,
        target_fps: 120,
        vsync: true,
        fullscreen: false,
        pixel_snap_camera: true,
        render_target_filter: TextureFilter::Nearest,
        background_color: Color { r: 80, g: 80, b: 80, a: 255 },
        window_title: "Aberred Engine"@,
        config_path: path,
    }
}

/// The `u64` setting under (section, key): absent or unparsable is `None`.
pub open spec fn uint_setting(
    m: Map<(Seq<char>, Seq<char>), Option<Seq<char>>>,
    section: Seq<char>,
    key: Seq<char>,
) -> Option<u64> {
    match ini_value(m, section, key) {
        Some(v) => parse_u64_spec(v),
        None => None,
    }
}

/// The boolean setting under (section, key): `true`/`false` ignoring ASCII
/// case; absent or anything else is `None`.
pub open spec fn bool_setting(
    m: Map<(Seq<char>, Seq<char>), Option<Seq<char>>>,
    section: Seq<char>,
    key: Seq<char>,
) -> Option<bool> {
    match ini_value(m, section, key) {
        Some(v) => if eq_ignore_ascii_case(v, "true"@) {
            Some(true)
        } else if eq_ignore_ascii_case(v, "false"@) {
            Some(false)
        } else {
            None
        },
        None => None,
    }
}

/// An opaque color from `"r,g,b"`: exactly three comma-separated parts,
/// each a `u8` once surrounding whitespace is trimmed.
pub open spec fn rgb_by_text(s: Seq<char>) -> Option<Color> {
    let parts = split_spec(s, ',');
    if parts.len() == 3 {
        match (parse_u8_spec(trim_spec(parts[0])), parse_u8_spec(trim_spec(parts[1])), parse_u8_spec(trim_spec(parts[2]))) {
            (Some(r), Some(g), Some(b)) => Some(Color { r, g, b, a: 255 }),
            _ => None,
        }
    } else {
        None
    }
}

/// A `u32` field after loading: the `u64` setting truncated, or kept.
pub open spec fn u32_after(old: u32, setting: Option<u64>) -> u32 {
    match setting {
        Some(v) => v as u32,
        None => old,
    }
}

/// A boolean field after loading: the setting, or kept.
pub open spec fn bool_after(old: bool, setting: Option<bool>) -> bool {
    match setting {
        Some(v) => v,
        None => old,
    }
}

/// The configuration after loading INI entries: each setting that is
/// present and well-formed replaces its field; every other field is kept.
pub open spec fn apply_spec(c: GameConfigView, m: Map<(Seq<char>, Seq<char>), Option<Seq<char>>>) -> GameConfigView {
    GameConfigView {
        render_width: u32_after(c.render_width, uint_setting(m, "render"@, "width"@)),
        render_height: u32_after(c.render_height, uint_setting(m, "render"@, "height"@)),
        window_width: u32_after(c.window_width, uint_setting(m, "window"@, "width"@)),
        window_height: u32_after(c.window_height, uint_setting(m, "window"@, "height"@)),
        target_fps: u32_after(c.target_fps, uint_setting(m, "window"@, "target_fps"@)),
        vsync: bool_after(c.vsync, bool_setting(m, "window"@, "vsync"@)),
        fullscreen: bool_after(c.fullscreen, bool_setting(m, "window"@, "fullscreen"@)),
        pixel_snap_camera: bool_after(c.pixel_snap_camera, bool_setting(m, "render"@, "pixel_snap_camera"@)),
        render_target_filter: match ini_value(m, "render"@, "render_target_filter"@) {
            Some(f) => texture_filter_by_name(f),
            None => c.render_target_filter,
        },
        background_color: match ini_value(m, "render"@, "background_color"@) {
            Some(bg) => match rgb_by_text(bg) {
                Some(color) => color,
                None => c.background_color,
            },
            None => c.background_color,
        },
        window_title: match ini_value(m, "window"@, "title"@) {
            Some(t) => t,
            None => c.window_title,
        },
        config_path: c.config_path,
    }
}

/// Parse `"r,g,b"` into an opaque color.
fn rgb_from_str(s: &str) -> (r: Option<Color>)
    ensures
        r == rgb_by_text(s@),
{
    match split3(s, ',') {
        Some((a, b, c)) => {
            let r = parse_u8(trim(a));
            let g = parse_u8(trim(b));
            let bl = parse_u8(trim(c));
            match (r, g, bl) {
                (Some(r), Some(g), Some(b)) => Some(Color { r, g, b, a: 255 }),
                _ => None,
            }
        },
        None => None,
    }
}

fn uint_or_none(r: Result<Option<u64>, String>) -> (v: Option<u64>)
    ensures
        v == match r {
            Ok(x) => x,
            Err(_) => None,
        },
{
    match r {
        Ok(x) => x,
        Err(_) => None,
    }
}

fn bool_or_none(r: Result<Option<bool>, String>) -> (v: Option<bool>)
    ensures
        v == match r {
            Ok(x) => x,
            Err(_) => None,
        },
{
    match r {
        Ok(x) => x,
        Err(_) => None,
    }
}

/// The section and key names the configuration reads are left unchanged by
/// case folding.
proof fn lemma_setting_names_lowercase()
    ensures
        is_lowercase_ascii("render"@),
        is_lowercase_ascii("window"@),
        is_lowercase_ascii("width"@),
        is_lowercase_ascii("height"@),
        is_lowercase_ascii("background_color"@),
        is_lowercase_ascii("target_fps"@),
        is_lowercase_ascii("vsync"@),
        is_lowercase_ascii("fullscreen"@),
        is_lowercase_ascii("pixel_snap_camera"@),
        is_lowercase_ascii("render_target_filter"@),
        is_lowercase_ascii("title"@),
{
    reveal_strlit("render");
    assert(is_lowercase_ascii("render"@));
    reveal_strlit("window");
    assert(is_lowercase_ascii("window"@));
    reveal_strlit("width");
    assert(is_lowercase_ascii("width"@));
    reveal_strlit("height");
    assert(is_lowercase_ascii("height"@));
    reveal_strlit("background_color");
    assert(is_lowercase_ascii("background_color"@));
    reveal_strlit("target_fps");
    assert(is_lowercase_ascii("target_fps"@));
    reveal_strlit("vsync");
    assert(is_lowercase_ascii("vsync"@));
    reveal_strlit("fullscreen");
    assert(is_lowercase_ascii("fullscreen"@));
    reveal_strlit("pixel_snap_camera");
    assert(is_lowercase_ascii("pixel_snap_camera"@));
    reveal_strlit("render_target_filter");
    assert(is_lowercase_ascii("render_target_filter"@));
    reveal_strlit("title");
    assert(is_lowercase_ascii("title"@));
}

/// Without cascading, an `Ini` reads exactly what it stores.
proof fn lemma_read_without_cascade(ini: Ini)
    requires
        !ini_cascades(ini),
    ensures
        forall|s: Seq<char>, k: Seq<char>|
            #[trigger] ini_value(ini_settings_read(ini), s, k) == ini_value(ini_entries(ini), s, k),
{
}

/// A `u32` field after reading its setting: the parsed `u64` truncated, or `old`.
fn u32_setting(config: &Ini, section: &str, key: &str, old: u32) -> (r: u32)
    requires
        is_lowercase_ascii(section@),
        is_lowercase_ascii(key@),
        ini_getters_return(*config),
    ensures
        r == u32_after(old, uint_setting(ini_settings_read(*config), section@, key@)),
{
    match uint_or_none(ini_getuint(config, section, key)) {
        Some(v) => v as u32,
        None => old,
    }
}

/// A boolean field after reading its setting: the parsed flag, or `old`.
fn flag_setting(config: &Ini, section: &str, key: &str, old: bool) -> (r: bool)
    requires
        is_lowercase_ascii(section@),
        is_lowercase_ascii(key@),
        ini_getters_return(*config),
    ensures
        r == bool_after(old, bool_setting(ini_settings_read(*config), section@, key@)),
{
    match bool_or_none(ini_getbool(config, section, key)) {
        Some(v) => v,
        None => old,
    }
}

/// The configuration the engine started with, kept to restore defaults.
#[derive(Clone, Debug)]
pub struct GameConfigDefaults(pub GameConfig);

impl Default for GameConfig {
    fn default() -> (r: Self)
        ensures
            r@ == default_config("./config.ini"@),
    {
        Self::new()
    }
}

impl GameConfig {
    /// A configuration with safe default values.
    pub fn new() -> (r: Self)
        ensures
            r@ == default_config("./config.ini"@),
    {
        GameConfig {
            render_width: 640,
            render_height: 360,
            window_width: 1280,
            window_height: 720,
            target_fps: 120,
            vsync: true,
            fullscreen: false,
            pixel_snap_camera: true,
            render_target_filter: TextureFilter::Nearest,
            background_color: Color { r: 80, g: 80, b: 80, a: 255 },
            window_title: String::from_str("Aberred Engine"),
            config_path: String::from_str("./config.ini"),
        }
    }

    /// The default configuration with a custom config file path.
    pub fn with_path(path: &str) -> (r: Self)
        ensures
            r@ == default_config(path@),
    {
        let mut config = Self::new();
        config.config_path = String::from_str(path);
        config
    }

    /// Load configuration from INI text. Missing or malformed values keep
    /// their current values; a text that does not parse is an error and
    /// changes nothing.
    pub fn load_from_str(&mut self, content: &str) -> (r: Result<(), String>)
        ensures
            match ini_parse(content@) {
                Ok(m) => r is Ok && final(self)@ == apply_spec(old(self)@, m),
                Err(e) => r matches Err(msg) && msg@ == "Failed to parse config: "@ + e && final(self)@ == old(self)@,
            },
    {
        let mut config = ini_new();
        match ini_read(&mut config, String::from_str(content)) {
            Ok(()) => {
                self.apply_ini(&config);
                proof {
                    lemma_read_without_cascade(config);
                }
                Ok(())
            },
            Err(e) => {
                let mut msg = String::from_str("Failed to parse config: ");
                msg.append(e.as_str());
                Err(msg)
            },
        }
    }

    /// Apply the values a parsed INI reads: each setting that is present and
    /// well-formed replaces its field; every other field is kept. The `Ini`s
    /// whose typed getters would recurse without end are left out.
    pub fn apply_ini(&mut self, config: &Ini)
        requires
            ini_getters_return(*config),
        ensures
            final(self)@ == apply_spec(old(self)@, ini_settings_read(*config)),
    {
        proof {
            lemma_setting_names_lowercase();
        }
        let render_width = u32_setting(config, "render", "width", self.render_width);
        let render_height = u32_setting(config, "render", "height", self.render_height);
        let background_color = match ini_get(config, "render", "background_color") {
            Some(bg) => match rgb_from_str(bg.as_str()) {
                Some(color) => color,
                None => self.background_color,
            },
            None => self.background_color,
        };
        let window_width = u32_setting(config, "window", "width", self.window_width);
        let window_height = u32_setting(config, "window", "height", self.window_height);
        let target_fps = u32_setting(config, "window", "target_fps", self.target_fps);
        let vsync = flag_setting(config, "window", "vsync", self.vsync);
        let fullscreen = flag_setting(config, "window", "fullscreen", self.fullscreen);
        let pixel_snap_camera = flag_setting(config, "render", "pixel_snap_camera", self.pixel_snap_camera);
        let render_target_filter = match ini_get(config, "render", "render_target_filter") {
            Some(filter) => TextureFilter::from_opt_str(Some(filter.as_str())),
            None => self.render_target_filter,
        };
        self.render_width = render_width;
        self.render_height = render_height;
        self.background_color = background_color;
        self.window_width = window_width;
        self.window_height = window_height;
        self.target_fps = target_fps;
        self.vsync = vsync;
        self.fullscreen = fullscreen;
        self.pixel_snap_camera = pixel_snap_camera;
        self.render_target_filter = render_target_filter;
        if let Some(title) = ini_get(config, "window", "title") {
            self.window_title = title;
        }
    }

    /// Set the render resolution.
    pub fn set_render_size(&mut self, width: u32, height: u32)
        ensures
            final(self)@ == (GameConfigView { render_width: width, render_height: height, ..old(self)@ }),
    {
        self.render_width = width;
        self.render_height = height;
    }

    /// Set the window size.
    pub fn set_window_size(&mut self, width: u32, height: u32)
        ensures
            final(self)@ == (GameConfigView { window_width: width, window_height: height, ..old(self)@ }),
    {
        self.window_width = width;
        self.window_height = height;
    }

    /// The window size.
    pub fn window_size(&self) -> (r: (u32, u32))
        ensures
            r == (self.window_width, self.window_height),
    {
        (self.window_width, self.window_height)
    }
}

/// `bool::to_string`.
pub open spec fn bool_text(b: bool) -> Seq<char> {
    if b {
        "true"@
    } else {
        "false"@
    }
}

/// `"r,g,b"` in decimal.
pub open spec fn rgb_text(c: Color) -> Seq<char> {
    decimal(c.r as nat) + seq![','] + decimal(c.g as nat) + seq![','] + decimal(c.b as nat)
}

/// The (section, key, value) settings that saving writes, in order.
pub open spec fn saved_settings(c: GameConfigView) -> Seq<(Seq<char>, Seq<char>, Seq<char>)> {
    seq![
        ("render"@, "width"@, decimal(c.render_width as nat)),
        ("render"@, "height"@, decimal(c.render_height as nat)),
        ("render"@, "background_color"@, rgb_text(c.background_color)),
        ("window"@, "width"@, decimal(c.window_width as nat)),
        ("window"@, "height"@, decimal(c.window_height as nat)),
        ("window"@, "target_fps"@, decimal(c.target_fps as nat)),
        ("window"@, "vsync"@, bool_text(c.vsync)),
        ("window"@, "fullscreen"@, bool_text(c.fullscreen)),
        ("window"@, "title"@, c.window_title),
    ]
}

/// The entries an INI holds after setting each (section, key, value) in
/// order on an empty one.
pub open spec fn entries_of_settings(settings: Seq<(Seq<char>, Seq<char>, Seq<char>)>) -> Map<
    (Seq<char>, Seq<char>),
    Option<Seq<char>>,
>
    decreases settings.len(),
{
    if settings.len() == 0 {
        Map::empty()
    } else {
        let (s, k, v) = settings.last();
        entries_of_settings(settings.drop_last()).insert((s, k), Some(v))
    }
}

/// The texts of a list of string triples.
pub open spec fn triples_view(v: Seq<(String, String, String)>) -> Seq<(Seq<char>, Seq<char>, Seq<char>)> {
    v.map_values(|t: (String, String, String)| (t.0@, t.1@, t.2@))
}

fn bool_string(b: bool) -> (r: String)
    ensures
        r@ == bool_text(b),
{
    if b {
        String::from_str("true")
    } else {
        String::from_str("false")
    }
}

fn setting(section: &str, key: &str, value: String) -> (r: (String, String, String))
    ensures
        r.0@ == section@ && r.1@ == key@ && r.2@ == value@,
{
    (String::from_str(section), String::from_str(key), value)
}

impl GameConfig {
    /// The (section, key, value) settings that saving the configuration
    /// writes: render size and background color, window size, frame rate,
    /// vsync, fullscreen and title.
    pub fn ini_settings(&self) -> (r: Vec<(String, String, String)>)
        ensures
            triples_view(r@) == saved_settings(self@),
    {
        let mut rgb = decimal_string(self.background_color.r as u64);
        rgb.append(",");
        rgb.append(decimal_string(self.background_color.g as u64).as_str());
        rgb.append(",");
        rgb.append(decimal_string(self.background_color.b as u64).as_str());
        proof {
            reveal_strlit(",");
        }
        assert(rgb@ =~= rgb_text(self.background_color));
        let r = vec![
            setting("render", "width", decimal_string(self.render_width as u64)),
            setting("render", "height", decimal_string(self.render_height as u64)),
            setting("render", "background_color", rgb),
            setting("window", "width", decimal_string(self.window_width as u64)),
            setting("window", "height", decimal_string(self.window_height as u64)),
            setting("window", "target_fps", decimal_string(self.target_fps as u64)),
            setting("window", "vsync", bool_string(self.vsync)),
            setting("window", "fullscreen", bool_string(self.fullscreen)),
            setting("window", "title", self.window_title.clone()),
        ];
        assert(triples_view(r@) =~= saved_settings(self@));
        r
    }
}

impl GameConfig {
    /// The INI that saving the configuration writes: an `Ini` with the
    /// default options holding each of [`ini_settings`](Self::ini_settings)
    /// set in order.
    pub fn to_ini(&self) -> (r: Ini)
        ensures
            ini_has_default_options(r),
            !ini_cascades(r),
            !ini_case_sensitive(r),
            ini_entries(r) == entries_of_settings(saved_settings(self@)),
    {
        let settings = self.ini_settings();
        let mut ini = ini_new();
        let mut i: usize = 0;
        proof {
            lemma_setting_names_lowercase();
            assert(triples_view(settings@).take(0) =~= Seq::<(Seq<char>, Seq<char>, Seq<char>)>::empty());
        }
        while i < settings.len()
            invariant
                i <= settings.len(),
                triples_view(settings@) == saved_settings(self@),
                ini_has_default_options(ini),
                !ini_cascades(ini),
                !ini_case_sensitive(ini),
                ini_entries(ini) == entries_of_settings(triples_view(settings@).take(i as int)),
                forall|j: int|
                    0 <= j < settings.len() ==> is_lowercase_ascii(#[trigger] triples_view(settings@)[j].0)
                        && is_lowercase_ascii(triples_view(settings@)[j].1),
            decreases settings.len() - i,
        {
            let entry = &settings[i];
            assert(triples_view(settings@)[i as int] == (entry.0@, entry.1@, entry.2@));
            ini_set(&mut ini, entry.0.as_str(), entry.1.as_str(), entry.2.clone());
            assert(triples_view(settings@).take(i + 1).drop_last() =~= triples_view(settings@).take(i as int));
            i = i + 1;
        }
        assert(triples_view(settings@).take(settings.len() as int) =~= triples_view(settings@));
        ini
    }
}

/// The names of the settings and the boolean texts, told apart by their
/// lengths and end characters.
proof fn lemma_setting_names_distinct()
    ensures
        name_sig("render"@) == (6nat, 'r', 'e', 'r'),
        name_sig("window"@) == (6nat, 'w', 'o', 'w'),
        name_sig("width"@) == (5nat, 'w', 't', 'h'),
        name_sig("height"@) == (6nat, 'h', 'h', 't'),
        name_sig("background_color"@) == (16nat, 'b', 'o', 'r'),
        name_sig("target_fps"@) == (10nat, 't', 'p', 's'),
        name_sig("vsync"@) == (5nat, 'v', 'n', 'c'),
        name_sig("fullscreen"@) == (10nat, 'f', 'e', 'n'),
        name_sig("title"@) == (5nat, 't', 'l', 'e'),
        name_sig("pixel_snap_camera"@) == (17nat, 'p', 'r', 'a'),
        name_sig("render_target_filter"@) == (20nat, 'r', 'e', 'r'),
        name_sig("true"@) == (4nat, 't', 'u', 'e'),
        name_sig("false"@) == (5nat, 'f', 's', 'e'),
{
    reveal_strlit("render");
    assert(name_sig("render"@) == (6nat, 'r', 'e', 'r'));
    reveal_strlit("window");
    assert(name_sig("window"@) == (6nat, 'w', 'o', 'w'));
    reveal_strlit("width");
    assert(name_sig("width"@) == (5nat, 'w', 't', 'h'));
    reveal_strlit("height");
    assert(name_sig("height"@) == (6nat, 'h', 'h', 't'));
    reveal_strlit("background_color");
    assert(name_sig("background_color"@) == (16nat, 'b', 'o', 'r'));
    reveal_strlit("target_fps");
    assert(name_sig("target_fps"@) == (10nat, 't', 'p', 's'));
    reveal_strlit("vsync");
    assert(name_sig("vsync"@) == (5nat, 'v', 'n', 'c'));
    reveal_strlit("fullscreen");
    assert(name_sig("fullscreen"@) == (10nat, 'f', 'e', 'n'));
    reveal_strlit("title");
    assert(name_sig("title"@) == (5nat, 't', 'l', 'e'));
    reveal_strlit("pixel_snap_camera");
    assert(name_sig("pixel_snap_camera"@) == (17nat, 'p', 'r', 'a'));
    reveal_strlit("render_target_filter");
    assert(name_sig("render_target_filter"@) == (20nat, 'r', 'e', 'r'));
    reveal_strlit("true");
    assert(name_sig("true"@) == (4nat, 't', 'u', 'e'));
    reveal_strlit("false");
    assert(name_sig("false"@) == (5nat, 'f', 's', 'e'));
}

/// A decimal rendering has no surrounding whitespace and no comma, and
/// parses back to its number.
proof fn lemma_decimal_setting(n: nat)
    ensures
        trim_spec(decimal(n)) == decimal(n),
        forall|i: int| 0 <= i < decimal(n).len() ==> decimal(n)[i] != ',',
        n <= u64::MAX ==> parse_u64_spec(decimal(n)) == Some(n as u64),
        n <= u8::MAX ==> parse_u8_spec(decimal(n)) == Some(n as u8),
{
    lemma_decimal_parses(n);
    let d = decimal(n);
    assert(crate::text::is_digit(d[0]));
    assert(crate::text::is_digit(d.last()));
    assert(crate::text::trim_start_spec(d) == d);
    assert(crate::text::trim_end_spec(d) == d);
    assert(unsigned_grammar(d) == Some(n));
}

/// Splitting text that starts with a piece free of `c`, then `c`.
proof fn lemma_split_piece(a: Seq<char>, rest: Seq<char>, c: char)
    requires
        forall|i: int| 0 <= i < a.len() ==> a[i] != c,
    ensures
        split_spec(a + seq![c] + rest, c) == seq![a] + split_spec(rest, c),
{
    let s = a + seq![c] + rest;
    assert forall|j: int| 0 <= j < a.len() implies s[j] != c by {
        assert(s[j] == a[j]);
    }
    assert(s[a.len() as int] == c);
    crate::text::lemma_first_index_of(s, c, a.len() as int);
    assert(s.take(a.len() as int) =~= a);
    assert(s.skip(a.len() as int + 1) =~= rest);
}

/// Splitting text free of `c` gives the text itself.
proof fn lemma_split_whole(a: Seq<char>, c: char)
    requires
        forall|i: int| 0 <= i < a.len() ==> a[i] != c,
    ensures
        split_spec(a, c) == seq![a],
{
    crate::text::lemma_first_index_of(a, c, a.len() as int);
}

/// Splitting `"r,g,b"` at commas gives the three decimal renderings.
proof fn lemma_rgb_text_split(c: Color)
    ensures
        split_spec(rgb_text(c), ',') == seq![decimal(c.r as nat), decimal(c.g as nat), decimal(c.b as nat)],
{
    let r = decimal(c.r as nat);
    let g = decimal(c.g as nat);
    let b = decimal(c.b as nat);
    lemma_decimal_setting(c.r as nat);
    lemma_decimal_setting(c.g as nat);
    lemma_decimal_setting(c.b as nat);
    let s1 = g + seq![','] + b;
    assert(rgb_text(c) =~= r + seq![','] + s1);
    lemma_split_piece(r, s1, ',');
    lemma_split_piece(g, b, ',');
    lemma_split_whole(b, ',');
    assert(split_spec(rgb_text(c), ',') =~= seq![r, g, b]);
}

/// Each setting is read from its documented section and key: the field it
/// sets depends on that entry alone, and keeps its value when the entry is
/// absent. The file path is never read from the file.
pub proof fn lemma_settings_read_own_keys(
    c: GameConfigView,
    m1: Map<(Seq<char>, Seq<char>), Option<Seq<char>>>,
    m2: Map<(Seq<char>, Seq<char>), Option<Seq<char>>>,
)
    ensures
        ini_value(m1, "render"@, "width"@) == ini_value(m2, "render"@, "width"@)
            ==> apply_spec(c, m1).render_width == apply_spec(c, m2).render_width,
        ini_value(m1, "render"@, "width"@) is None ==> apply_spec(c, m1).render_width == c.render_width,
        ini_value(m1, "render"@, "height"@) == ini_value(m2, "render"@, "height"@)
            ==> apply_spec(c, m1).render_height == apply_spec(c, m2).render_height,
        ini_value(m1, "render"@, "height"@) is None ==> apply_spec(c, m1).render_height == c.render_height,
        ini_value(m1, "window"@, "width"@) == ini_value(m2, "window"@, "width"@)
            ==> apply_spec(c, m1).window_width == apply_spec(c, m2).window_width,
        ini_value(m1, "window"@, "width"@) is None ==> apply_spec(c, m1).window_width == c.window_width,
        ini_value(m1, "window"@, "height"@) == ini_value(m2, "window"@, "height"@)
            ==> apply_spec(c, m1).window_height == apply_spec(c, m2).window_height,
        ini_value(m1, "window"@, "height"@) is None ==> apply_spec(c, m1).window_height == c.window_height,
        ini_value(m1, "window"@, "target_fps"@) == ini_value(m2, "window"@, "target_fps"@)
            ==> apply_spec(c, m1).target_fps == apply_spec(c, m2).target_fps,
        ini_value(m1, "window"@, "target_fps"@) is None ==> apply_spec(c, m1).target_fps == c.target_fps,
        ini_value(m1, "window"@, "vsync"@) == ini_value(m2, "window"@, "vsync"@)
            ==> apply_spec(c, m1).vsync == apply_spec(c, m2).vsync,
        ini_value(m1, "window"@, "vsync"@) is None ==> apply_spec(c, m1).vsync == c.vsync,
        ini_value(m1, "window"@, "fullscreen"@) == ini_value(m2, "window"@, "fullscreen"@)
            ==> apply_spec(c, m1).fullscreen == apply_spec(c, m2).fullscreen,
        ini_value(m1, "window"@, "fullscreen"@) is None ==> apply_spec(c, m1).fullscreen == c.fullscreen,
        ini_value(m1, "render"@, "pixel_snap_camera"@) == ini_value(m2, "render"@, "pixel_snap_camera"@)
            ==> apply_spec(c, m1).pixel_snap_camera == apply_spec(c, m2).pixel_snap_camera,
        ini_value(m1, "render"@, "pixel_snap_camera"@) is None ==> apply_spec(c, m1).pixel_snap_camera == c.pixel_snap_camera,
        ini_value(m1, "render"@, "render_target_filter"@) == ini_value(m2, "render"@, "render_target_filter"@)
            ==> apply_spec(c, m1).render_target_filter == apply_spec(c, m2).render_target_filter,
        ini_value(m1, "render"@, "render_target_filter"@) is None ==> apply_spec(c, m1).render_target_filter == c.render_target_filter,
        ini_value(m1, "render"@, "background_color"@) == ini_value(m2, "render"@, "background_color"@)
            ==> apply_spec(c, m1).background_color == apply_spec(c, m2).background_color,
        ini_value(m1, "render"@, "background_color"@) is None ==> apply_spec(c, m1).background_color == c.background_color,
        ini_value(m1, "window"@, "title"@) == ini_value(m2, "window"@, "title"@)
            ==> apply_spec(c, m1).window_title == apply_spec(c, m2).window_title,
        ini_value(m1, "window"@, "title"@) is None ==> apply_spec(c, m1).window_title == c.window_title,
        apply_spec(c, m1).config_path == c.config_path,
{
}

/// What a well-formed setting sets its field to: a decimal number that fits
/// in a `u32` that number, `true` or `false` that flag, a filter name the
/// filter it names, `"r,g,b"` that opaque color, and the title text itself.
pub proof fn lemma_setting_values(
    c: GameConfigView,
    m: Map<(Seq<char>, Seq<char>), Option<Seq<char>>>,
    n: u32,
    b: bool,
    color: Color,
    t: Seq<char>,
)
    ensures
        ini_value(m, "render"@, "width"@) == Some(decimal(n as nat)) ==> apply_spec(c, m).render_width == n,
        ini_value(m, "render"@, "height"@) == Some(decimal(n as nat)) ==> apply_spec(c, m).render_height == n,
        ini_value(m, "window"@, "width"@) == Some(decimal(n as nat)) ==> apply_spec(c, m).window_width == n,
        ini_value(m, "window"@, "height"@) == Some(decimal(n as nat)) ==> apply_spec(c, m).window_height == n,
        ini_value(m, "window"@, "target_fps"@) == Some(decimal(n as nat)) ==> apply_spec(c, m).target_fps == n,
        ini_value(m, "window"@, "vsync"@) == Some(bool_text(b)) ==> apply_spec(c, m).vsync == b,
        ini_value(m, "window"@, "fullscreen"@) == Some(bool_text(b)) ==> apply_spec(c, m).fullscreen == b,
        ini_value(m, "render"@, "pixel_snap_camera"@) == Some(bool_text(b)) ==> apply_spec(c, m).pixel_snap_camera == b,
        ini_value(m, "render"@, "render_target_filter"@) == Some(t)
            ==> apply_spec(c, m).render_target_filter == texture_filter_by_name(t),
        color.a == 255 && ini_value(m, "render"@, "background_color"@) == Some(rgb_text(color))
            ==> apply_spec(c, m).background_color == color,
        ini_value(m, "window"@, "title"@) == Some(t) ==> apply_spec(c, m).window_title == t,
{
    lemma_decimal_setting(n as nat);
    lemma_decimal_setting(color.r as nat);
    lemma_decimal_setting(color.g as nat);
    lemma_decimal_setting(color.b as nat);
    lemma_rgb_text_split(color);
    assert(eq_ignore_ascii_case("true"@, "true"@));
    assert(eq_ignore_ascii_case("false"@, "false"@));
    reveal_strlit("true");
    reveal_strlit("false");
    assert(!eq_ignore_ascii_case("false"@, "true"@));
}

/// Loading what saving a configuration writes restores the saved fields:
/// render size, window size, frame rate, vsync, fullscreen, title and the
/// background color (saved without alpha, reloaded opaque). The other
/// fields keep the values of the configuration it is loaded into.
pub proof fn lemma_saved_settings_reload(saved: GameConfigView, into: GameConfigView)
    requires
        saved.background_color.a == 255,
    ensures
        ({
            let r = apply_spec(into, entries_of_settings(saved_settings(saved)));
            &&& r.render_width == saved.render_width
            &&& r.render_height == saved.render_height
            &&& r.window_width == saved.window_width
            &&& r.window_height == saved.window_height
            &&& r.target_fps == saved.target_fps
            &&& r.vsync == saved.vsync
            &&& r.fullscreen == saved.fullscreen
            &&& r.window_title == saved.window_title
            &&& r.background_color == saved.background_color
            &&& r.pixel_snap_camera == into.pixel_snap_camera
            &&& r.render_target_filter == into.render_target_filter
            &&& r.config_path == into.config_path
        }),
{
    lemma_setting_names_distinct();
    reveal_with_fuel(entries_of_settings, 10);
    let m = entries_of_settings(saved_settings(saved));
    lemma_decimal_setting(saved.render_width as nat);
    lemma_decimal_setting(saved.render_height as nat);
    lemma_decimal_setting(saved.window_width as nat);
    lemma_decimal_setting(saved.window_height as nat);
    lemma_decimal_setting(saved.target_fps as nat);
    lemma_decimal_setting(saved.background_color.r as nat);
    lemma_decimal_setting(saved.background_color.g as nat);
    lemma_decimal_setting(saved.background_color.b as nat);
    lemma_rgb_text_split(saved.background_color);
    assert(eq_ignore_ascii_case("true"@, "true"@));
    assert(eq_ignore_ascii_case("false"@, "false"@));
    reveal_strlit("true");
    reveal_strlit("false");
    assert(!eq_ignore_ascii_case("false"@, "true"@));
}

} // verus!
