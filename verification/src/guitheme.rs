//! GUI themes: nine-patch skins for panels, buttons and labels, a named
//! store of themes, and a cache that reports each theme warning once.
//!
//! A nine-patch's source rectangle and a theme's font size are
//! floating-point; they are kept beside these values by the renderer.
use vstd::prelude::*;

use crate::color::Color;
use crate::warn_once::first_seen;
use crate::text::{lemma_lookup_first_at, lemma_lookup_first_push, lemma_lookup_first_update, lookup_first, str_eq, texts};

verus! {

/// Theme key used by widgets that never set one.
pub const DEFAULT_GUI_THEME_KEY: &'static str = "default";

/// Nine-patch metadata of one themed visual: a texture and its border
/// offsets in pixels.
#[derive(Clone, Debug)]
pub struct GuiNinePatch {
    pub tex_key: String,
    pub left: i32,
    pub top: i32,
    pub right: i32,
    pub bottom: i32,
}

impl Default for GuiNinePatch {
    fn default() -> (r: Self)
        ensures
            r.tex_key@.len() == 0,
            r.left == 0 && r.top == 0 && r.right == 0 && r.bottom == 0,
    {
        GuiNinePatch { tex_key: String::new(), left: 0, top: 0, right: 0, bottom: 0 }
    }
}

impl GuiNinePatch {
    /// Whether this patch was never set (its texture key is still empty).
    pub fn is_unset(&self) -> (r: bool)
        ensures
            r == (self.tex_key@.len() == 0),
    {
        self.tex_key.as_str().is_empty()
    }
}

/// Per-state skin of a button; `hover`/`pressed`/`disabled` fall back to
/// `normal` when unset.
#[derive(Clone, Debug)]
pub struct GuiButtonSkin {
    pub normal: GuiNinePatch,
    pub hover: Option<GuiNinePatch>,
    pub pressed: Option<GuiNinePatch>,
    pub disabled: Option<GuiNinePatch>,
}

impl Default for GuiButtonSkin {
    fn default() -> (r: Self)
        ensures
            r.normal.tex_key@.len() == 0,
            r.hover is None && r.pressed is None && r.disabled is None,
    {
        GuiButtonSkin { normal: GuiNinePatch::default(), hover: None, pressed: None, disabled: None }
    }
}

/// One named theme's worth of GUI styling.
#[derive(Clone, Debug)]
pub struct GuiTheme {
    pub panel: GuiNinePatch,
    pub button: Option<GuiButtonSkin>,
    pub label: Option<GuiNinePatch>,
    pub font: String,
    pub text_color: Color,
}

impl Default for GuiTheme {
    /// No skins, no font, white text.
    fn default() -> (r: Self)
        ensures
            r.panel.tex_key@.len() == 0,
            r.button is None,
            r.label is None,
            r.font@.len() == 0,
            r.text_color == (Color { r: 255, g: 255, b: 255, a: 255 }),
    {
        GuiTheme {
            panel: GuiNinePatch::default(),
            button: None,
            label: None,
            font: String::new(),
            text_color: Color::white(),
        }
    }
}

impl GuiTheme {
    /// Clear `button` if its skin's `normal` patch was never set. Returns
    /// `false` exactly when it did so.
    pub fn drop_invalid_button_skin(&mut self) -> (r: bool)
        ensures
            r == !(old(self).button matches Some(skin) && skin.normal.tex_key@.len() == 0),
            final(self).button == (if r { old(self).button } else { None }),
            final(self).panel == old(self).panel,
            final(self).label == old(self).label,
            final(self).font == old(self).font,
            final(self).text_color == old(self).text_color,
    {
        let invalid = match &self.button {
            Some(skin) => skin.normal.is_unset(),
            None => false,
        };
        if invalid {
            self.button = None;
            return false;
        }
        true
    }
}

/// Named store of GUI themes.
#[derive(Clone, Debug)]
pub struct GuiThemeStore {
    pub themes: Vec<(String, GuiTheme)>,
}

/// The keys and themes of a store.
pub open spec fn theme_entries(themes: Seq<(String, GuiTheme)>) -> Seq<(Seq<char>, GuiTheme)> {
    themes.map_values(|e: (String, GuiTheme)| (e.0@, e.1))
}

impl Default for GuiThemeStore {
    fn default() -> (r: Self)
        ensures
            r.themes@.len() == 0,
    {
        GuiThemeStore { themes: Vec::new() }
    }
}

impl GuiThemeStore {
    /// The theme stored under `key`.
    pub fn get(&self, key: &str) -> (r: Option<&GuiTheme>)
        ensures
            match r {
                Some(t) => lookup_first(theme_entries(self.themes@), key@) == Some(*t),
                None => lookup_first(theme_entries(self.themes@), key@) is None,
            },
    {
        match self.position(key) {
            Some(i) => Some(&self.themes[i].1),
            None => None,
        }
    }

    /// Store `theme` under `key`, replacing the theme stored there before.
    pub fn insert(&mut self, key: &str, theme: GuiTheme)
        ensures
            forall|k: Seq<char>|
                #[trigger] lookup_first(theme_entries(final(self).themes@), k) == if k == key@ {
                    Some(theme)
                } else {
                    lookup_first(theme_entries(old(self).themes@), k)
                },
    {
        let ghost before = theme_entries(self.themes@);
        match self.position(key) {
            Some(i) => {
                let name = self.themes[i].0.clone();
                self.themes.set(i, (name, theme));
                assert(theme_entries(self.themes@) =~= before.update(i as int, (before[i as int].0, theme)));
                proof {
                    assert forall|k: Seq<char>|
                        #[trigger] lookup_first(theme_entries(self.themes@), k) == if k == key@ {
                            Some(theme)
                        } else {
                            lookup_first(before, k)
                        } by {
                        lemma_lookup_first_update(before, i as int, theme, k);
                    }
                }
            },
            None => {
                self.themes.push((String::from_str(key), theme));
                assert(theme_entries(self.themes@) =~= before.push((key@, theme)));
                proof {
                    assert forall|k: Seq<char>|
                        #[trigger] lookup_first(theme_entries(self.themes@), k) == if k == key@ {
                            Some(theme)
                        } else {
                            lookup_first(before, k)
                        } by {
                        lemma_lookup_first_push(before, (key@, theme), k);
                    }
                }
            },
        }
    }

    /// The index of the first entry with key `key`.
    fn position(&self, key: &str) -> (r: Option<usize>)
        ensures
            match r {
                Some(i) => i < self.themes@.len() && self.themes@[i as int].0@ == key@
                    && forall|j: int| 0 <= j < i ==> self.themes@[j].0@ != key@,
                None => forall|j: int| 0 <= j < self.themes@.len() ==> self.themes@[j].0@ != key@,
            },
            match r {
                Some(i) => lookup_first(theme_entries(self.themes@), key@) == Some(self.themes@[i as int].1),
                None => lookup_first(theme_entries(self.themes@), key@) is None,
            },
    {
        let mut i: usize = 0;
        while i < self.themes.len()
            invariant
                i <= self.themes.len(),
                forall|j: int| 0 <= j < i ==> self.themes@[j].0@ != key@,
            decreases self.themes.len() - i,
        {
            if str_eq(self.themes[i].0.as_str(), key) {
                proof {
                    lemma_lookup_first_at(theme_entries(self.themes@), key@, i as int);
                }
                return Some(i);
            }
            i = i + 1;
        }
        proof {
            lemma_lookup_first_at(theme_entries(self.themes@), key@, i as int);
        }
        None
    }
}

/// Remembers which theme warnings were reported, so each is reported once:
/// unknown theme keys, and themes whose button skin was dropped.
#[derive(Clone, Debug)]
pub struct GuiThemeWarnCache {
    warned_keys: Vec<String>,
    warned_invalid_button_skins: Vec<String>,
}

impl Default for GuiThemeWarnCache {
    fn default() -> (r: Self)
        ensures
            r.warned_keys() == Set::<Seq<char>>::empty(),
            r.warned_invalid_button_skins() == Set::<Seq<char>>::empty(),
    {
        let r = GuiThemeWarnCache { warned_keys: Vec::new(), warned_invalid_button_skins: Vec::new() };
        assert(texts(r.warned_keys@).to_set() =~= Set::<Seq<char>>::empty());
        assert(texts(r.warned_invalid_button_skins@).to_set() =~= Set::<Seq<char>>::empty());
        r
    }
}

impl GuiThemeWarnCache {
    /// Keys already reported as unknown.
    pub closed spec fn warned_keys(self) -> Set<Seq<char>> {
        texts(self.warned_keys@).to_set()
    }

    /// Keys whose invalid button skin was already reported.
    pub closed spec fn warned_invalid_button_skins(self) -> Set<Seq<char>> {
        texts(self.warned_invalid_button_skins@).to_set()
    }

    /// `true` the first time `key` is reported unknown, `false` after.
    pub fn warn_once(&mut self, key: &str) -> (r: bool)
        ensures
            r == !old(self).warned_keys().contains(key@),
            final(self).warned_keys() == old(self).warned_keys().insert(key@),
            final(self).warned_invalid_button_skins() == old(self).warned_invalid_button_skins(),
    {
        first_seen(&mut self.warned_keys, key)
    }

    /// `true` the first time `key`'s button skin is reported invalid,
    /// `false` after.
    pub fn warn_once_invalid_button_skin(&mut self, key: &str) -> (r: bool)
        ensures
            r == !old(self).warned_invalid_button_skins().contains(key@),
            final(self).warned_invalid_button_skins() == old(self).warned_invalid_button_skins().insert(key@),
            final(self).warned_keys() == old(self).warned_keys(),
    {
        first_seen(&mut self.warned_invalid_button_skins, key)
    }
}

} // verus!
