//! Themes: the built-in presets, user-saved themes, theme keys and their
//! resolution.
use crate::hex::{normalize_hex, normalize_hex_spec};
use crate::text::{
    decimal_text, lemma_decimal_text_parses, parse_decimal, parse_decimal_spec, push_decimal,
    str_eq, to_owned,
};
use vstd::prelude::*;
use vstd::string::StrSliceExecFns;
use vstd::string::StringExecFns;

verus! {

/// The key of the transient, unsaved theme.
pub open spec fn custom_key() -> Seq<char> {
    "custom"@
}

/// The prefix of the key of a saved theme.
pub open spec fn saved_prefix() -> Seq<char> {
    "saved:"@
}

/// The key that selects saved theme `index`.
pub open spec fn saved_key_spec(index: nat) -> Seq<char> {
    saved_prefix() + decimal_text(index)
}

/// The saved-theme index that a key selects, if it is a saved-theme key.
pub open spec fn saved_index_spec(key: Seq<char>) -> Option<nat> {
    if key.len() >= 6 && key.subrange(0, 6) == saved_prefix() {
        parse_decimal_spec(key.subrange(6, key.len() as int), usize::MAX as nat)
    } else {
        None
    }
}

/// A built-in theme: its key, display name and six colors (primary, accent,
/// highlight, background, surface, text).
pub struct ThemeDefinition {
    pub key: &'static str,
    pub name: &'static str,
    pub primary: &'static str,
    pub accent: &'static str,
    pub highlight: &'static str,
    pub background: &'static str,
    pub surface: &'static str,
    pub text: &'static str,
}

impl ThemeDefinition {
    pub open spec fn colors(&self) -> Seq<Seq<char>> {
        seq![
            self.primary@,
            self.accent@,
            self.highlight@,
            self.background@,
            self.surface@,
            self.text@,
        ]
    }
}

pub const PRESET_COUNT: usize = 5;

/// The built-in themes, in the order in which they are offered: key, name,
/// and the six colors.
pub open spec fn preset_table() -> Seq<(Seq<char>, Seq<char>, Seq<Seq<char>>)> {
    seq![
        ("classic"@, "Midnight Classic"@, seq!["#6FC6D4"@, "#0F1A2B"@, "#9FE6EC"@, "#314A63"@, "#416079"@, "#F2F8FF"@]),
        ("nord"@, "Nord"@, seq!["#5E81AC"@, "#D08770"@, "#76B3C5"@, "#3B4252"@, "#4C566A"@, "#ECEFF4"@]),
        ("gruvbox"@, "Midnight Mist"@, seq!["#66C3CF"@, "#0E1828"@, "#96DFE8"@, "#2C4156"@, "#3B5A72"@, "#F4FBFF"@]),
        ("dracula"@, "Midnight Dusk"@, seq!["#6BC6D7"@, "#142033"@, "#A1E6EC"@, "#2E475F"@, "#3E5D78"@, "#F5FBFF"@]),
        ("monokai"@, "Midnight Deep"@, seq!["#5FC0CD"@, "#0D1725"@, "#92DDE7"@, "#243A50"@, "#344F68"@, "#F6FCFF"@]),
    ]
}

/// `key` names a built-in theme.
pub open spec fn is_preset_key_spec(key: Seq<char>) -> bool {
    exists|i: int| 0 <= i < 5 && preset_table()[i].0 == key
}

/// The built-in theme at position `i`.
pub fn theme_preset(i: usize) -> (d: ThemeDefinition)
    requires
        i < PRESET_COUNT,
    ensures
        d.key@ == preset_table()[i as int].0,
        d.name@ == preset_table()[i as int].1,
        d.colors() == preset_table()[i as int].2,
{
    if i == 0 {
        ThemeDefinition {
            key: "classic",
            name: "Midnight Classic",
            primary: "#6FC6D4",
            accent: "#0F1A2B",
            highlight: "#9FE6EC",
            background: "#314A63",
            surface: "#416079",
            text: "#F2F8FF",
        }
    } else if i == 1 {
        ThemeDefinition {
            key: "nord",
            name: "Nord",
            primary: "#5E81AC",
            accent: "#D08770",
            highlight: "#76B3C5",
            background: "#3B4252",
            surface: "#4C566A",
            text: "#ECEFF4",
        }
    } else if i == 2 {
        ThemeDefinition {
            key: "gruvbox",
            name: "Midnight Mist",
            primary: "#66C3CF",
            accent: "#0E1828",
            highlight: "#96DFE8",
            background: "#2C4156",
            surface: "#3B5A72",
            text: "#F4FBFF",
        }
    } else if i == 3 {
        ThemeDefinition {
            key: "dracula",
            name: "Midnight Dusk",
            primary: "#6BC6D7",
            accent: "#142033",
            highlight: "#A1E6EC",
            background: "#2E475F",
            surface: "#3E5D78",
            text: "#F5FBFF",
        }
    } else {
        ThemeDefinition {
            key: "monokai",
            name: "Midnight Deep",
            primary: "#5FC0CD",
            accent: "#0D1725",
            highlight: "#92DDE7",
            background: "#243A50",
            surface: "#344F68",
            text: "#F6FCFF",
        }
    }
}

/// Finds the built-in theme with key `key`.
pub fn find_preset(key: &str) -> (r: Option<usize>)
    ensures
        match r {
            Some(i) => i < PRESET_COUNT && preset_table()[i as int].0 == key@ && forall|j: int|
                0 <= j < i ==> preset_table()[j].0 != key@,
            None => !is_preset_key_spec(key@),
        },
{
    let mut i: usize = 0;
    while i < PRESET_COUNT
        invariant
            i <= PRESET_COUNT,
            forall|j: int| 0 <= j < i ==> preset_table()[j].0 != key@,
        decreases PRESET_COUNT - i,
    {
        let d = theme_preset(i);
        if str_eq(d.key, key) {
            return Some(i);
        }
        i = i + 1;
    }
    None
}

/// Whether `key` names a built-in theme.
pub fn is_preset_theme_key(key: &str) -> (r: bool)
    ensures
        r == is_preset_key_spec(key@),
{
    find_preset(key).is_some()
}

/// The key of saved theme `index`: `saved:` and the index in decimal.
pub fn saved_theme_key(index: usize) -> (r: String)
    ensures
        r@ == saved_key_spec(index as nat),
{
    let mut r = String::from_str("saved:");
    push_decimal(&mut r, index as u64);
    r
}

/// The saved-theme index in a key of the form `saved:<index>`.
pub fn parse_saved_theme_key(key: &str) -> (r: Option<usize>)
    ensures
        r == match saved_index_spec(key@) {
            Some(i) => Some(i as usize),
            None => None::<usize>,
        },
{
    let n = key.unicode_len();
    if n < 6 {
        return None;
    }
    let head = key.substring_char(0, 6);
    if !str_eq(head, "saved:") {
        return None;
    }
    let rest = key.substring_char(6, n);
    match parse_decimal(rest, usize::MAX as u64) {
        Some(v) => Some(v as usize),
        None => None,
    }
}

/// A saved-theme key reads back as its index.
pub proof fn lemma_saved_key_round_trip(index: nat)
    requires
        index <= usize::MAX,
    ensures
        saved_index_spec(saved_key_spec(index)) == Some(index),
{
    let k = saved_key_spec(index);
    reveal_strlit("saved:");
    lemma_decimal_text_parses(index);
    assert(k.subrange(0, 6) =~= saved_prefix());
    assert(k.subrange(6, k.len() as int) =~= decimal_text(index));
}

/// The custom key is neither a built-in key nor a saved-theme key.
pub proof fn lemma_custom_key_is_distinct()
    ensures
        !is_preset_key_spec(custom_key()),
        saved_index_spec(custom_key()) is None,
{
    reveal_strlit("custom");
    reveal_strlit("classic");
    reveal_strlit("nord");
    reveal_strlit("gruvbox");
    reveal_strlit("dracula");
    reveal_strlit("monokai");
    assert(preset_table()[0].0 != custom_key());
    assert(preset_table()[1].0 != custom_key());
    assert(preset_table()[2].0 != custom_key());
    assert(preset_table()[3].0 != custom_key());
    assert(preset_table()[4].0 != custom_key());
}

/// A resolved palette: a display name and six normalized colors.
pub struct Theme {
    pub name: String,
    pub primary_hex: String,
    pub accent_hex: String,
    pub highlight_hex: String,
    pub background_hex: String,
    pub surface_hex: String,
    pub text_hex: String,
}

impl Theme {
    /// The six colors in the order primary, accent, highlight, background,
    /// surface, text.
    pub open spec fn colors(&self) -> Seq<Seq<char>> {
        seq![
            self.primary_hex@,
            self.accent_hex@,
            self.highlight_hex@,
            self.background_hex@,
            self.surface_hex@,
            self.text_hex@,
        ]
    }

    /// The theme named `name` with the normalized forms of `hexes`.
    pub open spec fn is_from(&self, name: Seq<char>, hexes: Seq<Seq<char>>) -> bool {
        &&& hexes.len() == 6
        &&& self.name@ == name
        &&& forall|k: int| 0 <= k < 6 ==> #[trigger] self.colors()[k] == normalize_hex_spec(hexes[k])
    }

    /// A theme from six color strings, each normalized.
    pub fn from_hexes(
        name: String,
        primary: &str,
        accent: &str,
        highlight: &str,
        background: &str,
        surface: &str,
        text: &str,
    ) -> (t: Theme)
        ensures
            t.is_from(name@, seq![primary@, accent@, highlight@, background@, surface@, text@]),
    {
        let t = Theme {
            name,
            primary_hex: normalize_hex(primary),
            accent_hex: normalize_hex(accent),
            highlight_hex: normalize_hex(highlight),
            background_hex: normalize_hex(background),
            surface_hex: normalize_hex(surface),
            text_hex: normalize_hex(text),
        };
        let ghost h = seq![primary@, accent@, highlight@, background@, surface@, text@];
        assert(forall|k: int| 0 <= k < 6 ==> #[trigger] t.colors()[k] == normalize_hex_spec(h[k]))
            by {
            assert(t.colors()[0] == normalize_hex_spec(h[0]));
            assert(t.colors()[1] == normalize_hex_spec(h[1]));
            assert(t.colors()[2] == normalize_hex_spec(h[2]));
            assert(t.colors()[3] == normalize_hex_spec(h[3]));
            assert(t.colors()[4] == normalize_hex_spec(h[4]));
            assert(t.colors()[5] == normalize_hex_spec(h[5]));
        }
        t
    }

    /// The built-in theme with key `name`, named by that key.
    pub fn from_name(name: &str) -> (r: Option<Theme>)
        ensures
            match r {
                Some(t) => is_preset_key_spec(name@) && exists|i: int|
                    0 <= i < 5 && preset_table()[i].0 == name@ && t.is_from(
                        name@,
                        preset_table()[i].2,
                    ),
                None => !is_preset_key_spec(name@),
            },
    {
        match find_preset(name) {
            Some(i) => {
                let d = theme_preset(i);
                let t = Theme::from_hexes(
                    to_owned(name),
                    d.primary,
                    d.accent,
                    d.highlight,
                    d.background,
                    d.surface,
                    d.text,
                );
                assert(d.colors() =~= seq![d.primary@, d.accent@, d.highlight@, d.background@, d.surface@, d.text@]);
                Some(t)
            },
            None => None,
        }
    }

    /// A theme from the colors of a theme file; a missing highlight takes
    /// the accent, and other missing colors fixed defaults.
    pub fn from_colors(name: &str, overrides: &ThemeColorOverrides) -> (t: Theme)
        ensures
            t.is_from(
                name@,
                seq![
                    or_default(overrides.primary, "#5E81AC"@),
                    or_default(overrides.accent, "#D08770"@),
                    match overrides.highlight {
                        Some(h) => h@,
                        None => or_default(overrides.accent, "#76B3C5"@),
                    },
                    or_default(overrides.background, "#3B4252"@),
                    or_default(overrides.surface, "#4C566A"@),
                    or_default(overrides.text, "#ECEFF4"@),
                ],
            ),
    {
        let primary = opt_or(&overrides.primary, "#5E81AC");
        let accent = opt_or(&overrides.accent, "#D08770");
        let highlight = match &overrides.highlight {
            Some(h) => h.as_str(),
            None => opt_or(&overrides.accent, "#76B3C5"),
        };
        let background = opt_or(&overrides.background, "#3B4252");
        let surface = opt_or(&overrides.surface, "#4C566A");
        let text = opt_or(&overrides.text, "#ECEFF4");
        Theme::from_hexes(to_owned(name), primary, accent, highlight, background, surface, text)
    }

    /// The theme that saved theme `saved` describes; a missing highlight
    /// takes the accent.
    pub fn from_saved(saved: &SavedTheme) -> (t: Theme)
        ensures
            t.is_from(saved.name@, saved.colors()),
    {
        let highlight = match &saved.highlight {
            Some(h) => h.as_str(),
            None => saved.accent.as_str(),
        };
        Theme::from_hexes(
            saved.name.clone(),
            saved.primary.as_str(),
            saved.accent.as_str(),
            highlight,
            saved.background.as_str(),
            saved.surface.as_str(),
            saved.text.as_str(),
        )
    }
}

/// The characters of `v`, or `default` when it is missing.
pub open spec fn or_default(v: Option<String>, default: Seq<char>) -> Seq<char> {
    match v {
        Some(s) => s@,
        None => default,
    }
}

/// The file's `skin` names a preset.
pub open spec fn skin_names_preset(skin: Option<String>) -> bool {
    skin is Some && is_preset_key_spec(skin->Some_0@)
}

/// The theme a theme file describes: the preset its `skin` names, else a
/// theme called "Custom" from its colors; `None` when it gives neither.
pub fn theme_from_file(skin: &Option<String>, colors: &Option<ThemeColorOverrides>) -> (r: Option<Theme>)
    ensures
        skin_names_preset(*skin) ==> (r is Some && r->Some_0.name@ == skin->Some_0@),
        !skin_names_preset(*skin) ==> match colors {
            Some(c) => r is Some && r->Some_0.name@ == "Custom"@,
            None => r is None,
        },
{
    if let Some(k) = skin {
        if let Some(t) = Theme::from_name(k.as_str()) {
            return Some(t);
        }
    }
    match colors {
        Some(c) => Some(Theme::from_colors("Custom", c)),
        None => None,
    }
}

fn opt_or<'a>(v: &'a Option<String>, default: &'a str) -> (r: &'a str)
    ensures
        r@ == or_default(*v, default@),
{
    match v {
        Some(s) => s.as_str(),
        None => default,
    }
}

/// The colors a theme file may carry.
pub struct ThemeColorOverrides {
    pub primary: Option<String>,
    pub accent: Option<String>,
    pub highlight: Option<String>,
    pub background: Option<String>,
    pub surface: Option<String>,
    pub text: Option<String>,
}

/// A user-created, named palette kept in the configuration.
pub struct SavedTheme {
    pub name: String,
    pub primary: String,
    pub accent: String,
    pub background: String,
    pub surface: String,
    pub text: String,
    pub highlight: Option<String>,
}

impl SavedTheme {
    /// The highlight color, which defaults to the accent.
    pub open spec fn highlight_or_accent(&self) -> Seq<char> {
        match self.highlight {
            Some(h) => h@,
            None => self.accent@,
        }
    }

    /// The six colors in the order primary, accent, highlight, background,
    /// surface, text.
    pub open spec fn colors(&self) -> Seq<Seq<char>> {
        seq![
            self.primary@,
            self.accent@,
            self.highlight_or_accent(),
            self.background@,
            self.surface@,
            self.text@,
        ]
    }
}

/// The saved theme that every configuration starts with: the "nord" preset
/// under the name "default".
pub fn default_saved_theme() -> (r: SavedTheme)
    ensures
        r.name@ == "default"@,
        r.highlight is Some,
        forall|k: int| 0 <= k < 6 ==> #[trigger] r.colors()[k] == normalize_hex_spec(preset_table()[1].2[k]),
{
    let d = theme_preset(1);
    let base = Theme::from_hexes(
        String::from_str("nord"),
        d.primary,
        d.accent,
        d.highlight,
        d.background,
        d.surface,
        d.text,
    );
    assert(d.colors() =~= seq![d.primary@, d.accent@, d.highlight@, d.background@, d.surface@, d.text@]);
    let r = SavedTheme {
        name: String::from_str("default"),
        primary: base.primary_hex,
        accent: base.accent_hex,
        highlight: Some(base.highlight_hex),
        background: base.background_hex,
        surface: base.surface_hex,
        text: base.text_hex,
    };
    assert(r.colors()[0] == base.colors()[0]);
    assert(r.colors()[1] == base.colors()[1]);
    assert(r.colors()[2] == base.colors()[2]);
    assert(r.colors()[3] == base.colors()[3]);
    assert(r.colors()[4] == base.colors()[4]);
    assert(r.colors()[5] == base.colors()[5]);
    r
}

/// One entry of the theme list in the settings form.
pub struct ThemeOption {
    pub key: String,
    pub label: String,
    pub primary_hex: String,
    pub accent_hex: String,
    pub background_hex: String,
    pub surface_hex: String,
    pub text_hex: String,
    pub highlight_hex: String,
}

impl ThemeOption {
    /// The six colors in the order primary, accent, highlight, background,
    /// surface, text.
    pub open spec fn colors(&self) -> Seq<Seq<char>> {
        seq![
            self.primary_hex@,
            self.accent_hex@,
            self.highlight_hex@,
            self.background_hex@,
            self.surface_hex@,
            self.text_hex@,
        ]
    }

    /// The option for a built-in theme, with its colors as written.
    pub fn from_definition(key: &str, def: &ThemeDefinition) -> (r: ThemeOption)
        ensures
            r.key@ == key@,
            r.label@ == def.name@,
            r.colors() == def.colors(),
    {
        let r = ThemeOption {
            key: to_owned(key),
            label: to_owned(def.name),
            primary_hex: to_owned(def.primary),
            accent_hex: to_owned(def.accent),
            highlight_hex: to_owned(def.highlight),
            background_hex: to_owned(def.background),
            surface_hex: to_owned(def.surface),
            text_hex: to_owned(def.text),
        };
        assert(r.colors() =~= def.colors());
        r
    }
}

/// The first saved theme called `name`, if any.
pub open spec fn first_saved_named(saved: Seq<SavedTheme>, name: Seq<char>, i: int) -> bool {
    0 <= i < saved.len() && saved[i].name@ == name && forall|j: int|
        0 <= j < i ==> saved[j].name@ != name
}

/// Whether a stored key can be kept as it is.
pub open spec fn key_is_usable(key: Seq<char>, saved_len: nat) -> bool {
    key == custom_key() || is_preset_key_spec(key) || match saved_index_spec(key) {
        Some(i) => i < saved_len,
        None => false,
    }
}

/// Finds the first saved theme called `name`.
pub fn find_saved_theme(saved: &Vec<SavedTheme>, name: &str) -> (r: Option<usize>)
    ensures
        match r {
            Some(i) => first_saved_named(saved@, name@, i as int),
            None => forall|j: int| 0 <= j < saved@.len() ==> saved@[j].name@ != name@,
        },
{
    let mut i: usize = 0;
    while i < saved.len()
        invariant
            i <= saved@.len(),
            forall|j: int| 0 <= j < i ==> saved@[j].name@ != name@,
        decreases saved@.len() - i,
    {
        if str_eq(saved[i].name.as_str(), name) {
            return Some(i);
        }
        i = i + 1;
    }
    None
}

/// Settles which theme key is active at startup: a usable stored key is
/// kept; otherwise the first saved theme named like the live theme, else
/// the custom key.
pub fn resolve_theme_key(stored: Option<String>, theme_name: &str, saved: &Vec<SavedTheme>) -> (r:
    String)
    requires
        saved@.len() <= usize::MAX,
    ensures
        stored is Some && key_is_usable(stored->Some_0@, saved@.len()) ==> r@ == stored->Some_0@,
        !(stored is Some && key_is_usable(stored->Some_0@, saved@.len())) ==> {
            if exists|i: int| 0 <= i < saved@.len() && saved@[i].name@ == theme_name@ {
                exists|i: int| first_saved_named(saved@, theme_name@, i) && r@ == saved_key_spec(i as nat)
            } else {
                r@ == custom_key()
            }
        },
{
    if let Some(key) = stored {
        if str_eq(key.as_str(), "custom") || is_preset_theme_key(key.as_str()) {
            return key;
        }
        if let Some(idx) = parse_saved_theme_key(key.as_str()) {
            if idx < saved.len() {
                return key;
            }
        }
    }
    match find_saved_theme(saved, theme_name) {
        Some(idx) => saved_theme_key(idx),
        None => String::from_str("custom"),
    }
}

} // verus!
