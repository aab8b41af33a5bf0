//! The stored configuration: what the controller is built from, what it
//! writes back, the status line, and items imported from executables.
use crate::controller::AppState;
use crate::menu::{
    clamp_column, clamp_columns, clone_opt, CategoryConfig, CategoryState, MenuItem,
    MenuItemConfig, NamedColorPair,
};
use crate::text::{
    decimal_text, eq_ignore_ascii_case, eq_ignore_case_spec, is_space, is_space_spec, push_char,
    push_decimal, str_eq,
};
use crate::theme::{
    custom_key, default_saved_theme, first_saved_named, key_is_usable, parse_saved_theme_key, resolve_theme_key, saved_index_spec,
    saved_theme_key, SavedTheme, Theme,
};
use vstd::prelude::*;
use vstd::string::StrSliceExecFns;
use vstd::string::StringExecFns;

verus! {

/// Whether a stored category is expanded when the document does not say.
pub fn default_true() -> (r: bool)
    ensures
        r,
{
    true
}

/// The application settings kept in the configuration.
pub struct AppSettings {
    pub title: Option<String>,
    pub columns: Option<u16>,
    pub theme_key: Option<String>,
}

/// The configuration document: categories by name, settings, the user's
/// color pairs and saved themes.
pub struct MenuFile {
    pub categories: Vec<(String, CategoryConfig)>,
    pub app_settings: AppSettings,
    pub custom_colors: Vec<NamedColorPair>,
    pub saved_themes: Vec<SavedTheme>,
}

impl NamedColorPair {
    /// A copy with the same name and colors.
    pub fn copy(&self) -> (r: NamedColorPair)
        ensures
            r == *self,
    {
        NamedColorPair {
            name: clone_opt(&self.name),
            background: clone_opt(&self.background),
            text: clone_opt(&self.text),
        }
    }
}

impl SavedTheme {
    /// A copy with the same name and colors.
    pub fn copy(&self) -> (r: SavedTheme)
        ensures
            r == *self,
    {
        let r = SavedTheme {
            name: self.name.clone(),
            primary: self.primary.clone(),
            accent: self.accent.clone(),
            background: self.background.clone(),
            surface: self.surface.clone(),
            text: self.text.clone(),
            highlight: clone_opt(&self.highlight),
        };
        assert(r.name@ == self.name@);
        r
    }
}

impl MenuFile {
    /// The document written on first run: one "System Tools" category with
    /// a process viewer, one column, and the default saved theme selected.
    pub fn default_data() -> (r: MenuFile)
        ensures
            r.categories@.len() == 1,
            r.categories@[0].0@ == "System Tools"@,
            r.categories@[0].1.items@.len() == 1,
            r.categories@[0].1.expanded,
            r.categories@[0].1.column == Some(1u16),
            r.categories@[0].1.colors is None,
            r.categories@[0].1.items@[0].label@ == "System Monitor"@,
            r.categories@[0].1.items@[0].cmd@ == "htop"@,
            r.categories@[0].1.items@[0].info matches Some(i) && i@ == "Interactive process viewer"@,
            r.categories@[0].1.items@[0].category matches Some(c) && c@ == "System Tools"@,
            r.categories@[0].1.items@[0].pause == Some(false),
            r.app_settings.title matches Some(t) && t@ == "Menu Maker — Enhanced Categorized Menu System"@,
            r.saved_themes@.len() == 1,
            r.saved_themes@[0].name@ == "default"@,
            r.app_settings.columns == Some(1u16),
            r.app_settings.theme_key is Some && r.app_settings.theme_key->Some_0@
                == crate::theme::saved_key_spec(0),
            r.custom_colors@.len() == 0,
    {
        let mut items: Vec<MenuItemConfig> = Vec::new();
        items.push(
            MenuItemConfig {
                label: String::from_str("System Monitor"),
                cmd: String::from_str("htop"),
                info: Some(String::from_str("Interactive process viewer")),
                category: Some(String::from_str("System Tools")),
                pause: Some(false),
            },
        );
        let mut categories: Vec<(String, CategoryConfig)> = Vec::new();
        categories.push(
            (
                String::from_str("System Tools"),
                CategoryConfig { expanded: true, column: Some(1), items, colors: None },
            ),
        );
        let mut saved_themes: Vec<SavedTheme> = Vec::new();
        saved_themes.push(default_saved_theme());
        MenuFile {
            categories,
            app_settings: AppSettings {
                title: Some(String::from_str("Menu Maker — Enhanced Categorized Menu System")),
                columns: Some(1),
                theme_key: Some(saved_theme_key(0)),
            },
            custom_colors: Vec::new(),
            saved_themes,
        }
    }
}

/// Whether some saved theme is called "default", in any case.
pub fn has_default_theme(saved: &Vec<SavedTheme>) -> (r: bool)
    ensures
        r == exists|i: int| 0 <= i < saved@.len() && eq_ignore_case_spec(saved@[i].name@, "default"@),
{
    let mut i: usize = 0;
    while i < saved.len()
        invariant
            i <= saved@.len(),
            forall|j: int| 0 <= j < i ==> !eq_ignore_case_spec(saved@[j].name@, "default"@),
        decreases saved@.len() - i,
    {
        if eq_ignore_ascii_case(saved[i].name.as_str(), "default") {
            return true;
        }
        i = i + 1;
    }
    false
}

/// The theme that a resolved key names: the stored theme for the custom
/// key, the saved or built-in theme otherwise, and the stored theme when
/// the key names neither.
fn materialize(key: &str, saved: &Vec<SavedTheme>, stored: Theme) -> (r: Theme)
    ensures
        key@ == custom_key() ==> r == stored,
        match saved_index_spec(key@) {
            Some(i) => i < saved@.len() ==> r.is_from(saved@[i as int].name@, saved@[i as int].colors()),
            None => true,
        },
{
    if str_eq(key, "custom") {
        proof {
            crate::theme::lemma_custom_key_is_distinct();
        }
        return stored;
    }
    match parse_saved_theme_key(key) {
        Some(i) => {
            if i < saved.len() {
                Theme::from_saved(&saved[i])
            } else {
                stored
            }
        },
        None => match Theme::from_name(key) {
            Some(t) => t,
            None => stored,
        },
    }
}

impl AppState {
    /// Builds the controller from the stored configuration and the stored
    /// active theme. A default saved theme is added when none is called
    /// "default" (the second result then asks for the configuration to be
    /// written); the column count defaults to 1 and is clamped to
    /// `1..=MAX_COLUMNS`; the theme key is resolved against the saved
    /// themes; the title defaults to "Menu Maker".
    pub fn new(menu: MenuFile, stored_theme: Theme) -> (r: (AppState, bool))
        requires
            menu.saved_themes@.len() + 1 < usize::MAX,
        ensures
            r.1 == !exists|i: int|
                0 <= i < menu.saved_themes@.len() && eq_ignore_case_spec(
                    menu.saved_themes@[i].name@,
                    "default"@,
                ),
            r.0.saved_themes@.len() == menu.saved_themes@.len() + if r.1 {
                1int
            } else {
                0int
            },
            r.0.categories@.len() == menu.categories@.len(),
            r.0.column_count == clamp_column(
                match menu.app_settings.columns {
                    Some(c) => c as int,
                    None => 1,
                },
            ),
            r.0.title@ == match menu.app_settings.title {
                Some(t) => t@,
                None => "Menu Maker"@,
            },
            r.0.current_index == 0,
            r.0.active_popup is None,
            r.0.saved_themes@.len() <= usize::MAX,
            menu.app_settings.theme_key is Some && key_is_usable(
                menu.app_settings.theme_key->Some_0@,
                r.0.saved_themes@.len(),
            ) ==> r.0.theme_key@ == menu.app_settings.theme_key->Some_0@,
            !(menu.app_settings.theme_key is Some && key_is_usable(
                menu.app_settings.theme_key->Some_0@,
                r.0.saved_themes@.len(),
            )) ==> if exists|i: int|
                0 <= i < r.0.saved_themes@.len() && r.0.saved_themes@[i].name@ == stored_theme.name@ {
                exists|i: int|
                    first_saved_named(r.0.saved_themes@, stored_theme.name@, i) && r.0.theme_key@
                        == crate::theme::saved_key_spec(i as nat)
            } else {
                r.0.theme_key@ == custom_key()
            },
            r.0.theme_key@ == custom_key() ==> r.0.theme == stored_theme,
    {
        let mut saved_themes = menu.saved_themes;
        let add_default = !has_default_theme(&saved_themes);
        if add_default {
            saved_themes.push(default_saved_theme());
        }
        let mut categories: Vec<CategoryState> = Vec::new();
        let mut i: usize = 0;
        while i < menu.categories.len()
            invariant
                i <= menu.categories@.len(),
                categories@.len() == i,
            decreases menu.categories@.len() - i,
        {
            let (name, cfg) = &menu.categories[i];
            categories.push(CategoryState::from_config(name.as_str(), cfg));
            i = i + 1;
        }
        let column_count = clamp_columns(
            match menu.app_settings.columns {
                Some(c) => c,
                None => 1,
            },
        );
        let theme_key = resolve_theme_key(
            menu.app_settings.theme_key,
            stored_theme.name.as_str(),
            &saved_themes,
        );
        let theme = materialize(theme_key.as_str(), &saved_themes, stored_theme);
        let title = match menu.app_settings.title {
            Some(t) => t,
            None => String::from_str("Menu Maker"),
        };
        let mut app = AppState {
            categories,
            custom_colors: menu.custom_colors,
            saved_themes,
            column_count,
            current_index: 0,
            display_entries: Vec::new(),
            column_map: Vec::new(),
            should_quit: false,
            pending_command: None,
            pending_action: None,
            status_message: None,
            theme,
            theme_key,
            title,
            active_popup: None,
            menu_dirty: add_default,
            theme_dirty: false,
            scan_requested: false,
            reload_requested: false,
        };
        app.rebuild_display();
        (app, add_default)
    }

    /// Replaces the menu with a freshly loaded configuration, as at startup;
    /// the active theme and its key stay.
    pub fn reload(&mut self, menu: MenuFile)
        ensures
            final(self).categories@.len() == menu.categories@.len(),
            final(self).column_count == clamp_column(
                match menu.app_settings.columns {
                    Some(c) => c as int,
                    None => 1,
                },
            ),
            final(self).theme_key == old(self).theme_key,
    {
        let mut categories: Vec<CategoryState> = Vec::new();
        let mut i: usize = 0;
        while i < menu.categories.len()
            invariant
                i <= menu.categories@.len(),
                categories@.len() == i,
            decreases menu.categories@.len() - i,
        {
            let (name, cfg) = &menu.categories[i];
            categories.push(CategoryState::from_config(name.as_str(), cfg));
            i = i + 1;
        }
        self.categories = categories;
        self.custom_colors = menu.custom_colors;
        self.saved_themes = menu.saved_themes;
        self.column_count = clamp_columns(
            match menu.app_settings.columns {
                Some(c) => c,
                None => 1,
            },
        );
        if let Some(t) = menu.app_settings.title {
            self.title = t;
        }
        self.rebuild_display();
    }

    /// The configuration document for the current state.
    pub fn to_menu_file(&self) -> (r: MenuFile)
        ensures
            r.categories@.len() == self.categories@.len(),
            forall|k: int| 0 <= k < r.categories@.len() ==> (#[trigger] r.categories@[k]).0@ == self.categories@[k].name@,
            r.app_settings.columns == Some(self.column_count),
            r.app_settings.title is Some && r.app_settings.title->Some_0@ == self.title@,
            r.app_settings.theme_key is Some && r.app_settings.theme_key->Some_0@ == self.theme_key@,
            r.custom_colors@ == self.custom_colors@,
            r.saved_themes@ == self.saved_themes@,
    {
        let mut categories: Vec<(String, CategoryConfig)> = Vec::new();
        let mut i: usize = 0;
        while i < self.categories.len()
            invariant
                i <= self.categories@.len(),
                categories@.len() == i,
                forall|k: int| 0 <= k < i ==> (#[trigger] categories@[k]).0@ == self.categories@[k].name@,
            decreases self.categories@.len() - i,
        {
            categories.push((self.categories[i].name.clone(), self.categories[i].to_config()));
            i = i + 1;
        }
        let mut custom_colors: Vec<NamedColorPair> = Vec::new();
        let mut k: usize = 0;
        while k < self.custom_colors.len()
            invariant
                k <= self.custom_colors@.len(),
                custom_colors@ == self.custom_colors@.subrange(0, k as int),
            decreases self.custom_colors@.len() - k,
        {
            custom_colors.push(self.custom_colors[k].copy());
            k = k + 1;
            assert(custom_colors@ =~= self.custom_colors@.subrange(0, k as int));
        }
        assert(custom_colors@ =~= self.custom_colors@);
        let mut saved_themes: Vec<SavedTheme> = Vec::new();
        let mut k: usize = 0;
        while k < self.saved_themes.len()
            invariant
                k <= self.saved_themes@.len(),
                saved_themes@ == self.saved_themes@.subrange(0, k as int),
            decreases self.saved_themes@.len() - k,
        {
            saved_themes.push(self.saved_themes[k].copy());
            k = k + 1;
            assert(saved_themes@ =~= self.saved_themes@.subrange(0, k as int));
        }
        assert(saved_themes@ =~= self.saved_themes@);
        MenuFile {
            categories,
            app_settings: AppSettings {
                title: Some(self.title.clone()),
                columns: Some(self.column_count),
                theme_key: Some(self.theme_key.clone()),
            },
            custom_colors,
            saved_themes,
        }
    }

    /// The status line: "Item <n>/<total> | Theme: <name>", then the status
    /// message after " | " when there is one.
    pub fn status_text(&self) -> (r: String)
        requires
            self.current_index < usize::MAX,
        ensures
            r@ == "Item "@ + decimal_text(
                if self.display_entries@.len() == 0 {
                    0nat
                } else {
                    (self.current_index + 1) as nat
                },
            ) + "/"@ + decimal_text(self.display_entries@.len()) + " | Theme: "@ + self.theme.name@
                + match self.status_message {
                Some(m) => " | "@ + m@,
                None => Seq::empty(),
            },
    {
        let total = self.display_entries.len();
        let current = if total == 0 {
            0
        } else {
            self.current_index + 1
        };
        let mut text = String::from_str("Item ");
        push_decimal(&mut text, current as u64);
        text.append("/");
        push_decimal(&mut text, total as u64);
        text.append(" | Theme: ");
        text.append(self.theme.name.as_str());
        let ghost base = text@;
        match &self.status_message {
            Some(m) => {
                text.append(" | ");
                text.append(m.as_str());
                assert(text@ =~= base + (" | "@ + m@));
            },
            None => {
                assert(text@ =~= base + Seq::<char>::empty());
            },
        }
        text
    }
}

/// The characters that `char::to_uppercase` yields for `c`.
pub uninterp spec fn upper_of(c: char) -> Seq<char>;

/// Relies on `char::to_uppercase`: the upper-case mapping of `c`, which
/// depends on `c` alone.
#[verifier::external_body]
fn to_upper(c: char) -> (r: Vec<char>)
    ensures
        r@ == upper_of(c),
{
    c.to_uppercase().collect()
}

/// One step of turning a file name into a label: `_` and `-` count as
/// spaces, words are separated by one space, and each word's first
/// character is upper-cased.
pub open spec fn label_step(st: (Seq<char>, bool), c: char) -> (Seq<char>, bool) {
    let (out, in_word) = st;
    let c = if c == '_' || c == '-' {
        ' '
    } else {
        c
    };
    if is_space_spec(c) {
        (out, false)
    } else if in_word {
        (out.push(c), true)
    } else if out.len() > 0 {
        (out.push(' ') + upper_of(c), true)
    } else {
        (out + upper_of(c), true)
    }
}

pub open spec fn label_fold(s: Seq<char>) -> (Seq<char>, bool)
    decreases s.len(),
{
    if s.len() == 0 {
        (Seq::empty(), false)
    } else {
        label_step(label_fold(s.drop_last()), s.last())
    }
}

/// A menu label for an executable's file name: words split on whitespace,
/// `_` and `-`, each capitalized, joined by single spaces.
pub fn filename_to_label(name: &str) -> (r: String)
    ensures
        r@ == label_fold(name@).0,
{
    let n = name.unicode_len();
    let mut out = String::new();
    let mut in_word = false;
    let mut i: usize = 0;
    while i < n
        invariant
            i <= n,
            n == name@.len(),
            (out@, in_word) == label_fold(name@.subrange(0, i as int)),
        decreases n - i,
    {
        proof {
            assert(name@.subrange(0, i + 1).drop_last() =~= name@.subrange(0, i as int));
        }
        let raw = name.get_char(i);
        let c = if raw == '_' || raw == '-' {
            ' '
        } else {
            raw
        };
        if is_space(c) {
            in_word = false;
        } else if in_word {
            push_char(&mut out, c);
        } else {
            if out.as_str().unicode_len() > 0 {
                push_char(&mut out, ' ');
            }
            let upper = to_upper(c);
            let ghost before = out@;
            let mut k: usize = 0;
            while k < upper.len()
                invariant
                    k <= upper@.len(),
                    out@ == before + upper@.subrange(0, k as int),
                decreases upper@.len() - k,
            {
                push_char(&mut out, upper[k]);
                k = k + 1;
                assert(out@ =~= before + upper@.subrange(0, k as int));
            }
            assert(upper@.subrange(0, upper@.len() as int) =~= upper@);
            in_word = true;
        }
        i = i + 1;
    }
    assert(name@.subrange(0, n as int) =~= name@);
    out
}

/// The command under which an imported executable runs.
pub open spec fn bin_command(filename: Seq<char>) -> Seq<char> {
    "~/.local/menu-maker/bin/"@ + filename
}

/// Whether some item of the menu runs `cmd`.
pub fn command_exists(cats: &Vec<CategoryState>, extra: &Vec<MenuItem>, cmd: &str) -> (r: bool)
    ensures
        r == ((exists|c: int, t: int|
            0 <= c < cats@.len() && 0 <= t < cats@[c].items@.len() && cats@[c].items@[t].cmd@
                == cmd@) || exists|t: int| 0 <= t < extra@.len() && extra@[t].cmd@ == cmd@),
{
    let mut c: usize = 0;
    while c < cats.len()
        invariant
            c <= cats@.len(),
            forall|a: int, t: int|
                0 <= a < c && 0 <= t < cats@[a].items@.len() ==> cats@[a].items@[t].cmd@ != cmd@,
        decreases cats@.len() - c,
    {
        let mut t: usize = 0;
        while t < cats[c].items.len()
            invariant
                c < cats@.len(),
                t <= cats@[c as int].items@.len(),
                forall|a: int, u: int|
                    0 <= a < c && 0 <= u < cats@[a].items@.len() ==> cats@[a].items@[u].cmd@ != cmd@,
                forall|u: int| 0 <= u < t ==> cats@[c as int].items@[u].cmd@ != cmd@,
            decreases cats@[c as int].items@.len() - t,
        {
            if str_eq(cats[c].items[t].cmd.as_str(), cmd) {
                return true;
            }
            t = t + 1;
        }
        c = c + 1;
    }
    let mut t: usize = 0;
    while t < extra.len()
        invariant
            t <= extra@.len(),
            forall|a: int, u: int|
                0 <= a < cats@.len() && 0 <= u < cats@[a].items@.len() ==> cats@[a].items@[u].cmd@ != cmd@,
            forall|u: int| 0 <= u < t ==> extra@[u].cmd@ != cmd@,
        decreases extra@.len() - t,
    {
        if str_eq(extra[t].cmd.as_str(), cmd) {
            return true;
        }
        t = t + 1;
    }
    false
}

impl AppState {
    /// Adds a menu item for each imported executable (by file name) whose
    /// command is in no category and belongs to no earlier name, to the end
    /// of the expanded category "Bin Executables"; returns how many were
    /// added.
    pub fn add_scanned_items(&mut self, filenames: Vec<String>) -> (r: usize)
        requires
            1 <= old(self).column_count <= 6,
            old(self).categories@.len() + 2 < usize::MAX,
        ensures
            r == imported_names(old(self).categories@, filenames@, filenames@.len() as int).len(),
            r == 0 ==> final(self).categories == old(self).categories,
            r > 0 ==> final(self).menu_dirty && exists|k: int|
                0 <= k < final(self).categories@.len() && {
                    let c = #[trigger] final(self).categories@[k];
                    let names = imported_names(old(self).categories@, filenames@, filenames@.len() as int);
                    &&& c.name@ == "Bin Executables"@
                    &&& c.expanded
                    &&& c.items@.len() >= r
                    &&& forall|j: int| 0 <= j < r ==> imported_item(
                        #[trigger] c.items@[c.items@.len() - r + j],
                        names[j],
                    )
                },
    {
        let ghost cats = self.categories@;
        let mut new_items: Vec<MenuItem> = Vec::new();
        let mut i: usize = 0;
        while i < filenames.len()
            invariant
                *self == *old(self),
                cats == self.categories@,
                i <= filenames@.len(),
                new_items@.len() == imported_names(cats, filenames@, i as int).len(),
                forall|j: int| 0 <= j < new_items@.len() ==> imported_item(
                    #[trigger] new_items@[j],
                    imported_names(cats, filenames@, i as int)[j],
                ),
            decreases filenames@.len() - i,
        {
            let filename = filenames[i].as_str();
            let mut cmd = String::from_str("~/.local/menu-maker/bin/");
            cmd.append(filename);
            let ghost prev = imported_names(cats, filenames@, i as int);
            proof {
                assert forall|t: int| 0 <= t < new_items@.len() implies (new_items@[t].cmd@ == cmd@
                    <==> bin_command(prev[t]) == bin_command(filenames@[i as int]@)) by {
                    assert(imported_item(new_items@[t], prev[t]));
                }
            }
            if !command_exists(&self.categories, &new_items, cmd.as_str()) {
                let mut info = String::from_str("Executable: ");
                info.append(filename);
                new_items.push(
                    MenuItem { label: filename_to_label(filename), cmd, info, pause: false },
                );
                proof {
                    let next = imported_names(cats, filenames@, i + 1);
                    assert(!(exists|t: int| 0 <= t < prev.len() && bin_command(prev[t]) == bin_command(filenames@[i as int]@))) by {
                        if exists|t: int| 0 <= t < prev.len() && bin_command(prev[t]) == bin_command(filenames@[i as int]@) {
                            let t = choose|t: int| 0 <= t < prev.len() && bin_command(prev[t]) == bin_command(filenames@[i as int]@);
                            assert(new_items@[t].cmd@ == cmd@);
                        }
                    }
                    assert(next == prev.push(filenames@[i as int]@));
                }
            } else {
                proof {
                    let next = imported_names(cats, filenames@, i + 1);
                    if !cmd_in_menu(cats, bin_command(filenames@[i as int]@)) {
                        let t = choose|t: int| 0 <= t < new_items@.len() && new_items@[t].cmd@ == cmd@;
                        assert(bin_command(prev[t]) == bin_command(filenames@[i as int]@));
                    }
                    assert(next == prev);
                }
            }
            i = i + 1;
        }
        let ghost names = imported_names(cats, filenames@, filenames@.len() as int);
        let count = new_items.len();
        if count == 0 {
            return 0;
        }
        let idx = self.ensure_category("Bin Executables");
        let ghost base_len = self.categories@[idx as int].items@.len();
        let mut k: usize = 0;
        while k < new_items.len()
            invariant
                k <= new_items@.len(),
                count == new_items@.len(),
                names.len() == count,
                forall|j: int| 0 <= j < count ==> imported_item(#[trigger] new_items@[j], names[j]),
                idx < self.categories@.len(),
                1 <= self.column_count <= 6,
                self.categories@[idx as int].name@ == "Bin Executables"@,
                k > 0 ==> self.categories@[idx as int].expanded,
                self.categories@[idx as int].items@.len() == base_len + k,
                forall|j: int| 0 <= j < k ==> imported_item(
                    #[trigger] self.categories@[idx as int].items@[base_len + j],
                    names[j],
                ),
            decreases new_items@.len() - k,
        {
            let item = MenuItem {
                label: new_items[k].label.clone(),
                cmd: new_items[k].cmd.clone(),
                info: new_items[k].info.clone(),
                pause: new_items[k].pause,
            };
            assert(imported_item(item, names[k as int]));
            let ghost before_items = self.categories@[idx as int].items@;
            self.push_item(idx, item);
            proof {
                let after = self.categories@[idx as int].items@;
                assert forall|j: int| 0 <= j < k + 1 implies imported_item(
                    #[trigger] self.categories@[idx as int].items@[base_len + j],
                    names[j],
                ) by {
                    if j < k {
                        assert(after[base_len + j] == before_items[base_len + j]);
                    }
                }
            }
            k = k + 1;
        }
        let ghost before = self.categories@;
        self.rebuild_display();
        self.menu_dirty = true;
        proof {
            crate::controller::lemma_permuted_contains(before, self.categories@, idx as int);
            let j = choose|j: int| 0 <= j < self.categories@.len() && self.categories@[j] == before[idx as int];
            let c = self.categories@[j];
            assert forall|t: int| 0 <= t < count implies imported_item(
                #[trigger] c.items@[c.items@.len() - count + t],
                names[t],
            ) by {
                assert(c.items@[c.items@.len() - count + t] == before[idx as int].items@[base_len + t]);
            }
        }
        count
    }
}

/// Some item of the menu runs `cmd`.
pub open spec fn cmd_in_menu(cats: Seq<CategoryState>, cmd: Seq<char>) -> bool {
    exists|c: int, t: int| 0 <= c < cats.len() && 0 <= t < cats[c].items@.len() && cats[c].items@[t].cmd@ == cmd
}

/// The file names among the first `n` that get an item: those whose
/// command is in no category of `cats` and belongs to no earlier such name.
pub open spec fn imported_names(cats: Seq<CategoryState>, names: Seq<String>, n: int) -> Seq<Seq<char>>
    decreases n,
{
    if n <= 0 {
        Seq::empty()
    } else {
        let prev = imported_names(cats, names, n - 1);
        let name = names[n - 1]@;
        if cmd_in_menu(cats, bin_command(name)) || exists|j: int|
            0 <= j < prev.len() && bin_command(prev[j]) == bin_command(name) {
            prev
        } else {
            prev.push(name)
        }
    }
}

/// The item made for an imported executable `name`.
pub open spec fn imported_item(m: MenuItem, name: Seq<char>) -> bool {
    &&& m.label@ == label_fold(name).0
    &&& m.cmd@ == bin_command(name)
    &&& m.info@ == "Executable: "@ + name
    &&& !m.pause
}

} // verus!
