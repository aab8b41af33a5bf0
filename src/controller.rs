//! The application controller: the menu, the themes and the open form, and
//! what each event does to them.
use crate::category_form::{with_palette_applied, CategoryField, CategoryFormView, CategoryFormInput, CategoryFormState, CategorySubmitPayload, CustomPresetInput};
use crate::hex::{
    color_field_spec, color_format_error, hex_equal_spec, hex_strings_equal, parse_color_field,
    require_color_field,
};
use crate::item_form::ItemFormState;
use crate::menu::{
    build_display, categories_sorted, clamp_column, column_positions, clamp_columns, display_spec, sort_categories,
    CategoryState, ColorConfig, ColorPreset, DisplayEntry, MenuItem, NamedColorPair,
};
use crate::settings_form::{SettingsField, SettingsFormInput, SettingsFormState};
use crate::theme::{
    custom_key, is_preset_key_spec, lemma_saved_key_round_trip, parse_saved_theme_key,
    preset_table, saved_index_spec, saved_prefix, saved_key_spec, saved_theme_key, theme_preset, SavedTheme,
    Theme, ThemeOption, PRESET_COUNT,
};
use crate::item_form::ItemFormInput;
use crate::text::{
    decimal_text, eq_ignore_ascii_case, eq_ignore_case_spec, parse_decimal, parse_decimal_spec,
    str_eq, trim, trimmed,
};
use vstd::prelude::*;
use vstd::string::StrSliceExecFns;
use vstd::string::StringExecFns;

verus! {

/// A command to run once the terminal is handed over.
pub struct PendingCommand {
    pub command: String,
    pub pause: bool,
}

/// Work that needs the terminal loop before it can start.
pub enum DeferredAction {
    NewItem,
    EditItem { category_index: usize, item_index: usize },
    EditCategory { category_index: usize },
    Settings(SettingsField),
}

/// The details of an item, shown read-only.
pub struct InfoPopup {
    pub label: String,
    pub command: String,
    pub category: String,
    pub description: String,
}

/// The modal that is open.
pub enum PopupState {
    Info(InfoPopup),
    Message(String),
    ItemForm(ItemFormState),
    CategoryForm(CategoryFormState),
    SettingsForm(SettingsFormState),
}

pub struct AppState {
    pub categories: Vec<CategoryState>,
    pub custom_colors: Vec<NamedColorPair>,
    pub saved_themes: Vec<SavedTheme>,
    pub column_count: u16,
    pub current_index: usize,
    pub display_entries: Vec<DisplayEntry>,
    pub column_map: Vec<Vec<usize>>,
    pub should_quit: bool,
    pub pending_command: Option<PendingCommand>,
    pub pending_action: Option<DeferredAction>,
    pub status_message: Option<String>,
    pub theme: Theme,
    pub theme_key: String,
    pub title: String,
    pub active_popup: Option<PopupState>,
    /// The menu changed and should be written to the configuration store.
    pub menu_dirty: bool,
    /// The active theme changed and should be written to the theme store.
    pub theme_dirty: bool,
    /// The user asked to import executables from the import directory.
    pub scan_requested: bool,
    /// The user asked to reload the configuration.
    pub reload_requested: bool,
}

/// Where the selection lands after the list changed: kept when still in
/// range, else the last row, or 0 when the list is empty.
pub open spec fn clamped_index(index: usize, len: nat) -> usize {
    if index < len {
        index
    } else if len == 0 {
        0
    } else {
        (len - 1) as usize
    }
}

/// Moving up: one row back, wrapping from the first to the last.
pub open spec fn moved_up(index: usize, len: nat) -> usize {
    if len == 0 {
        index
    } else if index == 0 {
        (len - 1) as usize
    } else {
        (index - 1) as usize
    }
}

/// Moving down: one row on, wrapping from the last to the first.
pub open spec fn moved_down(index: usize, len: nat) -> usize {
    if len == 0 {
        index
    } else if index + 1 >= len {
        0
    } else {
        (index + 1) as usize
    }
}

/// On a non-empty list, moving down then up, or up then down, returns to
/// the row it started from.
pub proof fn lemma_navigation_round_trip(index: usize, len: nat)
    requires
        0 < len,
        index < len,
        len <= usize::MAX,
    ensures
        moved_up(moved_down(index, len), len) == index,
        moved_down(moved_up(index, len), len) == index,
{

}

/// The key that a theme key becomes when saved theme `index` is deleted:
/// keys of later saved themes move down by one, the key of the deleted one
/// falls back to the "nord" preset, and other keys stay.
pub open spec fn key_after_delete(key: Seq<char>, index: nat) -> Seq<char> {
    match saved_index_spec(key) {
        Some(j) => if j == index {
            "nord"@
        } else if j > index {
            saved_key_spec((j - 1) as nat)
        } else {
            key
        },
        None => key,
    }
}

/// Deleting saved theme `i` renumbers a reference to a later saved theme
/// `j` to `j - 1`, and sends a reference to `i` itself to the default
/// preset.
pub proof fn lemma_delete_renumbers(i: nat, j: nat)
    requires
        j <= usize::MAX,
    ensures
        j > i ==> saved_index_spec(key_after_delete(saved_key_spec(j), i)) == Some((j - 1) as nat),
        j == i ==> key_after_delete(saved_key_spec(j), i) == "nord"@ && is_preset_key_spec(
            key_after_delete(saved_key_spec(j), i),
        ),
        j < i ==> key_after_delete(saved_key_spec(j), i) == saved_key_spec(j),
{
    lemma_saved_key_round_trip(j);
    if j > i {
        lemma_saved_key_round_trip((j - 1) as nat);
    }
    assert(preset_table()[1].0 == "nord"@);
}

impl AppState {
    /// The display list and column map match the categories, and the
    /// selection is in range (or 0 on an empty list).
    pub open spec fn display_ok(&self) -> bool {
        &&& self.display_entries@ == display_spec(self.categories@)
        &&& self.column_map@.len() == self.column_count
        &&& 1 <= self.column_count <= 6
        &&& (self.current_index < self.display_entries@.len() || (self.current_index == 0
            && self.display_entries@.len() == 0))
    }

    /// Sorts the categories, rebuilds the display list and column map, and
    /// brings the selection back in range.
    pub fn rebuild_display(&mut self)
        requires
            1 <= old(self).column_count <= 6,
        ensures
            final(self).categories@.to_multiset() == old(self).categories@.to_multiset(),
            final(self).categories@.len() == old(self).categories@.len(),
            categories_sorted(final(self).categories@),
            final(self).column_count == old(self).column_count,
            final(self).saved_themes == old(self).saved_themes,
            final(self).theme_key == old(self).theme_key,
            final(self).custom_colors == old(self).custom_colors,
            final(self).title == old(self).title,
            final(self).theme == old(self).theme,
            final(self).theme_dirty == old(self).theme_dirty,
            final(self).menu_dirty == old(self).menu_dirty,
            final(self).active_popup == old(self).active_popup,
            final(self).current_index <= old(self).current_index,
            display_fits(final(self).categories@) ==> forall|c: int|
                0 <= c < final(self).column_count ==> #[trigger] final(self).column_map@[c]@
                    == column_positions(
                    final(self).categories@,
                    final(self).display_entries@,
                    final(self).column_count as nat,
                    c as nat,
                    final(self).display_entries@.len() as int,
                ),
            display_fits(final(self).categories@) ==> final(self).display_ok()
                && final(self).current_index == clamped_index(
                old(self).current_index,
                final(self).display_entries@.len(),
            ),
    {
        sort_categories(&mut self.categories);
        if !rows_fit(&self.categories) {
            return;
        }
        let (entries, columns) = build_display(&self.categories, self.column_count);
        self.display_entries = entries;
        self.column_map = columns;
        let len = self.display_entries.len();
        if self.current_index >= len {
            self.current_index = if len == 0 {
                0
            } else {
                len - 1
            };
        }
    }

    pub fn move_selection_up(&mut self)
        ensures
            final(self).current_index == moved_up(
                old(self).current_index,
                old(self).display_entries@.len(),
            ),
            final(self).display_entries == old(self).display_entries,
            final(self).categories == old(self).categories,
            final(self).column_map == old(self).column_map,
    {
        if self.display_entries.len() == 0 {
            return;
        }
        if self.current_index == 0 {
            self.current_index = self.display_entries.len() - 1;
        } else {
            self.current_index = self.current_index - 1;
        }
    }

    pub fn move_selection_down(&mut self)
        ensures
            final(self).current_index == moved_down(
                old(self).current_index,
                old(self).display_entries@.len(),
            ),
            final(self).display_entries == old(self).display_entries,
            final(self).categories == old(self).categories,
            final(self).column_map == old(self).column_map,
    {
        if self.display_entries.len() == 0 {
            return;
        }
        self.current_index = if self.current_index >= self.display_entries.len() - 1 {
            0
        } else {
            self.current_index + 1
        };
    }

    /// The `(category, item)` of the selected row when it is an item.
    pub fn selected_item_indices(&self) -> (r: Option<(usize, usize)>)
        ensures
            r == match if self.current_index < self.display_entries@.len() {
                Some(self.display_entries@[self.current_index as int])
            } else {
                None
            } {
                Some(DisplayEntry::Item { category_index, item_index }) => Some(
                    (category_index, item_index),
                ),
                _ => None::<(usize, usize)>,
            },
    {
        if self.current_index < self.display_entries.len() {
            match self.display_entries[self.current_index] {
                DisplayEntry::Item { category_index, item_index } => Some(
                    (category_index, item_index),
                ),
                _ => None,
            }
        } else {
            None
        }
    }

    /// The index of the category called `name`, added (expanded, in column
    /// 1, with no items) when there is none.
    pub fn ensure_category(&mut self, name: &str) -> (r: usize)
        requires
            old(self).categories@.len() < usize::MAX,
        ensures
            r < final(self).categories@.len(),
            final(self).categories@[r as int].name@ == name@,
            (exists|i: int|
                0 <= i < old(self).categories@.len() && old(self).categories@[i].name@ == name@)
                ==> final(self).categories@ == old(self).categories@,
            !(exists|i: int|
                0 <= i < old(self).categories@.len() && old(self).categories@[i].name@ == name@)
                ==> {
                &&& final(self).categories@.len() == old(self).categories@.len() + 1
                &&& final(self).categories@.drop_last() == old(self).categories@
                &&& r == old(self).categories@.len()
                &&& final(self).categories@[r as int].expanded
                &&& final(self).categories@[r as int].column == 1
                &&& final(self).categories@[r as int].colors is None
                &&& final(self).categories@[r as int].items@.len() == 0
            },
            final(self).saved_themes == old(self).saved_themes,
            final(self).custom_colors == old(self).custom_colors,
            final(self).theme_key == old(self).theme_key,
            final(self).column_count == old(self).column_count,
    {
        let mut i: usize = 0;
        while i < self.categories.len()
            invariant
                i <= self.categories@.len(),
                forall|j: int| 0 <= j < i ==> self.categories@[j].name@ != name@,
            decreases self.categories@.len() - i,
        {
            if str_eq(self.categories[i].name.as_str(), name) {
                return i;
            }
            i = i + 1;
        }
        self.categories.push(
            CategoryState {
                name: String::from_str(name),
                expanded: true,
                column: 1,
                colors: None,
                items: Vec::new(),
            },
        );
        assert(self.categories@.drop_last() =~= old(self).categories@);
        self.categories.len() - 1
    }

    /// Saves `saved` over the saved theme of the same name, or appends it;
    /// returns its position.
    pub fn upsert_saved_theme(&mut self, saved: SavedTheme) -> (r: usize)
        requires
            old(self).saved_themes@.len() < usize::MAX,
        ensures
            r < final(self).saved_themes@.len(),
            final(self).saved_themes@[r as int] == saved,
            (exists|i: int|
                0 <= i < old(self).saved_themes@.len() && old(self).saved_themes@[i].name@
                    == saved.name@) ==> final(self).saved_themes@ == old(self).saved_themes@.update(
                r as int,
                saved,
            ) && old(self).saved_themes@[r as int].name@ == saved.name@ && forall|j: int|
                0 <= j < r ==> old(self).saved_themes@[j].name@ != saved.name@,
            !(exists|i: int|
                0 <= i < old(self).saved_themes@.len() && old(self).saved_themes@[i].name@
                    == saved.name@) ==> final(self).saved_themes@ == old(self).saved_themes@.push(
                saved,
            ),
            *final(self) == (AppState { saved_themes: final(self).saved_themes, ..*old(self) }),
    {
        let mut i: usize = 0;
        while i < self.saved_themes.len()
            invariant
                *self == *old(self),
                i <= self.saved_themes@.len(),
                forall|j: int| 0 <= j < i ==> self.saved_themes@[j].name@ != saved.name@,
            decreases self.saved_themes@.len() - i,
        {
            if str_eq(self.saved_themes[i].name.as_str(), saved.name.as_str()) {
                self.saved_themes.set(i, saved);
                return i;
            }
            i = i + 1;
        }
        self.saved_themes.push(saved);
        self.saved_themes.len() - 1
    }

    /// Deletes saved theme `index` and renumbers the active key to match;
    /// when the active theme was the deleted one, the "nord" preset becomes
    /// active. An index out of range changes nothing.
    pub fn delete_saved_theme(&mut self, index: usize)
        ensures
            index >= old(self).saved_themes@.len() ==> *final(self) == *old(self),
            saved_index_spec(old(self).theme_key@) != Some(index as nat) ==> final(self).theme
                == old(self).theme,
            index < old(self).saved_themes@.len() ==> {
                &&& final(self).saved_themes@ == old(self).saved_themes@.remove(index as int)
                &&& final(self).theme_key@ == key_after_delete(
                    old(self).theme_key@,
                    index as nat,
                )
                &&& saved_index_spec(old(self).theme_key@) == Some(index as nat) ==> {
                    let t = final(self).theme;
                    t.is_from("nord"@, preset_table()[1].2) && final(self).theme_dirty
                }
            },
            final(self).categories == old(self).categories,
            final(self).column_count == old(self).column_count,
    {
        if index >= self.saved_themes.len() {
            return;
        }
        self.saved_themes.remove(index);
        match parse_saved_theme_key(self.theme_key.as_str()) {
            Some(old_index) => {
                if old_index == index {
                    match Theme::from_name("nord") {
                        Some(fallback) => {
                            proof {
                                reveal_strlit("nord");
                                reveal_strlit("classic");
                                reveal_strlit("gruvbox");
                                reveal_strlit("dracula");
                                reveal_strlit("monokai");
                                assert(preset_table()[1].0 == "nord"@);
                                assert(preset_table()[0].0 != "nord"@);
                                assert(preset_table()[2].0 != "nord"@);
                                assert(preset_table()[3].0 != "nord"@);
                                assert(preset_table()[4].0 != "nord"@);
                            }
                            self.theme = fallback;
                            self.theme_key = String::from_str("nord");
                            self.theme_dirty = true;
                        },
                        None => {
                            assert(preset_table()[1].0 == "nord"@);
                        },
                    }
                } else if old_index > index {
                    self.theme_key = saved_theme_key(old_index - 1);
                }
            },
            None => {},
        }
    }

    /// The theme list of the settings form: the presets, then every saved
    /// theme, then the live custom theme when it is the active one.
    pub fn theme_options(&self) -> (r: Vec<ThemeOption>)
        ensures
            r@.len() == options_spec(self.saved_themes@, self.theme_key@, self.theme).len(),
            forall|i: int|
                0 <= i < r@.len() ==> (#[trigger] r@[i]).view_of() == options_spec(
                    self.saved_themes@,
                    self.theme_key@,
                    self.theme,
                )[i],
    {
        let ghost spec = options_spec(self.saved_themes@, self.theme_key@, self.theme);
        let mut options: Vec<ThemeOption> = Vec::new();
        let mut p: usize = 0;
        while p < PRESET_COUNT
            invariant
                p <= PRESET_COUNT,
                options@.len() == p,
                spec == options_spec(self.saved_themes@, self.theme_key@, self.theme),
                forall|i: int| 0 <= i < p ==> (#[trigger] options@[i]).view_of() == spec[i],
            decreases PRESET_COUNT - p,
        {
            let d = theme_preset(p);
            options.push(ThemeOption::from_definition(d.key, &d));
            p = p + 1;
        }
        let mut k: usize = 0;
        while k < self.saved_themes.len()
            invariant
                k <= self.saved_themes@.len(),
                options@.len() == PRESET_COUNT + k,
                spec == options_spec(self.saved_themes@, self.theme_key@, self.theme),
                forall|i: int| 0 <= i < PRESET_COUNT + k ==> (#[trigger] options@[i]).view_of() == spec[i],
            decreases self.saved_themes@.len() - k,
        {
            let saved = &self.saved_themes[k];
            let highlight = match &saved.highlight {
                Some(h) => h.clone(),
                None => saved.accent.clone(),
            };
            let o = ThemeOption {
                key: saved_theme_key(k),
                label: saved.name.clone(),
                primary_hex: saved.primary.clone(),
                accent_hex: saved.accent.clone(),
                highlight_hex: highlight,
                background_hex: saved.background.clone(),
                surface_hex: saved.surface.clone(),
                text_hex: saved.text.clone(),
            };
            assert(o.colors() =~= saved.colors());
            options.push(o);
            k = k + 1;
        }
        if str_eq(self.theme_key.as_str(), "custom") {
            let o = ThemeOption {
                key: String::from_str("custom"),
                label: String::from_str("Custom Theme"),
                primary_hex: self.theme.primary_hex.clone(),
                accent_hex: self.theme.accent_hex.clone(),
                highlight_hex: self.theme.highlight_hex.clone(),
                background_hex: self.theme.background_hex.clone(),
                surface_hex: self.theme.surface_hex.clone(),
                text_hex: self.theme.text_hex.clone(),
            };
            assert(o.colors() =~= self.theme.colors());
            options.push(o);
        }
        options
    }

    /// The color presets offered for categories: the built-in ones, then
    /// every user pair that has both colors, named "Custom Theme <n>" when
    /// unnamed.
    pub fn available_color_presets(&self) -> (r: Vec<ColorPreset>)
        ensures
            r@.len() >= 5,
            forall|i: int| 0 <= i < 5 ==> (#[trigger] r@[i]).custom_index is None,
            forall|i: int|
                5 <= i < r@.len() ==> (#[trigger] r@[i]).custom_index is Some && r@[i].custom_index->Some_0
                    < self.custom_colors@.len(),
    {
        let mut presets = crate::menu::default_color_presets();
        let mut k: usize = 0;
        while k < self.custom_colors.len()
            invariant
                k <= self.custom_colors@.len(),
                presets@.len() >= 5,
                forall|i: int| 0 <= i < 5 ==> (#[trigger] presets@[i]).custom_index is None,
                forall|i: int|
                    5 <= i < presets@.len() ==> (#[trigger] presets@[i]).custom_index is Some
                        && presets@[i].custom_index->Some_0 < k,
            decreases self.custom_colors@.len() - k,
        {
            let pair = &self.custom_colors[k];
            match (&pair.background, &pair.text) {
                (Some(bg), Some(text)) => {
                    let name = match &pair.name {
                        Some(n) => n.clone(),
                        None => numbered_custom_name(k),
                    };
                    presets.push(ColorPreset::from_custom(name, bg.as_str(), text.as_str(), k));
                },
                _ => {},
            }
            k = k + 1;
        }
        presets
    }
}

/// "Custom Theme <index + 1>".
pub fn numbered_custom_name(index: usize) -> (r: String)
    requires
        index < usize::MAX,
    ensures
        r@ == "Custom Theme "@ + crate::text::decimal_text(index as nat + 1),
{
    let mut s = String::from_str("Custom Theme ");
    crate::text::push_decimal(&mut s, index as u64 + 1);
    s
}

/// The number of display rows, when it fits in a `usize`.
pub open spec fn display_fits(cats: Seq<CategoryState>) -> bool {
    display_spec(cats).len() <= usize::MAX && cats.len() <= usize::MAX
}

/// Counts the display rows, checking that the count fits in a `usize`.
pub fn rows_fit(cats: &Vec<CategoryState>) -> (r: bool)
    ensures
        r == display_fits(cats@),
{
    let mut total: u128 = 0;
    let mut i: usize = 0;
    while i < cats.len()
        invariant
            i <= cats@.len(),
            total == crate::menu::entries_upto(cats@, i as int).len(),
            total <= usize::MAX,
        decreases cats@.len() - i,
    {
        let add: u128 = if cats[i].expanded {
            1 + cats[i].items.len() as u128
        } else {
            1
        };
        total = total + add;
        proof {
            lemma_entries_len_step(cats@, i as int);
        }
        if total > usize::MAX as u128 {
            proof {
                crate::menu::lemma_entries_upto_prefix(cats@, i as int + 1, cats@.len() as int);
            }
            return false;
        }
        i = i + 1;
    }
    true
}

proof fn lemma_entries_len_step(cats: Seq<CategoryState>, i: int)
    requires
        0 <= i < cats.len(),
    ensures
        crate::menu::entries_upto(cats, i + 1).len() == crate::menu::entries_upto(cats, i).len()
            + if cats[i].expanded {
            1 + cats[i].items@.len()
        } else {
            1
        },
{
}

/// The category an item form files its item under: the trimmed category,
/// else the trimmed fallback, else "General".
pub open spec fn item_category_spec(input: ItemFormInput) -> Seq<char> {
    if trimmed(input.category@).len() > 0 {
        trimmed(input.category@)
    } else if trimmed(input.fallback_category@).len() > 0 {
        trimmed(input.fallback_category@)
    } else {
        "General"@
    }
}

/// The item holds the form's trimmed values.
pub open spec fn item_from_input(m: MenuItem, input: ItemFormInput) -> bool {
    &&& m.label@ == trimmed(input.label@)
    &&& m.cmd@ == trimmed(input.command@)
    &&& m.info@ == trimmed(input.info@)
    &&& m.pause == input.pause
}

/// A category created for a submitted item: named `name`, expanded, in
/// column 1, without colors, holding only that item.
pub open spec fn new_category_with(x: CategoryState, name: Seq<char>, input: ItemFormInput) -> bool {
    &&& x.name@ == name
    &&& x.expanded
    &&& x.column == 1
    &&& x.colors is None
    &&& x.items@.len() == 1
    &&& item_from_input(x.items@[0], input)
}

/// `base` with the submitted item appended, and expanded.
pub open spec fn category_with_item(x: CategoryState, base: CategoryState, input: ItemFormInput) -> bool {
    &&& x.name == base.name
    &&& x.column == base.column
    &&& x.colors == base.colors
    &&& x.expanded
    &&& x.items@.len() == base.items@.len() + 1
    &&& x.items@.drop_last() == base.items@
    &&& item_from_input(x.items@.last(), input)
}

/// Some category called `name` (expanded, when `expanded` asks for it)
/// holds an item with the submission's values.
pub open spec fn holds_item(cats: Seq<CategoryState>, name: Seq<char>, input: ItemFormInput, expanded: bool) -> bool {
    exists|k: int, t: int|
        0 <= k < cats.len() && 0 <= t < cats[k].items@.len() && cats[k].name@ == name
            && (expanded ==> cats[k].expanded) && item_from_input(cats[k].items@[t], input)
}

pub fn item_category_name(input: &ItemFormInput) -> (r: String)
    ensures
        r@ == item_category_spec(*input),
{
    let c = trim(input.category.as_str());
    if c.unicode_len() > 0 {
        return String::from_str(c);
    }
    let f = trim(input.fallback_category.as_str());
    if f.unicode_len() > 0 {
        return String::from_str(f);
    }
    String::from_str("General")
}

pub proof fn lemma_permuted_contains(a: Seq<CategoryState>, b: Seq<CategoryState>, k: int)
    requires
        a.to_multiset() == b.to_multiset(),
        0 <= k < a.len(),
    ensures
        exists|j: int| 0 <= j < b.len() && b[j] == a[k],
{
    broadcast use vstd::seq_lib::group_to_multiset_ensures;

    assert(a.contains(a[k]));
    assert(a.to_multiset().count(a[k]) > 0);
    assert(b.to_multiset().count(a[k]) > 0);
    assert(b.contains(a[k]));
}

impl AppState {
    /// Appends `item` to category `idx` and expands it.
    pub fn push_item(&mut self, idx: usize, item: MenuItem)
        requires
            idx < old(self).categories@.len(),
        ensures
            final(self).categories@.len() == old(self).categories@.len(),
            forall|j: int|
                0 <= j < final(self).categories@.len() && j != idx ==> final(self).categories@[j]
                    == old(self).categories@[j],
            final(self).categories@[idx as int].name == old(self).categories@[idx as int].name,
            final(self).categories@[idx as int].column == old(self).categories@[idx as int].column,
            final(self).categories@[idx as int].colors == old(self).categories@[idx as int].colors,
            final(self).categories@[idx as int].expanded,
            final(self).categories@[idx as int].items@ == old(self).categories@[idx as int].items@.push(item),
            final(self).saved_themes == old(self).saved_themes,
            final(self).custom_colors == old(self).custom_colors,
            final(self).theme_key == old(self).theme_key,
            final(self).column_count == old(self).column_count,
    {
        let mut cat = self.categories.remove(idx);
        cat.expanded = true;
        cat.items.push(item);
        self.categories.insert(idx, cat);
    }

    /// Applies an item form submission: validates it, then adds the item to
    /// its category (created when missing) or updates the edited item,
    /// moving it when its category changed. A category left empty by the
    /// move is removed.
    pub fn apply_item_form_input(&mut self, input: ItemFormInput) -> (r: Result<String, String>)
        requires
            old(self).categories@.len() + 1 < usize::MAX,
            1 <= old(self).column_count <= 6,
        ensures
            trimmed(input.label@).len() == 0 ==> r is Err && r->Err_0@ == "Label is required"@
                && final(self).categories == old(self).categories,
            trimmed(input.label@).len() > 0 && trimmed(input.command@).len() == 0 ==> r is Err
                && r->Err_0@ == "Command is required"@ && final(self).categories == old(self).categories,
            trimmed(input.label@).len() > 0 && trimmed(input.command@).len() > 0 ==> match input.target {
                None => {
                    &&& r is Ok && r->Ok_0@ == "Item added"@
                    &&& holds_item(final(self).categories@, item_category_spec(input), input, true)
                    &&& !(exists|i: int|
                        0 <= i < old(self).categories@.len() && old(self).categories@[i].name@
                            == item_category_spec(input)) ==> final(self).categories@.len()
                        == old(self).categories@.len() + 1 && exists|x: CategoryState|
                        new_category_with(x, item_category_spec(input), input)
                            && final(self).categories@.to_multiset() == old(self).categories@.to_multiset().insert(x)
                    &&& (exists|i: int|
                        0 <= i < old(self).categories@.len() && old(self).categories@[i].name@
                            == item_category_spec(input)) ==> exists|j: int, x: CategoryState|
                        0 <= j < old(self).categories@.len() && old(self).categories@[j].name@
                            == item_category_spec(input) && category_with_item(x, old(self).categories@[j], input)
                            && final(self).categories@.to_multiset() == old(self).categories@.to_multiset().insert(x).remove(
                            old(self).categories@[j],
                        )
                    &&& final(self).menu_dirty
                },
                Some((c, i)) => if c >= old(self).categories@.len() || i >= old(self).categories@[c as int].items@.len() {
                    r is Err && r->Err_0@ == "Item no longer exists"@ && final(self).categories
                        == old(self).categories
                } else {
                    &&& r is Ok && r->Ok_0@ == "Item updated"@
                    &&& holds_item(final(self).categories@, item_category_spec(input), input, false)
                    &&& final(self).menu_dirty
                },
            },
            final(self).saved_themes == old(self).saved_themes,
            final(self).theme_key == old(self).theme_key,
            final(self).column_count == old(self).column_count,
            r is Ok && display_fits(final(self).categories@) ==> final(self).display_ok(),
            r is Err ==> final(self).display_entries == old(self).display_entries
                && final(self).column_map == old(self).column_map && final(self).current_index
                == old(self).current_index,
    {
        let label = trim(input.label.as_str());
        if label.unicode_len() == 0 {
            return Err(String::from_str("Label is required"));
        }
        let command = trim(input.command.as_str());
        if command.unicode_len() == 0 {
            return Err(String::from_str("Command is required"));
        }
        let category_name = item_category_name(&input);
        let new_item = MenuItem {
            label: String::from_str(label),
            cmd: String::from_str(command),
            info: String::from_str(trim(input.info.as_str())),
            pause: input.pause,
        };
        let ghost item_view = new_item;
        assert(item_from_input(item_view, input));
        let ghost name = item_category_spec(input);
        match input.target {
            Some((category_index, item_index)) => {
                if category_index >= self.categories.len() {
                    return Err(String::from_str("Item no longer exists"));
                }
                if item_index >= self.categories[category_index].items.len() {
                    return Err(String::from_str("Item no longer exists"));
                }
                let dest: usize;
                if str_eq(self.categories[category_index].name.as_str(), category_name.as_str()) {
                    let mut cat = self.categories.remove(category_index);
                    cat.items.set(item_index, new_item);
                    self.categories.insert(category_index, cat);
                    dest = category_index;
                    assert(self.categories@[dest as int].items@[item_index as int] == item_view);
                    assert(holds_item(self.categories@, name, input, false));
                } else {
                    let mut cat = self.categories.remove(category_index);
                    cat.items.remove(item_index);
                    if cat.items.len() > 0 {
                        self.categories.insert(category_index, cat);
                    }
                    let d = self.ensure_category(category_name.as_str());
                    self.push_item(d, new_item);
                    dest = d;
                    assert(self.categories@[dest as int].items@.last() == item_view);
                    assert(holds_item(self.categories@, name, input, false));
                }
                let ghost before = self.categories@;
                self.rebuild_display();
                proof {
                    let (k, t) = choose|k: int, t: int|
                        0 <= k < before.len() && 0 <= t < before[k].items@.len() && before[k].name@
                            == name && item_from_input(before[k].items@[t], input);
                    lemma_permuted_contains(before, self.categories@, k);
                    let j = choose|j: int| 0 <= j < self.categories@.len() && self.categories@[j] == before[k];
                    assert(self.categories@[j].items@[t] == before[k].items@[t]);
                }
                self.menu_dirty = true;
                Ok(String::from_str("Item updated"))
            },
            None => {
                let ghost existed = exists|i: int|
                    0 <= i < self.categories@.len() && self.categories@[i].name@ == name;
                let ghost start = self.categories@;
                let d = self.ensure_category(category_name.as_str());
                let ghost base = self.categories@[d as int];
                self.push_item(d, new_item);
                let ghost before = self.categories@;
                proof {
                    broadcast use vstd::seq_lib::group_to_multiset_ensures;

                    let x = before[d as int];
                    assert(x.items@ =~= base.items@.push(item_view));
                    if !existed {
                        assert(before =~= start.push(x));
                        assert(x.items@.len() == 1);
                        assert(x.items@[0] == item_view);
                        assert(x.name@ == name);
                        assert(x.column == 1);
                        assert(x.colors is None);
                        assert(new_category_with(x, name, input));
                    } else {
                        assert(before =~= start.update(d as int, x));
                        assert(x.items@.drop_last() =~= base.items@);
                        assert(base == start[d as int]);
                        assert(x.items@.last() == item_view);
                        assert(category_with_item(x, start[d as int], input));
                    }
                }
                let ghost t = before[d as int].items@.len() - 1;
                assert(before[d as int].items@[t] == item_view);
                self.rebuild_display();
                proof {
                    lemma_permuted_contains(before, self.categories@, d as int);
                    let j = choose|j: int| 0 <= j < self.categories@.len() && self.categories@[j] == before[d as int];
                    assert(self.categories@[j].items@[t] == item_view);
                    if !existed {
                        broadcast use vstd::seq_lib::group_to_multiset_ensures;

                        assert(before.to_multiset().len() == self.categories@.to_multiset().len());
                    }
                }
                self.menu_dirty = true;
                Ok(String::from_str("Item added"))
            },
        }
    }
}

/// The column a category form asks for: the current one when blank, else
/// the number typed, clamped to `1..=MAX_COLUMNS`; `None` when it is not a
/// number.
pub open spec fn column_choice(text: Seq<char>, current: u16) -> Option<u16> {
    if trimmed(text).len() == 0 {
        Some(clamp_column(current as int))
    } else {
        match parse_decimal_spec(trimmed(text), u16::MAX as nat) {
            Some(v) => Some(clamp_column(v as int)),
            None => None,
        }
    }
}

/// Reads a column count: blank keeps `current`, otherwise a number that is
/// clamped to `1..=MAX_COLUMNS`.
pub fn parse_column_choice(text: &str, current: u16) -> (r: Option<u16>)
    ensures
        r == column_choice(text@, current),
{
    let t = trim(text);
    if t.unicode_len() == 0 {
        return Some(clamp_columns(current));
    }
    match parse_decimal(t, 65535) {
        Some(v) => Some(clamp_columns(v as u16)),
        None => None,
    }
}

/// The name a user preset gets: its trimmed name, or "Custom Theme <n>"
/// numbered after the existing pairs.
pub open spec fn preset_name_spec(name: Seq<char>, count: nat) -> Seq<char> {
    if trimmed(name).len() > 0 {
        trimmed(name)
    } else {
        "Custom Theme "@ + decimal_text(count + 1)
    }
}

impl AppState {
    /// Applies a category form: a blank name keeps the old one; a name
    /// taken by another category, a column that is not a number, or a
    /// malformed color is refused with nothing changed. Blank colors clear
    /// the category's colors.
    pub fn apply_category_form_input(&mut self, input: CategoryFormInput) -> (r: Result<String, String>)
        requires
            1 <= old(self).column_count <= 6,
        ensures
            input.category_index >= old(self).categories@.len() ==> r is Err && r->Err_0@
                == "Category no longer exists"@ && final(self).categories == old(self).categories,
            r is Err ==> final(self).categories == old(self).categories && final(self).custom_colors
                == old(self).custom_colors,
            input.category_index < old(self).categories@.len() ==> {
                let cur = old(self).categories@[input.category_index as int];
                let new_name = if trimmed(input.name@).len() == 0 {
                    cur.name@
                } else {
                    trimmed(input.name@)
                };
                let taken = new_name != cur.name@ && exists|i: int|
                    0 <= i < old(self).categories@.len() && i != input.category_index
                        && old(self).categories@[i].name@ == new_name;
                let column = column_choice(input.column_value@, cur.column);
                let bg = color_field_spec(input.background@);
                let txt = color_field_spec(input.text_color@);
                &&& (taken ==> r is Err && r->Err_0@ == "Category name already exists"@)
                &&& (!taken && column is None ==> r is Err && r->Err_0@ == "Column must be a number"@)
                &&& (!taken && column is Some && (bg is Err || txt is Err) ==> r is Err && r->Err_0@
                    == color_format_error())
                &&& (!taken && column is Some && bg is Ok && txt is Ok ==> (r is Ok && r->Ok_0@
                    == "Category updated"@ && final(self).menu_dirty && exists|k: int|
                    0 <= k < final(self).categories@.len() && category_updated(
                        #[trigger] final(self).categories@[k],
                        cur,
                        new_name,
                        column->Some_0,
                        bg,
                        txt,
                    )))
            },
            final(self).saved_themes == old(self).saved_themes,
            final(self).theme_key == old(self).theme_key,
            final(self).custom_colors == old(self).custom_colors,
            final(self).column_count == old(self).column_count,
            r is Ok <==> category_accepts(old(self).categories@, input),
            r is Ok ==> category_applied(old(self).categories@, final(self).categories@, input),
            r is Err ==> final(self).display_entries == old(self).display_entries
                && final(self).column_map == old(self).column_map && final(self).current_index
                == old(self).current_index,
    {
        let idx = input.category_index;
        if idx >= self.categories.len() {
            return Err(String::from_str("Category no longer exists"));
        }
        let trimmed_name = trim(input.name.as_str());
        let new_name = if trimmed_name.unicode_len() == 0 {
            self.categories[idx].name.clone()
        } else {
            String::from_str(trimmed_name)
        };
        if !str_eq(new_name.as_str(), self.categories[idx].name.as_str()) {
            let mut i: usize = 0;
            while i < self.categories.len()
                invariant
                    *self == *old(self),
                    i <= self.categories@.len(),
                    idx == input.category_index,
                    idx < self.categories@.len(),
                    new_name@ == (if trimmed(input.name@).len() == 0 {
                        self.categories@[idx as int].name@
                    } else {
                        trimmed(input.name@)
                    }),
                    new_name@ != self.categories@[idx as int].name@,
                    forall|j: int|
                        0 <= j < i && j != idx ==> self.categories@[j].name@ != new_name@,
                decreases self.categories@.len() - i,
            {
                if i != idx && str_eq(self.categories[i].name.as_str(), new_name.as_str()) {
                    return Err(String::from_str("Category name already exists"));
                }
                i = i + 1;
            }
        }
        let column = match parse_column_choice(input.column_value.as_str(), self.categories[idx].column) {
            Some(c) => c,
            None => {
                return Err(String::from_str("Column must be a number"));
            },
        };
        let background = match parse_color_field(input.background.as_str()) {
            Ok(v) => v,
            Err(e) => {
                return Err(e);
            },
        };
        let text = match parse_color_field(input.text_color.as_str()) {
            Ok(v) => v,
            Err(e) => {
                return Err(e);
            },
        };
        let colors = if background.is_none() && text.is_none() {
            None
        } else {
            Some(ColorConfig { background, text })
        };
        let mut cat = self.categories.remove(idx);
        cat.name = new_name;
        cat.column = column;
        cat.colors = colors;
        let ghost placed = cat;
        self.categories.insert(idx, cat);
        assert(self.categories@[idx as int] == placed);
        let ghost before = self.categories@;
        self.rebuild_display();
        self.menu_dirty = true;
        proof {
            lemma_permuted_contains(before, self.categories@, idx as int);
            let j = choose|j: int| 0 <= j < self.categories@.len() && self.categories@[j] == before[idx as int];
            assert(category_updated(
                self.categories@[j],
                old(self).categories@[idx as int],
                new_name@,
                column,
                color_field_spec(input.background@),
                color_field_spec(input.text_color@),
            ));
        }
        Ok(String::from_str("Category updated"))
    }

    /// Adds a user color pair; a blank name becomes "Custom Theme <n>".
    pub fn add_custom_category_preset(&mut self, input: CustomPresetInput) -> (r: String)
        requires
            old(self).custom_colors@.len() + 1 < usize::MAX,
        ensures
            final(self).custom_colors@.len() == old(self).custom_colors@.len() + 1,
            final(self).custom_colors@.drop_last() == old(self).custom_colors@,
            ({
                let p = final(self).custom_colors@.last();
                &&& p.name is Some && p.name->Some_0@ == preset_name_spec(
                    input.name@,
                    old(self).custom_colors@.len(),
                )
                &&& p.background is Some && p.background->Some_0@ == input.background@
                &&& p.text is Some && p.text->Some_0@ == input.text@
            }),
            r@ == "Theme '"@ + preset_name_spec(input.name@, old(self).custom_colors@.len())
                + "' added"@,
            final(self).menu_dirty,
            final(self).categories == old(self).categories,
            final(self).saved_themes == old(self).saved_themes,
            final(self).theme_key == old(self).theme_key,
            final(self).column_count == old(self).column_count,
    {
        let t = trim(input.name.as_str());
        let name = if t.unicode_len() > 0 {
            String::from_str(t)
        } else {
            numbered_custom_name(self.custom_colors.len())
        };
        let mut msg = String::from_str("Theme '");
        msg.append(name.as_str());
        msg.append("' added");
        self.custom_colors.push(
            NamedColorPair {
                name: Some(name),
                background: Some(input.background),
                text: Some(input.text),
            },
        );
        assert(self.custom_colors@.drop_last() =~= old(self).custom_colors@);
        self.menu_dirty = true;
        msg
    }

    /// Deletes user color pair `index`.
    pub fn delete_custom_category_preset(&mut self, index: usize) -> (r: Result<String, String>)
        ensures
            index >= old(self).custom_colors@.len() ==> r is Err && r->Err_0@
                == "Custom theme not found"@ && final(self).custom_colors == old(self).custom_colors,
            index < old(self).custom_colors@.len() ==> r is Ok && final(self).custom_colors@ == old(self).custom_colors@.remove(index as int) && final(self).menu_dirty,
            final(self).active_popup == old(self).active_popup,
            final(self).categories == old(self).categories,
            final(self).saved_themes == old(self).saved_themes,
            final(self).theme_key == old(self).theme_key,
            final(self).column_count == old(self).column_count,
    {
        if index >= self.custom_colors.len() {
            return Err(String::from_str("Custom theme not found"));
        }
        let removed = self.custom_colors.remove(index);
        let name = match removed.name {
            Some(n) => n,
            None => numbered_custom_name(index),
        };
        let mut msg = String::from_str("Theme '");
        msg.append(name.as_str());
        msg.append("' deleted");
        self.menu_dirty = true;
        Ok(msg)
    }

    /// Applies a category form submission: the category is updated first,
    /// and only then is a new color pair added, so a refused submission
    /// changes nothing. Both messages are joined by " | ".
    pub fn process_category_submission(&mut self, payload: CategorySubmitPayload) -> (r: Result<
        String,
        String,
    >)
        requires
            1 <= old(self).column_count <= 6,
            old(self).custom_colors@.len() + 1 < usize::MAX,
        ensures
            r is Err ==> final(self).categories == old(self).categories && final(self).custom_colors
                == old(self).custom_colors,
            r is Ok && payload.new_preset is Some ==> {
                &&& final(self).custom_colors@.len() == old(self).custom_colors@.len() + 1
                &&& final(self).custom_colors@.drop_last() == old(self).custom_colors@
                &&& final(self).custom_colors@.last().background->Some_0@
                    == payload.new_preset->Some_0.background@
                &&& final(self).custom_colors@.last().text->Some_0@
                    == payload.new_preset->Some_0.text@
                &&& final(self).custom_colors@.last().name->Some_0@ == preset_name_spec(
                    payload.new_preset->Some_0.name@,
                    old(self).custom_colors@.len(),
                )
            },
            r is Ok && payload.new_preset is None ==> final(self).custom_colors
                == old(self).custom_colors && r->Ok_0@ == "Category updated"@,
            r is Ok && payload.new_preset is Some ==> r->Ok_0@ == "Theme '"@ + preset_name_spec(
                payload.new_preset->Some_0.name@,
                old(self).custom_colors@.len(),
            ) + "' added"@ + " | "@ + "Category updated"@,
            r is Ok <==> category_accepts(old(self).categories@, payload.form),
            r is Ok ==> category_applied(old(self).categories@, final(self).categories@, payload.form),
            final(self).saved_themes == old(self).saved_themes,
            final(self).theme_key == old(self).theme_key,
            final(self).column_count == old(self).column_count,
    {
        let ghost form = payload.form;
        let updated = match self.apply_category_form_input(payload.form) {
            Ok(msg) => msg,
            Err(e) => {
                return Err(e);
            },
        };
        match payload.new_preset {
            Some(preset) => {
                let mut msg = self.add_custom_category_preset(preset);
                let presets = self.available_color_presets();
                self.refresh_category_form_presets(presets, true);
                msg.append(" | ");
                msg.append(updated.as_str());
                Ok(msg)
            },
            None => Ok(updated),
        }
    }

    /// After the user pairs changed, gives an open category form the new
    /// preset list `presets`, focuses its palette, and copies the selected
    /// preset in: after an addition the last preset is selected, otherwise
    /// the old selection, kept in range.
    pub fn refresh_category_form_presets(&mut self, presets: Vec<ColorPreset>, added: bool)
        requires
            presets@.len() > 0,
        ensures
            final(self).categories == old(self).categories,
            final(self).custom_colors == old(self).custom_colors,
            final(self).saved_themes == old(self).saved_themes,
            final(self).theme_key == old(self).theme_key,
            final(self).column_count == old(self).column_count,
            final(self).menu_dirty == old(self).menu_dirty,
            match old(self).active_popup {
                Some(PopupState::CategoryForm(f)) => final(self).active_popup matches Some(PopupState::CategoryForm(g))
                    && g@ == with_palette_applied(
                    CategoryFormView {
                        presets: presets@,
                        palette_index: if added || f.palette_index >= presets@.len() {
                            (presets@.len() - 1) as usize
                        } else {
                            f.palette_index
                        },
                        selected_field: CategoryField::Palette,
                        ..f@
                    },
                ),
                _ => final(self).active_popup == old(self).active_popup,
            },
    {
        match &mut self.active_popup {
            Some(PopupState::CategoryForm(form)) => {
                if added {
                    form.refresh_presets(presets);
                    if form.color_presets.len() > 0 {
                        let last = form.color_presets.len() - 1;
                        form.focus_palette_index(last);
                    }
                } else {
                    let n = presets.len();
                    let target = if form.palette_index < n {
                        form.palette_index
                    } else {
                        n - 1
                    };
                    form.refresh_presets(presets);
                    form.focus_palette_index(target);
                }
            },
            _ => {},
        }
    }
}

/// The name a category form gives: the trimmed name, or the old one when
/// blank.
pub open spec fn new_name_for(cats: Seq<CategoryState>, input: CategoryFormInput) -> Seq<char> {
    if trimmed(input.name@).len() == 0 {
        cats[input.category_index as int].name@
    } else {
        trimmed(input.name@)
    }
}

/// A category form is accepted: its category exists, its name is not
/// another category's, its column is blank or a number, and both colors
/// are blank or valid.
pub open spec fn category_accepts(cats: Seq<CategoryState>, input: CategoryFormInput) -> bool {
    let i = input.category_index as int;
    let name = new_name_for(cats, input);
    &&& i < cats.len()
    &&& !(name != cats[i].name@ && exists|j: int| 0 <= j < cats.len() && j != i && cats[j].name@ == name)
    &&& column_choice(input.column_value@, cats[i].column) is Some
    &&& color_field_spec(input.background@) is Ok
    &&& color_field_spec(input.text_color@) is Ok
}

/// After an accepted form, the edited category is present with the new
/// name, column and colors.
pub open spec fn category_applied(old_cats: Seq<CategoryState>, cats: Seq<CategoryState>, input: CategoryFormInput) -> bool {
    exists|k: int|
        0 <= k < cats.len() && category_updated(
            #[trigger] cats[k],
            old_cats[input.category_index as int],
            new_name_for(old_cats, input),
            column_choice(input.column_value@, old_cats[input.category_index as int].column)->Some_0,
            color_field_spec(input.background@),
            color_field_spec(input.text_color@),
        )
}

/// The category after an update with this name, column and colors.
pub open spec fn category_updated(
    c: CategoryState,
    cur: CategoryState,
    name: Seq<char>,
    column: u16,
    bg: Result<Option<Seq<char>>, ()>,
    txt: Result<Option<Seq<char>>, ()>,
) -> bool {
    &&& c.name@ == name
    &&& c.column == column
    &&& c.items == cur.items
    &&& c.expanded == cur.expanded
    &&& colors_match(c.colors, bg, txt)
}

/// A category's colors after a form gave these background and text
/// fields: none when both are blank, else the checked values.
pub open spec fn colors_match(
    c: Option<ColorConfig>,
    bg: Result<Option<Seq<char>>, ()>,
    txt: Result<Option<Seq<char>>, ()>,
) -> bool {
    match (bg, txt) {
        (Ok(None), Ok(None)) => c is None,
        (Ok(b), Ok(t)) => c is Some && opt_view(c->Some_0.background) == b && opt_view(
            c->Some_0.text,
        ) == t,
        _ => true,
    }
}

/// The characters of an optional string, `None` kept.
pub open spec fn opt_view(v: Option<String>) -> Option<Seq<char>> {
    match v {
        Some(s) => Some(s@),
        None => None,
    }
}

/// The first option with key `key`.
pub open spec fn first_option(options: Seq<OptionView>, key: Seq<char>) -> Option<OptionView> {
    if exists|i: int| 0 <= i < options.len() && options[i].key == key {
        let i = choose|i: int|
            0 <= i < options.len() && options[i].key == key && forall|j: int|
                0 <= j < i ==> options[j].key != key;
        Some(options[i])
    } else {
        None
    }
}

proof fn lemma_first_option(v: Seq<OptionView>, key: Seq<char>, i: int)
    requires
        0 <= i < v.len(),
        v[i].key == key,
        forall|j: int| 0 <= j < i ==> v[j].key != key,
    ensures
        first_option(v, key) == Some(v[i]),
{
    let c = choose|c: int|
        0 <= c < v.len() && v[c].key == key && forall|j: int| 0 <= j < c ==> v[j].key != key;
    if c < i {
    } else if c > i {
        assert(v[i].key == key);
    }
}

/// What a theme option shows: its key, label and six colors.
pub struct OptionView {
    pub key: Seq<char>,
    pub label: Seq<char>,
    pub colors: Seq<Seq<char>>,
}

impl ThemeOption {
    pub open spec fn view_of(&self) -> OptionView {
        OptionView { key: self.key@, label: self.label@, colors: self.colors() }
    }
}

/// The settings form's theme list: the presets, every saved theme, and the
/// live theme under the custom key when that key is active.
pub open spec fn options_spec(saved: Seq<SavedTheme>, active: Seq<char>, live: Theme) -> Seq<OptionView> {
    let presets = Seq::new(
        5,
        |i: int| OptionView { key: preset_table()[i].0, label: preset_table()[i].1, colors: preset_table()[i].2 },
    );
    let saves = Seq::new(
        saved.len(),
        |i: int| OptionView { key: saved_key_spec(i as nat), label: saved[i].name@, colors: saved[i].colors() },
    );
    let base = presets + saves;
    if active == custom_key() {
        base.push(OptionView { key: custom_key(), label: "Custom Theme"@, colors: live.colors() })
    } else {
        base
    }
}

pub fn find_option(options: &Vec<ThemeOption>, key: &str, ghost_views: Ghost<Seq<OptionView>>) -> (r: Option<usize>)
    requires
        ghost_views@.len() == options@.len(),
        forall|i: int| 0 <= i < options@.len() ==> (#[trigger] options@[i]).view_of() == ghost_views@[i],
    ensures
        match r {
            Some(i) => i < options@.len() && options@[i as int].key@ == key@ && forall|j: int|
                0 <= j < i ==> options@[j].key@ != key@,
            None => forall|j: int| 0 <= j < options@.len() ==> options@[j].key@ != key@,
        },
        match r {
            Some(i) => first_option(ghost_views@, key@) == Some(ghost_views@[i as int]),
            None => first_option(ghost_views@, key@) is None,
        },
{
    let mut i: usize = 0;
    while i < options.len()
        invariant
            i <= options@.len(),
            ghost_views@.len() == options@.len(),
            forall|j: int| 0 <= j < options@.len() ==> (#[trigger] options@[j]).view_of() == ghost_views@[j],
            forall|j: int| 0 <= j < i ==> options@[j].key@ != key@,
        decreases options@.len() - i,
    {
        if str_eq(options[i].key.as_str(), key) {
            proof {
                assert(options@[i as int].view_of() == ghost_views@[i as int]);
                assert forall|j: int| 0 <= j < i implies ghost_views@[j].key != key@ by {
                    assert(options@[j].view_of() == ghost_views@[j]);
                }
                lemma_first_option(ghost_views@, key@, i as int);
            }
            return Some(i);
        }
        i = i + 1;
    }
    proof {
        assert forall|j: int| 0 <= j < ghost_views@.len() implies ghost_views@[j].key != key@ by {
            assert(options@[j].view_of() == ghost_views@[j]);
        }
    }
    None
}

/// Whether a settings submission defines a custom theme, from the six
/// trimmed color fields (primary, accent, highlight, background, surface,
/// text), the trimmed custom name, the selected option and the live theme's
/// name. Any color that differs from the selected option, or a name that
/// does not match it, means a custom theme; with no colors typed, only a
/// name that matches no selection does.
pub open spec fn use_custom_spec(
    colors: Seq<Seq<char>>,
    name: Seq<char>,
    sel: Option<OptionView>,
    live_name: Seq<char>,
) -> bool {
    let any_color = exists|k: int| 0 <= k < 6 && colors[k].len() > 0;
    let colors_match = match sel {
        Some(o) => forall|k: int| 0 <= k < 6 ==> hex_equal_spec(colors[k], o.colors[k]),
        None => false,
    };
    let name_matches = if name.len() == 0 {
        true
    } else {
        match sel {
            Some(o) => if saved_index_spec(o.key) is Some {
                eq_ignore_case_spec(name, o.label)
            } else if o.key == custom_key() {
                eq_ignore_case_spec(name, live_name)
            } else {
                false
            },
            None => false,
        }
    };
    if any_color {
        match sel {
            Some(_) => !colors_match || !name_matches,
            None => true,
        }
    } else if name.len() == 0 {
        false
    } else {
        !name_matches || sel is None
    }
}

/// The six trimmed color fields of a settings submission.
pub open spec fn input_colors(input: SettingsFormInput) -> Seq<Seq<char>> {
    seq![
        trimmed(input.custom_primary@),
        trimmed(input.custom_accent@),
        trimmed(input.custom_highlight@),
        trimmed(input.custom_background@),
        trimmed(input.custom_surface@),
        trimmed(input.custom_text@),
    ]
}

/// What a checked color field holds (blank when it is blank or invalid).
pub open spec fn field_value(c: Seq<char>) -> Seq<char> {
    match color_field_spec(c) {
        Ok(Some(v)) => v,
        _ => Seq::empty(),
    }
}

/// The six checked colors of a custom theme submission.
pub open spec fn custom_values(input: SettingsFormInput) -> Seq<Seq<char>> {
    let c = input_colors(input);
    seq![
        field_value(c[0]),
        field_value(c[1]),
        field_value(c[2]),
        field_value(c[3]),
        field_value(c[4]),
        field_value(c[5]),
    ]
}

/// The characters of six color fields.
pub open spec fn six_views(c: Seq<&str>) -> Seq<Seq<char>> {
    seq![c[0]@, c[1]@, c[2]@, c[3]@, c[4]@, c[5]@]
}

/// The checked values of six color fields.
pub open spec fn six_values(c: Seq<&str>) -> Seq<Seq<char>> {
    seq![
        field_value(c[0]@),
        field_value(c[1]@),
        field_value(c[2]@),
        field_value(c[3]@),
        field_value(c[4]@),
        field_value(c[5]@),
    ]
}

/// All six color fields are valid colors.
pub open spec fn custom_colors_ok(colors: Seq<Seq<char>>) -> bool {
    forall|k: int| 0 <= k < 6 ==> #[trigger] color_field_spec(colors[k]) matches Ok(Some(_))
}

/// The key a settings submission selects: its trimmed key, or the active
/// key when blank.
pub open spec fn chosen_key(input: SettingsFormInput, active: Seq<char>) -> Seq<char> {
    if trimmed(input.theme_key@).len() == 0 {
        active
    } else {
        trimmed(input.theme_key@)
    }
}

fn six_colors_match(colors: &Vec<&str>, o: &ThemeOption) -> (r: bool)
    requires
        colors@.len() == 6,
    ensures
        r == forall|k: int| 0 <= k < 6 ==> hex_equal_spec(colors@[k]@, o.colors()[k]),
{
    let r = hex_strings_equal(colors[0], o.primary_hex.as_str()) && hex_strings_equal(
        colors[1],
        o.accent_hex.as_str(),
    ) && hex_strings_equal(colors[2], o.highlight_hex.as_str()) && hex_strings_equal(
        colors[3],
        o.background_hex.as_str(),
    ) && hex_strings_equal(colors[4], o.surface_hex.as_str()) && hex_strings_equal(
        colors[5],
        o.text_hex.as_str(),
    );
    proof {
        if !r {
            if !hex_equal_spec(colors@[0]@, o.colors()[0]) {
            } else if !hex_equal_spec(colors@[1]@, o.colors()[1]) {
            } else if !hex_equal_spec(colors@[2]@, o.colors()[2]) {
            } else if !hex_equal_spec(colors@[3]@, o.colors()[3]) {
            } else if !hex_equal_spec(colors@[4]@, o.colors()[4]) {
            } else {
                assert(!hex_equal_spec(colors@[5]@, o.colors()[5]));
            }
        } else {
            assert forall|k: int| 0 <= k < 6 implies hex_equal_spec(colors@[k]@, o.colors()[k]) by {
                if k == 0 {
                } else if k == 1 {
                } else if k == 2 {
                } else if k == 3 {
                } else if k == 4 {
                } else {
                }
            }
        }
    }
    r
}

impl AppState {
    /// Applies a settings submission. Everything is checked before anything
    /// changes: a column count that is not a number, a custom theme with a
    /// missing or malformed color, a saved theme that no longer exists, the
    /// custom option without colors, and an unknown key are refused. A
    /// custom theme with a name is saved (over one of the same name) and
    /// selected; without a name it stays unsaved under the custom key.
    /// Otherwise the chosen preset or saved theme becomes active.
    /// Whether a settings submission defines a custom theme, from its six
    /// trimmed color fields, its trimmed name and the key it selects.
    #[verifier::rlimit(80)]
    fn wants_custom_theme(&self, colors: &Vec<&str>, name: &str, theme_key: &str) -> (r: bool)
        requires
            colors@.len() == 6,
        ensures
            r == use_custom_spec(
                six_views(colors@),
                name@,
                first_option(options_spec(self.saved_themes@, self.theme_key@, self.theme), theme_key@),
                self.theme.name@,
            ),
    {
        let options = self.theme_options();
        let ghost views = options_spec(self.saved_themes@, self.theme_key@, self.theme);
        let selected = find_option(&options, theme_key, Ghost(views));
        let mut any_color = false;
        let mut k: usize = 0;
        while k < 6
            invariant
                k <= 6,
                colors@.len() == 6,
                any_color == exists|j: int| 0 <= j < k && colors@[j]@.len() > 0,
            decreases 6 - k,
        {
            if colors[k].unicode_len() > 0 {
                any_color = true;
            }
            k = k + 1;
        }
        let colors_match = match selected {
            Some(i) => six_colors_match(&colors, &options[i]),
            None => false,
        };
        let name_matches = if name.unicode_len() == 0 {
            true
        } else {
            match selected {
                Some(i) => if parse_saved_theme_key(options[i].key.as_str()).is_some() {
                    eq_ignore_ascii_case(name, options[i].label.as_str())
                } else if str_eq(options[i].key.as_str(), "custom") {
                    eq_ignore_ascii_case(name, self.theme.name.as_str())
                } else {
                    false
                },
                None => false,
            }
        };
        let use_custom = if any_color {
            match selected {
                Some(_) => !colors_match || !name_matches,
                None => true,
            }
        } else if name.unicode_len() == 0 {
            false
        } else {
            !name_matches || selected.is_none()
        };
        assert(six_views(colors@) =~= Seq::new(6, |k: int| colors@[k]@));
        use_custom
    }

    /// Makes a custom theme from six trimmed color fields (primary, accent,
    /// highlight, background, surface, text) and a trimmed name; every color
    /// is required. A named theme is saved (over one of the same name) and
    /// selected; an unnamed one stays under the custom key.
    fn apply_custom_theme(&mut self, colors: &Vec<&str>, name: &str) -> (r: Result<(), String>)
        requires
            colors@.len() == 6,
            old(self).saved_themes@.len() + 10 < usize::MAX,
        ensures
            r is Ok <==> forall|k: int| 0 <= k < 6 ==> #[trigger] color_field_spec(colors@[k]@) matches Ok(Some(_)),
            r is Err ==> *final(self) == *old(self),
            r is Ok ==> {
                &&& final(self).theme.is_from(
                    if name@.len() == 0 {
                        "Custom Theme"@
                    } else {
                        name@
                    },
                    six_values(colors@),
                )
                &&& final(self).theme_dirty
                &&& (name@.len() == 0 ==> final(self).theme_key@ == custom_key() && final(self).saved_themes
                    == old(self).saved_themes)
                &&& (name@.len() > 0 ==> {
                    &&& final(self).saved_themes@.len() == old(self).saved_themes@.len() + if exists|i: int|
                        0 <= i < old(self).saved_themes@.len() && old(self).saved_themes@[i].name@ == name@ {
                        0int
                    } else {
                        1int
                    }
                    &&& exists|i: int|
                        0 <= i < final(self).saved_themes@.len() && final(self).theme_key@
                            == saved_key_spec(i as nat) && final(self).saved_themes@[i].colors()
                            == six_values(colors@) && final(self).saved_themes@[i].name@ == name@
                })
            },
            final(self).categories == old(self).categories,
            final(self).custom_colors == old(self).custom_colors,
            final(self).title == old(self).title,
            final(self).column_count == old(self).column_count,
            final(self).menu_dirty == old(self).menu_dirty,
    {
        let primary = match require_color_field(colors[0], "Primary") {
            Ok(v) => v,
            Err(e) => {
                return Err(e);
            },
        };
        let accent = match require_color_field(colors[1], "Accent") {
            Ok(v) => v,
            Err(e) => {
                return Err(e);
            },
        };
        let highlight = match require_color_field(colors[2], "Highlight") {
            Ok(v) => v,
            Err(e) => {
                return Err(e);
            },
        };
        let background = match require_color_field(colors[3], "Background") {
            Ok(v) => v,
            Err(e) => {
                return Err(e);
            },
        };
        let surface = match require_color_field(colors[4], "Surface") {
            Ok(v) => v,
            Err(e) => {
                return Err(e);
            },
        };
        let text_color = match require_color_field(colors[5], "Text") {
            Ok(v) => v,
            Err(e) => {
                return Err(e);
            },
        };
        proof {
            assert forall|j: int| 0 <= j < 6 implies #[trigger] color_field_spec(colors@[j]@) matches Ok(Some(_)) by {
                if j == 0 {
                } else if j == 1 {
                } else if j == 2 {
                } else if j == 3 {
                } else if j == 4 {
                } else {
                }
            }
        }
        let ghost values = six_values(colors@);
        let theme_name = if name.unicode_len() == 0 {
            String::from_str("Custom Theme")
        } else {
            String::from_str(name)
        };
        let theme = Theme::from_hexes(
            theme_name.clone(),
            primary.as_str(),
            accent.as_str(),
            highlight.as_str(),
            background.as_str(),
            surface.as_str(),
            text_color.as_str(),
        );
        assert(seq![primary@, accent@, highlight@, background@, surface@, text_color@] =~= values);
        let mut new_key = String::from_str("custom");
        if name.unicode_len() > 0 {
            let saved = SavedTheme {
                name: theme_name,
                primary,
                accent,
                highlight: Some(highlight),
                background,
                surface,
                text: text_color,
            };
            assert(saved.colors() =~= values);
            let index = self.upsert_saved_theme(saved);
            new_key = saved_theme_key(index);
            assert(self.saved_themes@[index as int].colors() == values);
        }
        self.theme = theme;
        self.theme_key = new_key;
        self.theme_dirty = true;
        Ok(())
    }

    /// Selects a preset or saved theme by key. Selecting the active theme
    /// changes nothing; a saved theme that no longer exists, the custom key
    /// when no custom theme is active, and an unknown key are refused.
    fn apply_known_theme(&mut self, theme_key: String) -> (r: Result<(), String>)
        ensures
            r is Err ==> *final(self) == *old(self),
            match saved_index_spec(theme_key@) {
                Some(i) => if saved_index_spec(old(self).theme_key@) == Some(i) {
                    r is Ok && *final(self) == *old(self)
                } else if i < old(self).saved_themes@.len() {
                    &&& r is Ok
                    &&& final(self).theme_key@ == saved_key_spec(i)
                    &&& final(self).theme.is_from(
                        old(self).saved_themes@[i as int].name@,
                        old(self).saved_themes@[i as int].colors(),
                    )
                } else {
                    r is Err && r->Err_0@ == "Saved theme not found"@
                },
                None => if theme_key@ == custom_key() {
                    if old(self).theme_key@ == custom_key() {
                        r is Ok && *final(self) == *old(self)
                    } else {
                        r is Err && r->Err_0@ == "Enter custom colors to create a custom theme"@
                    }
                } else if theme_key@ == old(self).theme_key@ {
                    r is Ok && *final(self) == *old(self)
                } else if is_preset_key_spec(theme_key@) {
                    &&& r is Ok
                    &&& final(self).theme_key@ == theme_key@
                    &&& exists|i: int|
                        0 <= i < 5 && preset_table()[i].0 == theme_key@ && final(self).theme.is_from(
                            theme_key@,
                            preset_table()[i].2,
                        )
                } else {
                    r is Err && r->Err_0@ == "Unknown theme selected"@
                },
            },
            final(self).saved_themes == old(self).saved_themes,
            final(self).categories == old(self).categories,
            final(self).custom_colors == old(self).custom_colors,
            final(self).title == old(self).title,
            final(self).column_count == old(self).column_count,
            final(self).menu_dirty == old(self).menu_dirty,
    {
        match parse_saved_theme_key(theme_key.as_str()) {
            Some(index) => {
                let current = parse_saved_theme_key(self.theme_key.as_str());
                if current != Some(index) {
                    if index >= self.saved_themes.len() {
                        return Err(String::from_str("Saved theme not found"));
                    }
                    self.theme = Theme::from_saved(&self.saved_themes[index]);
                    self.theme_key = saved_theme_key(index);
                    self.theme_dirty = true;
                }
                Ok(())
            },
            None => {
                if str_eq(theme_key.as_str(), "custom") {
                    if !str_eq(self.theme_key.as_str(), "custom") {
                        return Err(String::from_str("Enter custom colors to create a custom theme"));
                    }
                    Ok(())
                } else if !str_eq(theme_key.as_str(), self.theme_key.as_str()) {
                    match Theme::from_name(theme_key.as_str()) {
                        Some(t) => {
                            self.theme = t;
                            self.theme_key = theme_key;
                            self.theme_dirty = true;
                            Ok(())
                        },
                        None => Err(String::from_str("Unknown theme selected")),
                    }
                } else {
                    Ok(())
                }
            },
        }
    }

    #[verifier::rlimit(80)]
    pub fn apply_settings_form_input(&mut self, input: SettingsFormInput) -> (r: Result<
        String,
        String,
    >)
        requires
            1 <= old(self).column_count <= 6,
            old(self).saved_themes@.len() + 10 < usize::MAX,
        ensures
            r is Err ==> final(self).saved_themes == old(self).saved_themes && final(self).theme_key
                == old(self).theme_key && final(self).title == old(self).title && final(self).column_count == old(self).column_count && final(self).categories
                == old(self).categories && final(self).theme == old(self).theme,
            column_choice(input.columns@, old(self).column_count) is None ==> r is Err
                && r->Err_0@ == "Columns must be a number"@,
            r is Ok ==> final(self).column_count == column_choice(
                input.columns@,
                old(self).column_count,
            )->Some_0,
            r is Ok ==> final(self).title@ == if trimmed(input.title@).len() == 0 {
                old(self).title@
            } else {
                trimmed(input.title@)
            },
            ({
                let key = chosen_key(input, old(self).theme_key@);
                let sel = first_option(options_spec(old(self).saved_themes@, old(self).theme_key@, old(self).theme), key);
                let custom = use_custom_spec(
                    input_colors(input),
                    trimmed(input.custom_theme_name@),
                    sel,
                    old(self).theme.name@,
                );
                &&& (column_choice(input.columns@, old(self).column_count) is Some && custom
                    ==> (r is Ok <==> custom_colors_ok(input_colors(input))))
                &&& (r is Ok && custom ==> {
                    &&& final(self).theme.name@ == if trimmed(input.custom_theme_name@).len() == 0 {
                        "Custom Theme"@
                    } else {
                        trimmed(input.custom_theme_name@)
                    }
                    &&& (trimmed(input.custom_theme_name@).len() == 0 ==> final(self).theme_key@
                        == custom_key() && final(self).saved_themes == old(self).saved_themes)
                    &&& (trimmed(input.custom_theme_name@).len() > 0 ==> exists|i: int|
                        0 <= i < final(self).saved_themes@.len() && final(self).theme_key@
                            == saved_key_spec(i as nat) && final(self).saved_themes@[i].name@
                            == trimmed(input.custom_theme_name@))
                })
                &&& (column_choice(input.columns@, old(self).column_count) is Some && !custom
                    && is_preset_key_spec(key) ==> r is Ok)
                &&& (column_choice(input.columns@, old(self).column_count) is Some && !custom
                    && saved_index_spec(key) is Some && saved_index_spec(key)->Some_0 < old(self).saved_themes@.len()
                    ==> r is Ok)
                &&& (r is Ok && !custom && saved_index_spec(key) is Some && saved_index_spec(old(self).theme_key@)
                    != saved_index_spec(key) ==> {
                    let i = saved_index_spec(key)->Some_0 as int;
                    &&& final(self).theme_key@ == saved_key_spec(i as nat)
                    &&& final(self).theme.is_from(old(self).saved_themes@[i].name@, old(self).saved_themes@[i].colors())
                })
                &&& (r is Ok && custom ==> final(self).theme.is_from(
                    final(self).theme.name@,
                    custom_values(input),
                ))
                &&& (r is Ok && custom && trimmed(input.custom_theme_name@).len() > 0 ==> {
                    &&& final(self).saved_themes@.len() == old(self).saved_themes@.len() + if exists|i: int|
                        0 <= i < old(self).saved_themes@.len() && old(self).saved_themes@[i].name@
                            == trimmed(input.custom_theme_name@) {
                        0int
                    } else {
                        1int
                    }
                    &&& exists|i: int|
                        0 <= i < final(self).saved_themes@.len() && final(self).theme_key@
                            == saved_key_spec(i as nat) && final(self).saved_themes@[i].colors()
                            == custom_values(input)
                })
                &&& (r is Ok && !custom ==> {
                    &&& final(self).saved_themes == old(self).saved_themes
                    &&& (is_preset_key_spec(key) && key != old(self).theme_key@ ==> final(self).theme_key@ == key && exists|i: int|
                        0 <= i < 5 && preset_table()[i].0 == key && final(self).theme.is_from(
                            key,
                            preset_table()[i].2,
                        ))
                })
            }),
    {
        let mut title = String::from_str(trim(input.title.as_str()));
        if title.as_str().unicode_len() == 0 {
            title = self.title.clone();
        }
        let columns = match parse_column_choice(input.columns.as_str(), self.column_count) {
            Some(c) => c,
            None => {
                return Err(String::from_str("Columns must be a number"));
            },
        };
        let mut theme_key = String::from_str(trim(input.theme_key.as_str()));
        if theme_key.as_str().unicode_len() == 0 {
            theme_key = self.theme_key.clone();
        }
        let mut colors: Vec<&str> = Vec::new();
        colors.push(trim(input.custom_primary.as_str()));
        colors.push(trim(input.custom_accent.as_str()));
        colors.push(trim(input.custom_highlight.as_str()));
        colors.push(trim(input.custom_background.as_str()));
        colors.push(trim(input.custom_surface.as_str()));
        colors.push(trim(input.custom_text.as_str()));
        assert(colors@.len() == 6);
        let ghost color_views = input_colors(input);
        assert forall|k: int| 0 <= k < 6 implies colors@[k]@ == color_views[k] by {}
        let name = trim(input.custom_theme_name.as_str());
        let use_custom = self.wants_custom_theme(&colors, name, theme_key.as_str());
        assert(six_views(colors@) =~= color_views);
        let ghost mut w: int = 0;
        if use_custom {
            match self.apply_custom_theme(&colors, name) {
                Ok(()) => {},
                Err(e) => {
                    return Err(e);
                },
            }
            assert(custom_values(input) =~= six_values(colors@));
            proof {
                if name@.len() > 0 {
                    w = choose|i: int|
                        0 <= i < self.saved_themes@.len() && self.theme_key@ == saved_key_spec(i as nat)
                            && self.saved_themes@[i].colors() == six_values(colors@)
                            && self.saved_themes@[i].name@ == name@;
                }
            }
        } else {
            proof {
                crate::theme::lemma_custom_key_is_distinct();
                if saved_index_spec(theme_key@) is Some {
                    lemma_saved_is_not_preset(theme_key@);
                }
            }
            match self.apply_known_theme(theme_key) {
                Ok(()) => {},
                Err(e) => {
                    return Err(e);
                },
            }
        }
        let mut changed = self.theme_dirty;
        if !str_eq(title.as_str(), self.title.as_str()) {
            self.title = title;
            changed = true;
        } else {
            self.title = title;
        }
        if columns != self.column_count {
            self.column_count = columns;
            self.rebuild_display();
            changed = true;
        }
        self.menu_dirty = true;
        assert(use_custom && name@.len() > 0 ==> 0 <= w < self.saved_themes@.len() && self.theme_key@
            == saved_key_spec(w as nat) && self.saved_themes@[w].colors() == custom_values(input)
            && self.saved_themes@[w].name@ == name@);
        if changed {
            Ok(String::from_str("Settings updated"))
        } else {
            Ok(String::from_str("No settings changed"))
        }
    }

}

/// A saved-theme key is not a preset key.
pub proof fn lemma_saved_is_not_preset(key: Seq<char>)
    requires
        saved_index_spec(key) is Some,
    ensures
        !is_preset_key_spec(key),
{
    reveal_strlit("saved:");
    reveal_strlit("classic");
    reveal_strlit("nord");
    reveal_strlit("gruvbox");
    reveal_strlit("dracula");
    reveal_strlit("monokai");
    assert(key.subrange(0, 6) == saved_prefix());
    assert forall|i: int| 0 <= i < 5 implies preset_table()[i].0 != key by {
        if preset_table()[i].0 == key {
            assert(key.subrange(0, 6)[0] == key[0]);
        }
    }
}

} // verus!
