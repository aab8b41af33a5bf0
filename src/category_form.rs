//! The form that edits a category: its name, column and header colors, with
//! a list of color presets to pick from.
use crate::hex::{
    color_field_spec, color_format_error, hex_equal_spec, hex_strings_equal, normalize_hex,
    normalize_hex_spec, parse_color_field,
};
use crate::keys::{apply_edit, edit_for_key, edited, key_edit, KeyCode, KeyInput, TextEdit};
use crate::menu::{CategoryState, ColorPreset};
use crate::text::{eq_ignore_case_spec, trim, trimmed};
use vstd::prelude::*;
use vstd::string::StringExecFns;

verus! {

/// The fields of the category form.
#[derive(Clone, Copy, Debug, PartialEq, Eq, Structural)]
pub enum CategoryField {
    Name,
    Column,
    CustomPresetName,
    CustomPresetBackground,
    CustomPresetText,
    Palette,
}

/// Focus order: name, column, the palette when there are presets, then the
/// custom preset's name, background and text.
pub open spec fn next_category_field(f: CategoryField, has_palette: bool) -> CategoryField {
    match f {
        CategoryField::Name => CategoryField::Column,
        CategoryField::Column => if has_palette {
            CategoryField::Palette
        } else {
            CategoryField::CustomPresetName
        },
        CategoryField::Palette => CategoryField::CustomPresetName,
        CategoryField::CustomPresetName => CategoryField::CustomPresetBackground,
        CategoryField::CustomPresetBackground => CategoryField::CustomPresetText,
        CategoryField::CustomPresetText => CategoryField::Name,
    }
}

pub open spec fn previous_category_field(f: CategoryField, has_palette: bool) -> CategoryField {
    match f {
        CategoryField::Name => CategoryField::CustomPresetText,
        CategoryField::Column => CategoryField::Name,
        CategoryField::Palette => CategoryField::Column,
        CategoryField::CustomPresetName => if has_palette {
            CategoryField::Palette
        } else {
            CategoryField::Column
        },
        CategoryField::CustomPresetBackground => CategoryField::CustomPresetName,
        CategoryField::CustomPresetText => CategoryField::CustomPresetBackground,
    }
}

/// Forward then back returns to the start, for every field that the focus
/// order reaches.
pub proof fn lemma_category_field_cycle(f: CategoryField, has_palette: bool)
    requires
        has_palette || f != CategoryField::Palette,
    ensures
        previous_category_field(next_category_field(f, has_palette), has_palette) == f,
        next_category_field(previous_category_field(f, has_palette), has_palette) == f,
{
}

pub struct CategoryFormState {
    pub category_index: usize,
    pub name: String,
    pub column_value: String,
    pub selected_field: CategoryField,
    pub error: Option<String>,
    pub color_presets: Vec<ColorPreset>,
    pub palette_index: usize,
    pub custom_preset_name: String,
    pub custom_preset_background: String,
    pub custom_preset_text: String,
}

pub struct CategoryFormView {
    pub category_index: usize,
    pub name: Seq<char>,
    pub column_value: Seq<char>,
    pub selected_field: CategoryField,
    pub has_error: bool,
    pub presets: Seq<ColorPreset>,
    pub palette_index: usize,
    pub preset_name: Seq<char>,
    pub preset_background: Seq<char>,
    pub preset_text: Seq<char>,
}

impl View for CategoryFormState {
    type V = CategoryFormView;

    open spec fn view(&self) -> CategoryFormView {
        CategoryFormView {
            category_index: self.category_index,
            name: self.name@,
            column_value: self.column_value@,
            selected_field: self.selected_field,
            has_error: self.error is Some,
            presets: self.color_presets@,
            palette_index: self.palette_index,
            preset_name: self.custom_preset_name@,
            preset_background: self.custom_preset_background@,
            preset_text: self.custom_preset_text@,
        }
    }
}

/// What a category form submits for the category itself.
pub struct CategoryFormInput {
    pub category_index: usize,
    pub name: String,
    pub column_value: String,
    pub background: String,
    pub text_color: String,
}

/// A color pair to add to the user's presets.
pub struct CustomPresetInput {
    pub name: String,
    pub background: String,
    pub text: String,
}

pub struct CategorySubmitPayload {
    pub form: CategoryFormInput,
    pub new_preset: Option<CustomPresetInput>,
}

/// The result of a key press in the category form.
pub enum FormKeyResult {
    Continue,
    Cancel,
    Submit(CategorySubmitPayload),
    DeletePreset(usize),
}

/// The form with preset `v.palette_index`'s colors and name copied into the
/// custom preset fields.
pub open spec fn with_palette_applied(v: CategoryFormView) -> CategoryFormView {
    if v.palette_index < v.presets.len() {
        let p = v.presets[v.palette_index as int];
        CategoryFormView {
            preset_background: p.background@,
            preset_text: p.text@,
            preset_name: p.name@,
            ..v
        }
    } else {
        v
    }
}

pub open spec fn palette_moved(v: CategoryFormView, forward: bool) -> CategoryFormView {
    let n = v.presets.len();
    if n == 0 {
        v
    } else {
        let i: int = if forward {
            if v.palette_index + 1 >= n {
                0
            } else {
                v.palette_index + 1
            }
        } else if v.palette_index == 0 {
            n - 1
        } else {
            v.palette_index - 1
        };
        with_palette_applied(CategoryFormView { palette_index: i as usize, ..v })
    }
}

/// The user-added pair behind the selected preset, if it is one.
pub open spec fn custom_preset_index_spec(v: CategoryFormView) -> Option<usize> {
    if v.palette_index < v.presets.len() {
        v.presets[v.palette_index as int].custom_index
    } else {
        None
    }
}

pub open spec fn category_edited(v: CategoryFormView, e: TextEdit) -> CategoryFormView {
    match v.selected_field {
        CategoryField::Name => CategoryFormView { name: edited(v.name, e), ..v },
        CategoryField::Column => CategoryFormView { column_value: edited(v.column_value, e), ..v },
        CategoryField::CustomPresetName => CategoryFormView {
            preset_name: edited(v.preset_name, e),
            ..v
        },
        CategoryField::CustomPresetBackground => CategoryFormView {
            preset_background: edited(v.preset_background, e),
            ..v
        },
        CategoryField::CustomPresetText => CategoryFormView {
            preset_text: edited(v.preset_text, e),
            ..v
        },
        CategoryField::Palette => v,
    }
}

/// The preset shows these colors, up to ASCII case.
pub open spec fn preset_matches(p: ColorPreset, bg: Seq<char>, txt: Seq<char>) -> bool {
    eq_ignore_case_spec(p.background@, bg) && eq_ignore_case_spec(p.text@, txt)
}

/// Normalizing a normalized color gives it back.
proof fn lemma_normalized_stays(c: Seq<char>)
    ensures
        normalize_hex_spec(normalize_hex_spec(c)) == normalize_hex_spec(c),
{
    crate::hex::lemma_normalize_hex_idempotent(c);
}

/// Some preset already has this background and text.
pub open spec fn preset_exists(presets: Seq<ColorPreset>, bg: Seq<char>, txt: Seq<char>) -> bool {
    exists|k: int|
        0 <= k < presets.len() && hex_equal_spec(presets[k].background@, bg) && hex_equal_spec(
            presets[k].text@,
            txt,
        )
}

/// Both color fields are blank or valid.
pub open spec fn submission_ok(v: CategoryFormView) -> bool {
    color_field_spec(v.preset_background) is Ok && color_field_spec(v.preset_text) is Ok
}

pub open spec fn field_or_blank(r: Result<Option<Seq<char>>, ()>) -> Seq<char> {
    match r {
        Ok(Some(c)) => c,
        _ => Seq::empty(),
    }
}

/// The payload that a valid form submits: the category's values with the
/// checked colors (blank when left blank), and a new preset when both colors
/// are set and no preset has them, named by the trimmed preset name or
/// "Custom Theme".
pub open spec fn payload_of(p: CategorySubmitPayload, v: CategoryFormView) -> bool {
    let bg = color_field_spec(v.preset_background);
    let txt = color_field_spec(v.preset_text);
    &&& p.form.category_index == v.category_index
    &&& p.form.name@ == v.name
    &&& p.form.column_value@ == v.column_value
    &&& p.form.background@ == field_or_blank(bg)
    &&& p.form.text_color@ == field_or_blank(txt)
    &&& match (bg, txt) {
        (Ok(Some(b)), Ok(Some(t))) => if preset_exists(v.presets, b, t) {
            p.new_preset is None
        } else {
            &&& p.new_preset is Some
            &&& p.new_preset->Some_0.background@ == b
            &&& p.new_preset->Some_0.text@ == t
            &&& p.new_preset->Some_0.name@ == if trimmed(v.preset_name).len() == 0 {
                "Custom Theme"@
            } else {
                trimmed(v.preset_name)
            }
        },
        _ => p.new_preset is None,
    }
}

/// The form after a key press (apart from the error that a failed
/// submission leaves).
pub open spec fn category_key_step(v: CategoryFormView, key: KeyInput) -> CategoryFormView {
    let v = CategoryFormView { has_error: false, ..v };
    let has_palette = v.presets.len() > 0;
    let on_palette = v.selected_field == CategoryField::Palette;
    match key.code {
        KeyCode::Tab | KeyCode::Down => CategoryFormView {
            selected_field: next_category_field(v.selected_field, has_palette),
            ..v
        },
        KeyCode::BackTab | KeyCode::Up => CategoryFormView {
            selected_field: previous_category_field(v.selected_field, has_palette),
            ..v
        },
        KeyCode::Left if on_palette => palette_moved(v, false),
        KeyCode::Right if on_palette => palette_moved(v, true),
        KeyCode::Char(_) if on_palette => v,
        _ => match key_edit(key) {
            Some(e) => category_edited(v, e),
            None => v,
        },
    }
}

/// The key asks to delete the selected user-added preset.
pub open spec fn is_delete_key(v: CategoryFormView, key: KeyInput) -> bool {
    &&& v.selected_field == CategoryField::Palette
    &&& custom_preset_index_spec(v) is Some
    &&& (key.code == KeyCode::Enter || key.code == KeyCode::Delete || key.code == KeyCode::Char(
        'd',
    ) || key.code == KeyCode::Char('D'))
}

fn find_matching_preset(presets: &Vec<ColorPreset>, bg: &str, txt: &str) -> (r: bool)
    ensures
        r == preset_exists(presets@, bg@, txt@),
{
    let mut k: usize = 0;
    while k < presets.len()
        invariant
            k <= presets@.len(),
            forall|j: int|
                0 <= j < k ==> !(hex_equal_spec(presets@[j].background@, bg@) && hex_equal_spec(
                    presets@[j].text@,
                    txt@,
                )),
        decreases presets@.len() - k,
    {
        if hex_strings_equal(presets[k].background.as_str(), bg) && hex_strings_equal(
            presets[k].text.as_str(),
            txt,
        ) {
            return true;
        }
        k = k + 1;
    }
    false
}

fn unwrap_or_blank(v: Option<String>) -> (r: String)
    ensures
        r@ == match v {
            Some(s) => s@,
            None => Seq::<char>::empty(),
        },
{
    match v {
        Some(s) => s,
        None => String::new(),
    }
}

impl CategoryFormState {
    /// A form for category `index`. Its colors, normalized, fill the custom
    /// preset fields; the palette starts at the first preset with those
    /// colors, or the first preset; an empty preset list gets a default one.
    pub fn new(index: usize, category: &CategoryState, presets: Vec<ColorPreset>) -> (r:
        CategoryFormState)
        ensures
            r@.category_index == index,
            r@.name == category.name@,
            r@.selected_field == CategoryField::Name,
            !r@.has_error,
            presets@.len() > 0 ==> r@.presets == presets@,
            presets@.len() == 0 ==> r@.presets.len() == 1 && r@.presets[0].name@ == "Default"@
                && r@.presets[0].background@ == normalize_hex_spec("#034e68"@) && r@.presets[0].text@
                == normalize_hex_spec("#caf0f8"@) && r@.presets[0].custom_index is None,
            r@.column_value == crate::text::decimal_text(category.column as nat),
            r@.palette_index < r@.presets.len(),
            r@.preset_name == r@.presets[r@.palette_index as int].name@,
            r@.palette_index == 0 || preset_matches(r@.presets[r@.palette_index as int], r@.preset_background, r@.preset_text),
            r@.preset_background.len() > 0 && r@.preset_text.len() > 0 ==> forall|j: int|
                0 <= j < r@.palette_index ==> !preset_matches(r@.presets[j], r@.preset_background, r@.preset_text),
            r@.preset_background.len() > 0 && r@.preset_text.len() > 0 && (exists|j: int|
                0 <= j < r@.presets.len() && preset_matches(r@.presets[j], r@.preset_background, r@.preset_text))
                ==> preset_matches(r@.presets[r@.palette_index as int], r@.preset_background, r@.preset_text),
            r@.preset_background == match category.colors {
                Some(c) => match c.background {
                    Some(b) => normalize_hex_spec(b@),
                    None => Seq::empty(),
                },
                None => Seq::empty(),
            },
            r@.preset_text == match category.colors {
                Some(c) => match c.text {
                    Some(t) => normalize_hex_spec(t@),
                    None => Seq::empty(),
                },
                None => Seq::empty(),
            },
    {
        let background = match &category.colors {
            Some(c) => match &c.background {
                Some(b) => normalize_hex(b.as_str()),
                None => String::new(),
            },
            None => String::new(),
        };
        let text = match &category.colors {
            Some(c) => match &c.text {
                Some(t) => normalize_hex(t.as_str()),
                None => String::new(),
            },
            None => String::new(),
        };
        let ghost given = presets@;
        let color_presets = if presets.len() == 0 {
            let mut v: Vec<ColorPreset> = Vec::new();
            v.push(ColorPreset::new(String::from_str("Default"), "#034e68", "#caf0f8"));
            v
        } else {
            presets
        };
        let mut palette_index: usize = 0;
        if background.as_str().unicode_len() > 0 && text.as_str().unicode_len() > 0 {
            proof {
                if category.colors is Some {
                    let c = category.colors->Some_0;
                    if c.background is Some {
                        lemma_normalized_stays(c.background->Some_0@);
                    }
                    if c.text is Some {
                        lemma_normalized_stays(c.text->Some_0@);
                    }
                }
            }
            let mut k: usize = 0;
            while k < color_presets.len() && !color_presets[k].matches(background.as_str(), text.as_str())
                invariant
                    k <= color_presets@.len(),
                    normalize_hex_spec(background@) == background@,
                    normalize_hex_spec(text@) == text@,
                    forall|j: int| 0 <= j < k ==> !preset_matches(color_presets@[j], background@, text@),
                decreases color_presets@.len() - k,
            {
                k = k + 1;
            }
            if k < color_presets.len() {
                palette_index = k;
            }
        }
        let custom_name = color_presets[palette_index].name.clone();
        CategoryFormState {
            category_index: index,
            name: category.name.clone(),
            column_value: column_text(category.column),
            selected_field: CategoryField::Name,
            error: None,
            color_presets,
            palette_index,
            custom_preset_name: custom_name,
            custom_preset_background: background,
            custom_preset_text: text,
        }
    }

    /// Checks the color fields and builds the submission; a malformed color
    /// is an error.
    pub fn build_submission(&self) -> (r: Result<CategorySubmitPayload, String>)
        ensures
            match r {
                Ok(p) => submission_ok(self@) && payload_of(p, self@),
                Err(e) => !submission_ok(self@) && e@ == color_format_error(),
            },
    {
        let background_result = match parse_color_field(self.custom_preset_background.as_str()) {
            Ok(v) => v,
            Err(e) => return Err(e),
        };
        let text_result = match parse_color_field(self.custom_preset_text.as_str()) {
            Ok(v) => v,
            Err(e) => return Err(e),
        };
        let mut new_preset: Option<CustomPresetInput> = None;
        match (&background_result, &text_result) {
            (Some(bg), Some(txt)) => {
                if !find_matching_preset(&self.color_presets, bg.as_str(), txt.as_str()) {
                    let t = trim(self.custom_preset_name.as_str());
                    let name = if t.unicode_len() == 0 {
                        String::from_str("Custom Theme")
                    } else {
                        String::from_str(t)
                    };
                    new_preset =
                    Some(CustomPresetInput { name, background: bg.clone(), text: txt.clone() });
                }
            },
            _ => {},
        }
        Ok(
            CategorySubmitPayload {
                form: CategoryFormInput {
                    category_index: self.category_index,
                    name: self.name.clone(),
                    column_value: self.column_value.clone(),
                    background: unwrap_or_blank(background_result),
                    text_color: unwrap_or_blank(text_result),
                },
                new_preset,
            },
        )
    }

    pub fn next_field(&mut self)
        ensures
            final(self)@ == (CategoryFormView {
                selected_field: next_category_field(
                    old(self)@.selected_field,
                    old(self)@.presets.len() > 0,
                ),
                ..old(self)@
            }),
    {
        let has_palette = self.color_presets.len() > 0;
        self.selected_field =
        match self.selected_field {
            CategoryField::Name => CategoryField::Column,
            CategoryField::Column => if has_palette {
                CategoryField::Palette
            } else {
                CategoryField::CustomPresetName
            },
            CategoryField::Palette => CategoryField::CustomPresetName,
            CategoryField::CustomPresetName => CategoryField::CustomPresetBackground,
            CategoryField::CustomPresetBackground => CategoryField::CustomPresetText,
            CategoryField::CustomPresetText => CategoryField::Name,
        };
    }

    pub fn previous_field(&mut self)
        ensures
            final(self)@ == (CategoryFormView {
                selected_field: previous_category_field(
                    old(self)@.selected_field,
                    old(self)@.presets.len() > 0,
                ),
                ..old(self)@
            }),
    {
        let has_palette = self.color_presets.len() > 0;
        self.selected_field =
        match self.selected_field {
            CategoryField::Name => CategoryField::CustomPresetText,
            CategoryField::Column => CategoryField::Name,
            CategoryField::Palette => CategoryField::Column,
            CategoryField::CustomPresetName => if has_palette {
                CategoryField::Palette
            } else {
                CategoryField::Column
            },
            CategoryField::CustomPresetBackground => CategoryField::CustomPresetName,
            CategoryField::CustomPresetText => CategoryField::CustomPresetBackground,
        };
    }

    /// The focused text field, to edit in place; the palette has none.
    pub fn active_value_mut(&mut self) -> (r: Option<&mut String>)
        ensures
            old(self).selected_field == CategoryField::Palette ==> r is None && *final(self) == *old(self),
            old(self).selected_field == CategoryField::Name ==> r is Some && *r->Some_0 == old(self).name
                && *final(self) == (CategoryFormState { name: *final(r->Some_0), ..*old(self) }),
            old(self).selected_field == CategoryField::Column ==> r is Some && *r->Some_0 == old(self).column_value
                && *final(self) == (CategoryFormState { column_value: *final(r->Some_0), ..*old(self) }),
            old(self).selected_field == CategoryField::CustomPresetName ==> r is Some && *r->Some_0
                == old(self).custom_preset_name && *final(self) == (CategoryFormState {
                custom_preset_name: *final(r->Some_0),
                ..*old(self)
            }),
            old(self).selected_field == CategoryField::CustomPresetBackground ==> r is Some && *r->Some_0
                == old(self).custom_preset_background && *final(self) == (CategoryFormState {
                custom_preset_background: *final(r->Some_0),
                ..*old(self)
            }),
            old(self).selected_field == CategoryField::CustomPresetText ==> r is Some && *r->Some_0
                == old(self).custom_preset_text && *final(self) == (CategoryFormState {
                custom_preset_text: *final(r->Some_0),
                ..*old(self)
            }),
    {
        match self.selected_field {
            CategoryField::Name => Some(&mut self.name),
            CategoryField::Column => Some(&mut self.column_value),
            CategoryField::CustomPresetName => Some(&mut self.custom_preset_name),
            CategoryField::CustomPresetBackground => Some(&mut self.custom_preset_background),
            CategoryField::CustomPresetText => Some(&mut self.custom_preset_text),
            CategoryField::Palette => None,
        }
    }

    /// Applies an edit to the focused text field; the palette takes no text.
    pub fn edit_active(&mut self, e: TextEdit)
        ensures
            final(self)@ == category_edited(old(self)@, e),
    {
        if let Some(value) = self.active_value_mut() {
            apply_edit(value, e);
        }
    }

    pub fn has_deletable_preset(&self) -> (r: bool)
        ensures
            r == (custom_preset_index_spec(self@) is Some),
    {
        self.current_custom_preset_index().is_some()
    }

    /// The user-added pair behind the selected preset, if it is one.
    pub fn current_custom_preset_index(&self) -> (r: Option<usize>)
        ensures
            r == custom_preset_index_spec(self@),
    {
        if self.palette_index < self.color_presets.len() {
            self.color_presets[self.palette_index].custom_index
        } else {
            None
        }
    }

    /// Copies the selected preset's colors and name into the custom preset
    /// fields.
    pub fn apply_selected_palette(&mut self)
        ensures
            final(self)@ == with_palette_applied(old(self)@),
    {
        if self.palette_index < self.color_presets.len() {
            let i = self.palette_index;
            self.custom_preset_background = self.color_presets[i].background.clone();
            self.custom_preset_text = self.color_presets[i].text.clone();
            self.custom_preset_name = self.color_presets[i].name.clone();
        }
    }

    /// Replaces the preset list, keeping the selection in range and copying
    /// the selected preset in.
    pub fn refresh_presets(&mut self, presets: Vec<ColorPreset>)
        ensures
            presets@.len() == 0 ==> final(self)@ == (CategoryFormView {
                presets: presets@,
                palette_index: 0,
                ..old(self)@
            }),
            presets@.len() > 0 ==> final(self)@ == with_palette_applied(
                CategoryFormView {
                    presets: presets@,
                    palette_index: if old(self).palette_index < presets@.len() {
                        old(self).palette_index
                    } else {
                        (presets@.len() - 1) as usize
                    },
                    ..old(self)@
                },
            ),
    {
        self.color_presets = presets;
        if self.color_presets.len() == 0 {
            self.palette_index = 0;
        } else {
            if self.palette_index >= self.color_presets.len() {
                self.palette_index = self.color_presets.len() - 1;
            }
            self.apply_selected_palette();
        }
    }

    /// Selects preset `index` (or the last one) and focuses the palette.
    pub fn focus_palette_index(&mut self, index: usize)
        ensures
            old(self)@.presets.len() == 0 ==> final(self)@ == old(self)@,
            old(self)@.presets.len() > 0 ==> final(self)@ == with_palette_applied(
                CategoryFormView {
                    palette_index: if index < old(self)@.presets.len() {
                        index
                    } else {
                        (old(self)@.presets.len() - 1) as usize
                    },
                    selected_field: CategoryField::Palette,
                    ..old(self)@
                },
            ),
    {
        if self.color_presets.len() == 0 {
            return;
        }
        self.palette_index =
        if index < self.color_presets.len() {
            index
        } else {
            self.color_presets.len() - 1
        };
        self.selected_field = CategoryField::Palette;
        self.apply_selected_palette();
    }

    /// Selects the next preset, wrapping around.
    pub fn next_palette(&mut self)
        ensures
            final(self)@ == palette_moved(old(self)@, true),
    {
        if self.color_presets.len() == 0 {
            return;
        }
        self.palette_index = if self.palette_index >= self.color_presets.len() - 1 {
            0
        } else {
            self.palette_index + 1
        };
        self.apply_selected_palette();
    }

    /// Selects the previous preset, wrapping around.
    pub fn previous_palette(&mut self)
        ensures
            final(self)@ == palette_moved(old(self)@, false),
    {
        if self.color_presets.len() == 0 {
            return;
        }
        if self.palette_index == 0 {
            self.palette_index = self.color_presets.len() - 1;
        } else {
            self.palette_index = self.palette_index - 1;
        }
        self.apply_selected_palette();
    }

    /// Handles one key. Escape cancels. Enter submits, or asks to delete the
    /// selected user-added preset when the palette has focus, as do Delete
    /// and `d`. Tab/Down and BackTab/Up move focus; Left/Right move through
    /// the palette; other keys edit the focused text field. A failed
    /// submission leaves the form open with an error.
    pub fn handle_key(&mut self, key: KeyInput) -> (r: FormKeyResult)
        ensures
            key.code == KeyCode::Esc ==> r is Cancel && final(self)@ == (CategoryFormView {
                has_error: false,
                ..old(self)@
            }),
            key.code != KeyCode::Esc && is_delete_key(old(self)@, key) ==> r == FormKeyResult::DeletePreset(
                custom_preset_index_spec(old(self)@)->Some_0,
            ) && final(self)@ == (CategoryFormView { has_error: false, ..old(self)@ }),
            key.code == KeyCode::Enter && !is_delete_key(old(self)@, key) ==> {
                if submission_ok(old(self)@) {
                    &&& r is Submit
                    &&& payload_of(r->Submit_0, old(self)@)
                    &&& final(self)@ == (CategoryFormView { has_error: false, ..old(self)@ })
                } else {
                    &&& r is Continue
                    &&& final(self)@ == (CategoryFormView { has_error: true, ..old(self)@ })
                }
            },
            key.code != KeyCode::Esc && key.code != KeyCode::Enter && !is_delete_key(
                old(self)@,
                key,
            ) ==> r is Continue && final(self)@ == category_key_step(old(self)@, key),
    {
        self.error = None;
        let on_palette = self.selected_field == CategoryField::Palette;
        match key.code {
            KeyCode::Esc => FormKeyResult::Cancel,
            KeyCode::Enter => {
                if on_palette {
                    if let Some(index) = self.current_custom_preset_index() {
                        return FormKeyResult::DeletePreset(index);
                    }
                }
                match self.build_submission() {
                    Ok(p) => FormKeyResult::Submit(p),
                    Err(e) => {
                        self.error = Some(e);
                        FormKeyResult::Continue
                    },
                }
            },
            KeyCode::Tab | KeyCode::Down => {
                self.next_field();
                FormKeyResult::Continue
            },
            KeyCode::BackTab | KeyCode::Up => {
                self.previous_field();
                FormKeyResult::Continue
            },
            KeyCode::Left if on_palette => {
                self.previous_palette();
                FormKeyResult::Continue
            },
            KeyCode::Right if on_palette => {
                self.next_palette();
                FormKeyResult::Continue
            },
            _ => {
                if on_palette {
                    let deleting = key.code == KeyCode::Delete || key.code == KeyCode::Char('d')
                        || key.code == KeyCode::Char('D');
                    if deleting {
                        if let Some(index) = self.current_custom_preset_index() {
                            return FormKeyResult::DeletePreset(index);
                        }
                    }
                    FormKeyResult::Continue
                } else {
                    match edit_for_key(key) {
                        Some(e) => self.edit_active(e),
                        None => {},
                    }
                    FormKeyResult::Continue
                }
            },
        }
    }
}

/// The decimal text of a column number.
pub fn column_text(column: u16) -> (r: String)
    ensures
        r@ == crate::text::decimal_text(column as nat),
{
    let mut s = String::new();
    crate::text::push_decimal(&mut s, column as u64);
    assert(s@ =~= crate::text::decimal_text(column as nat));
    s
}

} // verus!
