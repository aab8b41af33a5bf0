//! The settings form: title, column count and theme, with fields to define a
//! custom theme.
use crate::keys::{apply_edit, edit_for_key, edited, key_edit, KeyCode, KeyInput, TextEdit};
use crate::theme::{custom_key, parse_saved_theme_key, saved_index_spec, Theme, ThemeOption};
use crate::text::str_eq;
use vstd::prelude::*;

verus! {

/// The fields of the settings form.
#[derive(Clone, Copy, Debug, PartialEq, Eq, Structural)]
pub enum SettingsField {
    Title,
    Columns,
    Theme,
    CustomName,
    CustomPrimary,
    CustomAccent,
    CustomBackground,
    CustomSurface,
    CustomText,
    CustomHighlight,
}

pub open spec fn next_settings_field(f: SettingsField) -> SettingsField {
    match f {
        SettingsField::Title => SettingsField::Columns,
        SettingsField::Columns => SettingsField::Theme,
        SettingsField::Theme => SettingsField::CustomName,
        SettingsField::CustomName => SettingsField::CustomPrimary,
        SettingsField::CustomPrimary => SettingsField::CustomAccent,
        SettingsField::CustomAccent => SettingsField::CustomHighlight,
        SettingsField::CustomHighlight => SettingsField::CustomBackground,
        SettingsField::CustomBackground => SettingsField::CustomSurface,
        SettingsField::CustomSurface => SettingsField::CustomText,
        SettingsField::CustomText => SettingsField::Title,
    }
}

pub open spec fn previous_settings_field(f: SettingsField) -> SettingsField {
    match f {
        SettingsField::Title => SettingsField::CustomText,
        SettingsField::Columns => SettingsField::Title,
        SettingsField::Theme => SettingsField::Columns,
        SettingsField::CustomName => SettingsField::Theme,
        SettingsField::CustomPrimary => SettingsField::CustomName,
        SettingsField::CustomAccent => SettingsField::CustomPrimary,
        SettingsField::CustomHighlight => SettingsField::CustomAccent,
        SettingsField::CustomBackground => SettingsField::CustomHighlight,
        SettingsField::CustomSurface => SettingsField::CustomBackground,
        SettingsField::CustomText => SettingsField::CustomSurface,
    }
}

/// Forward then back, or back then forward, returns to the start.
pub proof fn lemma_settings_field_cycle(f: SettingsField)
    ensures
        previous_settings_field(next_settings_field(f)) == f,
        next_settings_field(previous_settings_field(f)) == f,
{
}

pub struct SettingsFormState {
    pub title: String,
    pub columns_value: String,
    pub theme_options: Vec<ThemeOption>,
    pub theme_index: usize,
    pub selected_field: SettingsField,
    pub error: Option<String>,
    pub custom_primary: String,
    pub custom_accent: String,
    pub custom_background: String,
    pub custom_surface: String,
    pub custom_text: String,
    pub custom_highlight: String,
    pub custom_theme_name: String,
}

pub struct SettingsFormView {
    pub title: Seq<char>,
    pub columns_value: Seq<char>,
    pub options: Seq<ThemeOption>,
    pub theme_index: usize,
    pub selected_field: SettingsField,
    pub has_error: bool,
    pub primary: Seq<char>,
    pub accent: Seq<char>,
    pub background: Seq<char>,
    pub surface: Seq<char>,
    pub text: Seq<char>,
    pub highlight: Seq<char>,
    pub custom_name: Seq<char>,
}

impl View for SettingsFormState {
    type V = SettingsFormView;

    open spec fn view(&self) -> SettingsFormView {
        SettingsFormView {
            title: self.title@,
            columns_value: self.columns_value@,
            options: self.theme_options@,
            theme_index: self.theme_index,
            selected_field: self.selected_field,
            has_error: self.error is Some,
            primary: self.custom_primary@,
            accent: self.custom_accent@,
            background: self.custom_background@,
            surface: self.custom_surface@,
            text: self.custom_text@,
            highlight: self.custom_highlight@,
            custom_name: self.custom_theme_name@,
        }
    }
}

/// What the settings form submits.
pub struct SettingsFormInput {
    pub title: String,
    pub columns: String,
    pub theme_key: String,
    pub custom_primary: String,
    pub custom_accent: String,
    pub custom_background: String,
    pub custom_surface: String,
    pub custom_text: String,
    pub custom_highlight: String,
    pub custom_theme_name: String,
}

/// The result of a key press in the settings form.
pub enum SettingsFormKeyResult {
    Continue,
    Cancel,
    Submit(SettingsFormInput),
    DeleteSavedTheme(usize),
}

/// The input holds the form's values and the selected option's key (blank
/// when nothing is selected).
pub open spec fn settings_input_of(i: SettingsFormInput, v: SettingsFormView) -> bool {
    &&& i.title@ == v.title
    &&& i.columns@ == v.columns_value
    &&& i.theme_key@ == if v.theme_index < v.options.len() {
        v.options[v.theme_index as int].key@
    } else {
        Seq::empty()
    }
    &&& i.custom_primary@ == v.primary
    &&& i.custom_accent@ == v.accent
    &&& i.custom_background@ == v.background
    &&& i.custom_surface@ == v.surface
    &&& i.custom_text@ == v.text
    &&& i.custom_highlight@ == v.highlight
    &&& i.custom_theme_name@ == v.custom_name
}

/// The custom fields copied from the selected option (the first when the
/// selection is out of range). A saved theme's name fills the name field, a
/// preset clears it, and the custom option leaves it.
pub open spec fn populated(v: SettingsFormView) -> SettingsFormView {
    if v.options.len() == 0 {
        v
    } else {
        let i: usize = if v.theme_index >= v.options.len() {
            0
        } else {
            v.theme_index
        };
        let o = v.options[i as int];
        SettingsFormView {
            theme_index: i,
            primary: o.primary_hex@,
            accent: o.accent_hex@,
            highlight: o.highlight_hex@,
            background: o.background_hex@,
            surface: o.surface_hex@,
            text: o.text_hex@,
            custom_name: if saved_index_spec(o.key@) is Some {
                o.label@
            } else if o.key@ != custom_key() {
                Seq::empty()
            } else {
                v.custom_name
            },
            ..v
        }
    }
}

pub open spec fn theme_moved(v: SettingsFormView, forward: bool) -> SettingsFormView {
    let n = v.options.len();
    if n == 0 {
        v
    } else {
        let i: int = if forward {
            if v.theme_index + 1 >= n {
                0
            } else {
                v.theme_index + 1
            }
        } else if v.theme_index == 0 {
            n - 1
        } else {
            v.theme_index - 1
        };
        populated(SettingsFormView { theme_index: i as usize, ..v })
    }
}

/// The saved theme behind the selected option, if it is one.
pub open spec fn deletable_index_spec(v: SettingsFormView) -> Option<nat> {
    if v.theme_index < v.options.len() {
        saved_index_spec(v.options[v.theme_index as int].key@)
    } else {
        None
    }
}

pub open spec fn settings_edited(v: SettingsFormView, e: TextEdit) -> SettingsFormView {
    match v.selected_field {
        SettingsField::Title => SettingsFormView { title: edited(v.title, e), ..v },
        SettingsField::Columns => SettingsFormView {
            columns_value: edited(v.columns_value, e),
            ..v
        },
        SettingsField::Theme => v,
        SettingsField::CustomName => SettingsFormView {
            custom_name: edited(v.custom_name, e),
            ..v
        },
        SettingsField::CustomPrimary => SettingsFormView { primary: edited(v.primary, e), ..v },
        SettingsField::CustomAccent => SettingsFormView { accent: edited(v.accent, e), ..v },
        SettingsField::CustomBackground => SettingsFormView {
            background: edited(v.background, e),
            ..v
        },
        SettingsField::CustomSurface => SettingsFormView { surface: edited(v.surface, e), ..v },
        SettingsField::CustomText => SettingsFormView { text: edited(v.text, e), ..v },
        SettingsField::CustomHighlight => SettingsFormView {
            highlight: edited(v.highlight, e),
            ..v
        },
    }
}

/// The form after a key press.
pub open spec fn settings_key_step(v: SettingsFormView, key: KeyInput) -> SettingsFormView {
    let v = SettingsFormView { has_error: false, ..v };
    let on_theme = v.selected_field == SettingsField::Theme;
    match key.code {
        KeyCode::Esc | KeyCode::Enter => v,
        KeyCode::Tab | KeyCode::Down => SettingsFormView {
            selected_field: next_settings_field(v.selected_field),
            ..v
        },
        KeyCode::BackTab | KeyCode::Up => SettingsFormView {
            selected_field: previous_settings_field(v.selected_field),
            ..v
        },
        KeyCode::Left if on_theme => theme_moved(v, false),
        KeyCode::Right if on_theme => theme_moved(v, true),
        KeyCode::Char(_) if on_theme => v,
        _ => match key_edit(key) {
            Some(e) => settings_edited(v, e),
            None => v,
        },
    }
}

impl SettingsFormState {
    /// A form showing `title` and `columns`, with the option whose key is
    /// `theme_key` selected (the first when none is) and its colors copied
    /// into the custom fields. The custom name starts as the current
    /// theme's name when that theme is custom.
    pub fn new(
        title: String,
        columns: u16,
        theme_key: &str,
        options: Vec<ThemeOption>,
        initial_field: SettingsField,
        current_theme: &Theme,
        is_custom_theme: bool,
    ) -> (r: SettingsFormState)
        ensures
            r@ == populated(
                SettingsFormView {
                    title: title@,
                    columns_value: crate::text::decimal_text(columns as nat),
                    options: options@,
                    theme_index: r@.theme_index,
                    selected_field: initial_field,
                    has_error: false,
                    primary: Seq::empty(),
                    accent: Seq::empty(),
                    background: Seq::empty(),
                    surface: Seq::empty(),
                    text: Seq::empty(),
                    highlight: Seq::empty(),
                    custom_name: if is_custom_theme {
                        current_theme.name@
                    } else {
                        Seq::empty()
                    },
                },
            ),
            (exists|j: int| 0 <= j < options@.len() && options@[j].key@ == theme_key@) ==> {
                &&& r@.theme_index < options@.len()
                &&& options@[r@.theme_index as int].key@ == theme_key@
                &&& forall|j: int| 0 <= j < r@.theme_index ==> options@[j].key@ != theme_key@
            },
            (forall|j: int| 0 <= j < options@.len() ==> options@[j].key@ != theme_key@)
                ==> r@.theme_index == 0,
    {
        let mut k: usize = 0;
        while k < options.len() && !str_eq(options[k].key.as_str(), theme_key)
            invariant
                k <= options@.len(),
                forall|j: int| 0 <= j < k ==> options@[j].key@ != theme_key@,
            decreases options@.len() - k,
        {
            k = k + 1;
        }
        let theme_index: usize = if k < options.len() {
            k
        } else {
            0
        };
        let form = SettingsFormState {
            title,
            columns_value: crate::category_form::column_text(columns),
            theme_options: options,
            theme_index,
            selected_field: initial_field,
            error: None,
            custom_primary: String::new(),
            custom_accent: String::new(),
            custom_background: String::new(),
            custom_surface: String::new(),
            custom_text: String::new(),
            custom_highlight: String::new(),
            custom_theme_name: if is_custom_theme {
                current_theme.name.clone()
            } else {
                String::new()
            },
        };
        form.with_selected_theme_colors()
    }

    /// The saved theme behind the selected option, if it is one.
    pub fn current_deletable_theme_index(&self) -> (r: Option<usize>)
        ensures
            r == match deletable_index_spec(self@) {
                Some(i) => Some(i as usize),
                None => None::<usize>,
            },
    {
        if self.theme_index < self.theme_options.len() {
            parse_saved_theme_key(self.theme_options[self.theme_index].key.as_str())
        } else {
            None
        }
    }

    /// The values the form would submit.
    pub fn to_input(&self) -> (r: SettingsFormInput)
        ensures
            settings_input_of(r, self@),
    {
        let theme_key = if self.theme_index < self.theme_options.len() {
            self.theme_options[self.theme_index].key.clone()
        } else {
            String::new()
        };
        SettingsFormInput {
            title: self.title.clone(),
            columns: self.columns_value.clone(),
            theme_key,
            custom_primary: self.custom_primary.clone(),
            custom_accent: self.custom_accent.clone(),
            custom_background: self.custom_background.clone(),
            custom_surface: self.custom_surface.clone(),
            custom_text: self.custom_text.clone(),
            custom_highlight: self.custom_highlight.clone(),
            custom_theme_name: self.custom_theme_name.clone(),
        }
    }

    pub fn next_field(&mut self)
        ensures
            final(self)@ == (SettingsFormView {
                selected_field: next_settings_field(old(self)@.selected_field),
                ..old(self)@
            }),
    {
        self.selected_field =
        match self.selected_field {
            SettingsField::Title => SettingsField::Columns,
            SettingsField::Columns => SettingsField::Theme,
            SettingsField::Theme => SettingsField::CustomName,
            SettingsField::CustomName => SettingsField::CustomPrimary,
            SettingsField::CustomPrimary => SettingsField::CustomAccent,
            SettingsField::CustomAccent => SettingsField::CustomHighlight,
            SettingsField::CustomHighlight => SettingsField::CustomBackground,
            SettingsField::CustomBackground => SettingsField::CustomSurface,
            SettingsField::CustomSurface => SettingsField::CustomText,
            SettingsField::CustomText => SettingsField::Title,
        };
    }

    pub fn previous_field(&mut self)
        ensures
            final(self)@ == (SettingsFormView {
                selected_field: previous_settings_field(old(self)@.selected_field),
                ..old(self)@
            }),
    {
        self.selected_field =
        match self.selected_field {
            SettingsField::Title => SettingsField::CustomText,
            SettingsField::Columns => SettingsField::Title,
            SettingsField::Theme => SettingsField::Columns,
            SettingsField::CustomName => SettingsField::Theme,
            SettingsField::CustomPrimary => SettingsField::CustomName,
            SettingsField::CustomAccent => SettingsField::CustomPrimary,
            SettingsField::CustomHighlight => SettingsField::CustomAccent,
            SettingsField::CustomBackground => SettingsField::CustomHighlight,
            SettingsField::CustomSurface => SettingsField::CustomBackground,
            SettingsField::CustomText => SettingsField::CustomSurface,
        };
    }

    /// The focused text field, to edit in place; the theme list has none.
    pub fn active_value_mut(&mut self) -> (r: Option<&mut String>)
        ensures
            old(self).selected_field == SettingsField::Theme ==> r is None && *final(self) == *old(self),
            old(self).selected_field == SettingsField::Title ==> r is Some && *r->Some_0 == old(self).title
                && *final(self) == (SettingsFormState { title: *final(r->Some_0), ..*old(self) }),
            old(self).selected_field == SettingsField::Columns ==> r is Some && *r->Some_0 == old(self).columns_value
                && *final(self) == (SettingsFormState { columns_value: *final(r->Some_0), ..*old(self) }),
            old(self).selected_field == SettingsField::CustomName ==> r is Some && *r->Some_0 == old(self).custom_theme_name
                && *final(self) == (SettingsFormState { custom_theme_name: *final(r->Some_0), ..*old(self) }),
            old(self).selected_field == SettingsField::CustomPrimary ==> r is Some && *r->Some_0 == old(self).custom_primary
                && *final(self) == (SettingsFormState { custom_primary: *final(r->Some_0), ..*old(self) }),
            old(self).selected_field == SettingsField::CustomAccent ==> r is Some && *r->Some_0 == old(self).custom_accent
                && *final(self) == (SettingsFormState { custom_accent: *final(r->Some_0), ..*old(self) }),
            old(self).selected_field == SettingsField::CustomBackground ==> r is Some && *r->Some_0 == old(self).custom_background
                && *final(self) == (SettingsFormState { custom_background: *final(r->Some_0), ..*old(self) }),
            old(self).selected_field == SettingsField::CustomSurface ==> r is Some && *r->Some_0 == old(self).custom_surface
                && *final(self) == (SettingsFormState { custom_surface: *final(r->Some_0), ..*old(self) }),
            old(self).selected_field == SettingsField::CustomText ==> r is Some && *r->Some_0 == old(self).custom_text
                && *final(self) == (SettingsFormState { custom_text: *final(r->Some_0), ..*old(self) }),
            old(self).selected_field == SettingsField::CustomHighlight ==> r is Some && *r->Some_0 == old(self).custom_highlight
                && *final(self) == (SettingsFormState { custom_highlight: *final(r->Some_0), ..*old(self) }),
    {
        match self.selected_field {
            SettingsField::Title => Some(&mut self.title),
            SettingsField::Columns => Some(&mut self.columns_value),
            SettingsField::CustomName => Some(&mut self.custom_theme_name),
            SettingsField::CustomPrimary => Some(&mut self.custom_primary),
            SettingsField::CustomAccent => Some(&mut self.custom_accent),
            SettingsField::CustomBackground => Some(&mut self.custom_background),
            SettingsField::CustomSurface => Some(&mut self.custom_surface),
            SettingsField::CustomText => Some(&mut self.custom_text),
            SettingsField::CustomHighlight => Some(&mut self.custom_highlight),
            SettingsField::Theme => None,
        }
    }

    /// Copies the selected option's colors into the custom fields and
    /// returns the form.
    pub fn with_selected_theme_colors(self) -> (r: SettingsFormState)
        ensures
            r@ == populated(self@),
    {
        let mut form = self;
        form.populate_custom_fields_from_selection();
        form
    }

    /// Applies an edit to the focused text field; the theme list takes no
    /// text.
    pub fn edit_active(&mut self, e: TextEdit)
        ensures
            final(self)@ == settings_edited(old(self)@, e),
    {
        if let Some(value) = self.active_value_mut() {
            apply_edit(value, e);
        }
    }

    /// Copies the selected option's colors into the custom fields.
    pub fn populate_custom_fields_from_selection(&mut self)
        ensures
            final(self)@ == populated(old(self)@),
    {
        if self.theme_options.len() == 0 {
            return;
        }
        if self.theme_index >= self.theme_options.len() {
            self.theme_index = 0;
        }
        let i = self.theme_index;
        self.custom_primary = self.theme_options[i].primary_hex.clone();
        self.custom_accent = self.theme_options[i].accent_hex.clone();
        self.custom_highlight = self.theme_options[i].highlight_hex.clone();
        self.custom_background = self.theme_options[i].background_hex.clone();
        self.custom_surface = self.theme_options[i].surface_hex.clone();
        self.custom_text = self.theme_options[i].text_hex.clone();
        if parse_saved_theme_key(self.theme_options[i].key.as_str()).is_some() {
            self.custom_theme_name = self.theme_options[i].label.clone();
        } else if !str_eq(self.theme_options[i].key.as_str(), "custom") {
            self.custom_theme_name = String::new();
        }
    }

    /// Selects the next option, wrapping around, and copies its colors.
    pub fn next_theme(&mut self)
        ensures
            final(self)@ == theme_moved(old(self)@, true),
    {
        if self.theme_options.len() == 0 {
            return;
        }
        self.theme_index = if self.theme_index >= self.theme_options.len() - 1 {
            0
        } else {
            self.theme_index + 1
        };
        self.populate_custom_fields_from_selection();
    }

    /// Selects the previous option, wrapping around, and copies its colors.
    pub fn previous_theme(&mut self)
        ensures
            final(self)@ == theme_moved(old(self)@, false),
    {
        if self.theme_options.len() == 0 {
            return;
        }
        if self.theme_index == 0 {
            self.theme_index = self.theme_options.len() - 1;
        } else {
            self.theme_index = self.theme_index - 1;
        }
        self.populate_custom_fields_from_selection();
    }

    /// Handles one key: Escape cancels, Enter submits, Tab/Down and
    /// BackTab/Up move focus, Left/Right move through the themes, `d` on
    /// a saved theme asks to delete it, and other keys edit the focused
    /// text field.
    pub fn handle_key(&mut self, key: KeyInput) -> (r: SettingsFormKeyResult)
        ensures
            final(self)@ == settings_key_step(old(self)@, key),
            key.code == KeyCode::Esc ==> r is Cancel,
            key.code == KeyCode::Enter ==> r is Submit && settings_input_of(
                r->Submit_0,
                final(self)@,
            ),
            (key.code == KeyCode::Char('d') || key.code == KeyCode::Char('D'))
                && old(self).selected_field == SettingsField::Theme && deletable_index_spec(
                old(self)@,
            ) is Some ==> r == SettingsFormKeyResult::DeleteSavedTheme(
                deletable_index_spec(old(self)@)->Some_0 as usize,
            ),
            key.code != KeyCode::Esc && key.code != KeyCode::Enter && !((key.code == KeyCode::Char(
                'd',
            ) || key.code == KeyCode::Char('D')) && old(self).selected_field
                == SettingsField::Theme && deletable_index_spec(old(self)@) is Some) ==> r is Continue,
    {
        self.error = None;
        let on_theme = self.selected_field == SettingsField::Theme;
        match key.code {
            KeyCode::Esc => SettingsFormKeyResult::Cancel,
            KeyCode::Enter => SettingsFormKeyResult::Submit(self.to_input()),
            KeyCode::Tab | KeyCode::Down => {
                self.next_field();
                SettingsFormKeyResult::Continue
            },
            KeyCode::BackTab | KeyCode::Up => {
                self.previous_field();
                SettingsFormKeyResult::Continue
            },
            KeyCode::Left if on_theme => {
                self.previous_theme();
                SettingsFormKeyResult::Continue
            },
            KeyCode::Right if on_theme => {
                self.next_theme();
                SettingsFormKeyResult::Continue
            },
            _ => {
                if on_theme {
                    if key.code == KeyCode::Char('d') || key.code == KeyCode::Char('D') {
                        if let Some(index) = self.current_deletable_theme_index() {
                            return SettingsFormKeyResult::DeleteSavedTheme(index);
                        }
                    }
                    SettingsFormKeyResult::Continue
                } else {
                    match edit_for_key(key) {
                        Some(e) => self.edit_active(e),
                        None => {},
                    }
                    SettingsFormKeyResult::Continue
                }
            },
        }
    }
}

} // verus!
