//! The shortcut bars of the main screen and of the forms, the line layout of
//! each form, and what a click inside a form selects.
use crate::category_form::{CategoryField, CategoryFormState};
use crate::layout::{
    bar_layout, bar_segments, bar_widths, span_target,
    span_target_spec, Area, BarEntry, Segment,
};
use crate::settings_form::{SettingsField, SettingsFormState};
use vstd::prelude::*;

verus! {

/// What a shortcut of the main screen's footer does.
#[derive(Clone, Copy, Debug, PartialEq, Eq, Structural)]
pub enum FooterAction {
    Quit,
    Edit,
    Execute,
    NewItem,
    Delete,
    Settings,
    ScanBin,
}

/// What a shortcut of the category form's bar does.
#[derive(Clone, Copy, Debug, PartialEq, Eq, Structural)]
pub enum CategoryShortcutAction {
    NextField,
    PreviousField,
    Submit,
    Cancel,
    PreviousPalette,
    NextPalette,
    DeletePreset,
}

/// What a shortcut of the settings form's bar does.
#[derive(Clone, Copy, Debug, PartialEq, Eq, Structural)]
pub enum SettingsShortcutAction {
    NextField,
    Submit,
    Cancel,
    PreviousTheme,
    NextTheme,
    DeleteTheme,
}

pub open spec fn footer_actions() -> Seq<FooterAction> {
    seq![
        FooterAction::Quit,
        FooterAction::Edit,
        FooterAction::Execute,
        FooterAction::NewItem,
        FooterAction::Delete,
        FooterAction::Settings,
        FooterAction::ScanBin,
    ]
}

/// The widths of the footer's shortcuts: separator, key, label.
pub open spec fn footer_widths() -> Seq<(nat, nat, nat)> {
    seq![(0, 1, 5), (3, 1, 5), (3, 1, 8), (3, 1, 9), (3, 1, 7), (3, 1, 9), (3, 2, 14)]
}

/// The footer's shortcuts, in order, with what each does.
pub fn footer_bar() -> (r: (Vec<BarEntry>, Vec<FooterAction>))
    ensures
        r.0@.len() == 7,
        r.1@ == footer_actions(),
        bar_widths(r.0@) == footer_widths(),
{
    proof {
        reveal_strlit("");
        reveal_strlit(" | ");
        reveal_strlit("q");
        reveal_strlit(" Exit");
        reveal_strlit("e");
        reveal_strlit(" Edit");
        reveal_strlit("↵");
        reveal_strlit(" Execute");
        reveal_strlit("n");
        reveal_strlit(" New Item");
        reveal_strlit("d");
        reveal_strlit(" Delete");
        reveal_strlit("s");
        reveal_strlit(" Settings");
        reveal_strlit("^b");
        reveal_strlit(" Scan ./import");
    }
    let mut entries: Vec<BarEntry> = Vec::new();
    entries.push(BarEntry { gap: "", key: "q", label: " Exit" });
    entries.push(BarEntry { gap: " | ", key: "e", label: " Edit" });
    entries.push(BarEntry { gap: " | ", key: "↵", label: " Execute" });
    entries.push(BarEntry { gap: " | ", key: "n", label: " New Item" });
    entries.push(BarEntry { gap: " | ", key: "d", label: " Delete" });
    entries.push(BarEntry { gap: " | ", key: "s", label: " Settings" });
    entries.push(BarEntry { gap: " | ", key: "^b", label: " Scan ./import" });
    let mut actions: Vec<FooterAction> = Vec::new();
    actions.push(FooterAction::Quit);
    actions.push(FooterAction::Edit);
    actions.push(FooterAction::Execute);
    actions.push(FooterAction::NewItem);
    actions.push(FooterAction::Delete);
    actions.push(FooterAction::Settings);
    actions.push(FooterAction::ScanBin);
    assert(actions@ =~= footer_actions());
    assert(bar_widths(entries@) =~= footer_widths());
    (entries, actions)
}

/// The widths of the category form's shortcuts: separator, key, label.
pub open spec fn category_bar_widths(include_delete: bool) -> Seq<(nat, nat, nat)> {
    let base = seq![(0nat, 3nat, 5nat), (3, 1, 5), (3, 3, 7), (3, 1, 0), (1, 1, 7)];
    if include_delete {
        base.push((3, 1, 13))
    } else {
        base
    }
}

/// The widths of the settings form's shortcuts: separator, key, label.
pub open spec fn settings_bar_widths(include_delete: bool) -> Seq<(nat, nat, nat)> {
    let base = seq![(0nat, 3nat, 5nat), (3, 1, 5), (3, 3, 12), (3, 1, 0), (1, 1, 7)];
    if include_delete {
        base.push((3, 1, 13))
    } else {
        base
    }
}

pub open spec fn category_bar_actions(include_delete: bool) -> Seq<CategoryShortcutAction> {
    let base = seq![
        CategoryShortcutAction::NextField,
        CategoryShortcutAction::Submit,
        CategoryShortcutAction::Cancel,
        CategoryShortcutAction::PreviousPalette,
        CategoryShortcutAction::NextPalette,
    ];
    if include_delete {
        base.push(CategoryShortcutAction::DeletePreset)
    } else {
        base
    }
}

/// The category form's shortcuts; deleting a preset is offered only when
/// the selected preset is user-added.
pub fn category_bar(include_delete: bool) -> (r: (Vec<BarEntry>, Vec<CategoryShortcutAction>))
    ensures
        r.0@.len() == r.1@.len(),
        r.1@ == category_bar_actions(include_delete),
        bar_widths(r.0@) == category_bar_widths(include_delete),
{
    proof {
        reveal_strlit("");
        reveal_strlit(" | ");
        reveal_strlit("/");
        reveal_strlit("Tab");
        reveal_strlit(" Move");
        reveal_strlit("↵");
        reveal_strlit(" Save");
        reveal_strlit("Esc");
        reveal_strlit(" Cancel");
        reveal_strlit("←");
        reveal_strlit("→");
        reveal_strlit(" Select");
        reveal_strlit("d");
        reveal_strlit(" Delete Theme");
        reveal_strlit(" Delete theme");
    }
    let mut entries: Vec<BarEntry> = Vec::new();
    let mut actions: Vec<CategoryShortcutAction> = Vec::new();
    entries.push(BarEntry { gap: "", key: "Tab", label: " Move" });
    actions.push(CategoryShortcutAction::NextField);
    entries.push(BarEntry { gap: " | ", key: "↵", label: " Save" });
    actions.push(CategoryShortcutAction::Submit);
    entries.push(BarEntry { gap: " | ", key: "Esc", label: " Cancel" });
    actions.push(CategoryShortcutAction::Cancel);
    entries.push(BarEntry { gap: " | ", key: "←", label: "" });
    actions.push(CategoryShortcutAction::PreviousPalette);
    entries.push(BarEntry { gap: "/", key: "→", label: " Select" });
    actions.push(CategoryShortcutAction::NextPalette);
    if include_delete {
        entries.push(BarEntry { gap: " | ", key: "d", label: " Delete Theme" });
        actions.push(CategoryShortcutAction::DeletePreset);
    }
    assert(actions@ =~= category_bar_actions(include_delete));
    assert(bar_widths(entries@) =~= category_bar_widths(include_delete));
    (entries, actions)
}

pub open spec fn settings_bar_actions(include_delete: bool) -> Seq<SettingsShortcutAction> {
    let base = seq![
        SettingsShortcutAction::NextField,
        SettingsShortcutAction::Submit,
        SettingsShortcutAction::Cancel,
        SettingsShortcutAction::PreviousTheme,
        SettingsShortcutAction::NextTheme,
    ];
    if include_delete {
        base.push(SettingsShortcutAction::DeleteTheme)
    } else {
        base
    }
}

/// The settings form's shortcuts; deleting is offered only when a saved
/// theme is selected.
pub fn settings_bar(include_delete: bool) -> (r: (Vec<BarEntry>, Vec<SettingsShortcutAction>))
    ensures
        r.0@.len() == r.1@.len(),
        r.1@ == settings_bar_actions(include_delete),
        bar_widths(r.0@) == settings_bar_widths(include_delete),
{
    proof {
        reveal_strlit("");
        reveal_strlit(" | ");
        reveal_strlit("/");
        reveal_strlit("Tab");
        reveal_strlit(" Move");
        reveal_strlit("↵");
        reveal_strlit(" Save");
        reveal_strlit("Esc");
        reveal_strlit(" Cancel/Exit");
        reveal_strlit("←");
        reveal_strlit("→");
        reveal_strlit(" Select");
        reveal_strlit("d");
        reveal_strlit(" Delete Theme");
        reveal_strlit(" Delete theme");
    }
    let mut entries: Vec<BarEntry> = Vec::new();
    let mut actions: Vec<SettingsShortcutAction> = Vec::new();
    entries.push(BarEntry { gap: "", key: "Tab", label: " Move" });
    actions.push(SettingsShortcutAction::NextField);
    entries.push(BarEntry { gap: " | ", key: "↵", label: " Save" });
    actions.push(SettingsShortcutAction::Submit);
    entries.push(BarEntry { gap: " | ", key: "Esc", label: " Cancel/Exit" });
    actions.push(SettingsShortcutAction::Cancel);
    entries.push(BarEntry { gap: " | ", key: "←", label: "" });
    actions.push(SettingsShortcutAction::PreviousTheme);
    entries.push(BarEntry { gap: "/", key: "→", label: " Select" });
    actions.push(SettingsShortcutAction::NextTheme);
    if include_delete {
        entries.push(BarEntry { gap: " | ", key: "d", label: " Delete theme" });
        actions.push(SettingsShortcutAction::DeleteTheme);
    }
    assert(actions@ =~= settings_bar_actions(include_delete));
    assert(bar_widths(entries@) =~= settings_bar_widths(include_delete));
    (entries, actions)
}

/// The footer shortcut under a click at column `col` of the footer row.
pub open spec fn footer_target_spec(footer: Area, col: u16) -> Option<FooterAction> {
    let (segs, total) = bar_layout(footer_widths(), 7);
    match span_target_spec(footer, total, segs, col) {
        Some(k) => if k < 7 {
            Some(footer_actions()[k as int])
        } else {
            None
        },
        None => None,
    }
}

pub fn footer_action_at(footer: Area, col: u16) -> (r: Option<FooterAction>)
    ensures
        r == footer_target_spec(footer, col),
{
    let (entries, actions) = footer_bar();
    let (segs, total) = bar_segments(&entries);
    match span_target(footer, total, &segs, col) {
        Some(k) => if k < 7 {
            Some(actions[k])
        } else {
            None
        },
        None => None,
    }
}

/// Where each part of the category form is drawn, by line.
pub struct CategoryFormLayout {
    pub line_count: usize,
    pub name_line: usize,
    pub column_line: usize,
    pub presets_heading_line: Option<usize>,
    pub presets_start_line: Option<usize>,
    pub presets_count: usize,
    pub custom_heading_line: usize,
    pub custom_name_line: usize,
    pub custom_background_line: usize,
    pub custom_text_line: usize,
}

/// The category form's lines: a heading, name, column, then (when there
/// are presets) a blank line, a heading and one line per preset, then a
/// blank line, the custom preset heading, its name, background and text, a
/// blank line, and the error if there is one.
pub open spec fn category_layout_spec(presets: nat, has_error: bool) -> (nat, Option<nat>, Option<nat>, nat) {
    let after: nat = if presets > 0 {
        5 + presets
    } else {
        3
    };
    (
        after,
        if presets > 0 { Some(4nat) } else { None },
        if presets > 0 { Some(5nat) } else { None },
        after + 6 + if has_error { 1nat } else { 0nat },
    )
}

/// The category form's layout for `presets` presets, with or without an
/// error line.
pub open spec fn category_layout_of(presets: nat, has_error: bool) -> CategoryFormLayout {
    let (after, heading, start, count) = category_layout_spec(presets, has_error);
    CategoryFormLayout {
        line_count: count as usize,
        name_line: 1,
        column_line: 2,
        presets_heading_line: match heading {
            Some(h) => Some(h as usize),
            None => None,
        },
        presets_start_line: match start {
            Some(st) => Some(st as usize),
            None => None,
        },
        presets_count: presets as usize,
        custom_heading_line: (after + 1) as usize,
        custom_name_line: (after + 2) as usize,
        custom_background_line: (after + 3) as usize,
        custom_text_line: (after + 4) as usize,
    }
}

/// The line layout of the category form.
pub fn category_form_layout(form: &CategoryFormState) -> (r: CategoryFormLayout)
    requires
        form.color_presets@.len() + 20 < usize::MAX,
    ensures
        r == category_layout_of(form.color_presets@.len(), form.error is Some),
        ({
            let (after, heading, start, count) = category_layout_spec(
                form.color_presets@.len(),
                form.error is Some,
            );
            &&& r.name_line == 1 && r.column_line == 2
            &&& r.presets_heading_line == match heading {
                Some(h) => Some(h as usize),
                None => None::<usize>,
            }
            &&& r.presets_start_line == match start {
                Some(s) => Some(s as usize),
                None => None::<usize>,
            }
            &&& r.presets_count == form.color_presets@.len()
            &&& r.custom_heading_line == after + 1
            &&& r.custom_name_line == after + 2
            &&& r.custom_background_line == after + 3
            &&& r.custom_text_line == after + 4
            &&& r.line_count == count
        }),
{
    let p = form.color_presets.len();
    let after: usize = if p > 0 {
        5 + p
    } else {
        3
    };
    CategoryFormLayout {
        line_count: after + 6 + if form.error.is_some() {
            1
        } else {
            0
        },
        name_line: 1,
        column_line: 2,
        presets_heading_line: if p > 0 {
            Some(4)
        } else {
            None
        },
        presets_start_line: if p > 0 {
            Some(5)
        } else {
            None
        },
        presets_count: p,
        custom_heading_line: after + 1,
        custom_name_line: after + 2,
        custom_background_line: after + 3,
        custom_text_line: after + 4,
    }
}

/// A click inside the category form.
#[derive(Clone, Copy, Debug, PartialEq, Eq, Structural)]
pub enum CategoryFormClick {
    SelectField(CategoryField),
    SelectPalette(usize),
    Shortcut(CategoryShortcutAction),
}

/// What the content line `line` of the category form selects.
pub open spec fn category_line_target(l: CategoryFormLayout, line: int) -> Option<CategoryFormClick> {
    if line >= l.line_count {
        None
    } else if line == l.name_line {
        Some(CategoryFormClick::SelectField(CategoryField::Name))
    } else if line == l.column_line {
        Some(CategoryFormClick::SelectField(CategoryField::Column))
    } else if line == l.custom_name_line {
        Some(CategoryFormClick::SelectField(CategoryField::CustomPresetName))
    } else if line == l.custom_background_line {
        Some(CategoryFormClick::SelectField(CategoryField::CustomPresetBackground))
    } else if line == l.custom_text_line {
        Some(CategoryFormClick::SelectField(CategoryField::CustomPresetText))
    } else if l.presets_heading_line == Some(line as usize) && line <= usize::MAX {
        Some(CategoryFormClick::SelectField(CategoryField::Palette))
    } else {
        match l.presets_start_line {
            Some(s) => if s <= line < s + l.presets_count {
                Some(CategoryFormClick::SelectPalette((line - s) as usize))
            } else {
                None
            },
            None => None,
        }
    }
}

/// What a click at `(col, row)` selects in the category form: a shortcut
/// of its bar, or a line of its content.
pub open spec fn category_click_spec(
    l: CategoryFormLayout,
    segs: Seq<Segment>,
    actions: Seq<CategoryShortcutAction>,
    total: u16,
    bar: Area,
    content: Area,
    col: u16,
    row: u16,
) -> Option<CategoryFormClick> {
    if bar.holds(col, row) {
        match span_target_spec(bar, total, segs, col) {
            Some(k) => if k < actions.len() {
                Some(CategoryFormClick::Shortcut(actions[k as int]))
            } else {
                None
            },
            None => None,
        }
    } else if content.width == 0 || content.height == 0 || !content.holds(col, row) {
        None
    } else {
        category_line_target(l, row - content.y)
    }
}

fn line_target(l: &CategoryFormLayout, line: usize) -> (r: Option<CategoryFormClick>)
    ensures
        r == category_line_target(*l, line as int),
{
    if line >= l.line_count {
        None
    } else if line == l.name_line {
        Some(CategoryFormClick::SelectField(CategoryField::Name))
    } else if line == l.column_line {
        Some(CategoryFormClick::SelectField(CategoryField::Column))
    } else if line == l.custom_name_line {
        Some(CategoryFormClick::SelectField(CategoryField::CustomPresetName))
    } else if line == l.custom_background_line {
        Some(CategoryFormClick::SelectField(CategoryField::CustomPresetBackground))
    } else if line == l.custom_text_line {
        Some(CategoryFormClick::SelectField(CategoryField::CustomPresetText))
    } else if l.presets_heading_line == Some(line) {
        Some(CategoryFormClick::SelectField(CategoryField::Palette))
    } else {
        match l.presets_start_line {
            Some(s) => if s <= line && (line - s) < l.presets_count {
                Some(CategoryFormClick::SelectPalette(line - s))
            } else {
                None
            },
            None => None,
        }
    }
}

/// Resolves a click in the category form, given its line layout, the spans
/// and actions of its shortcut bar, and the drawn bar row and content area.
pub fn category_click(
    layout: &CategoryFormLayout,
    segs: &Vec<Segment>,
    actions: &Vec<CategoryShortcutAction>,
    total: u16,
    bar: Area,
    content: Area,
    col: u16,
    row: u16,
) -> (r: Option<CategoryFormClick>)
    ensures
        r == category_click_spec(*layout, segs@, actions@, total, bar, content, col, row),
{
    if bar.contains(col, row) {
        return match span_target(bar, total, segs, col) {
            Some(k) => if k < actions.len() {
                Some(CategoryFormClick::Shortcut(actions[k]))
            } else {
                None
            },
            None => None,
        };
    }
    if content.width == 0 || content.height == 0 || !content.contains(col, row) {
        return None;
    }
    line_target(layout, (row - content.y) as usize)
}

/// Where each part of the settings form is drawn, by line.
pub struct SettingsFormLayout {
    pub line_count: usize,
    pub title_line: usize,
    pub columns_line: usize,
    pub theme_heading_line: Option<usize>,
    pub theme_list_start: Option<usize>,
    pub theme_count: usize,
    pub custom_heading_line: usize,
    pub custom_name_line: usize,
    pub custom_primary_line: usize,
    pub custom_accent_line: usize,
    pub custom_highlight_line: usize,
    pub custom_background_line: usize,
    pub custom_surface_line: usize,
    pub custom_text_line: usize,
}

/// The line after the theme list: a heading, title, columns and a blank
/// line come first, then the error if there is one, then (when there are
/// options) a blank line, a heading and one line per option.
pub open spec fn settings_after_list(options: nat, has_error: bool) -> nat {
    let base: nat = 4 + if has_error { 1nat } else { 0nat };
    if options > 0 {
        base + 2 + options
    } else {
        base
    }
}

/// The settings form's layout for `options` theme options, with or without
/// an error line.
pub open spec fn settings_layout_of(options: nat, has_error: bool) -> SettingsFormLayout {
    let after = settings_after_list(options, has_error);
    let base: nat = 4 + if has_error { 1nat } else { 0nat };
    SettingsFormLayout {
        line_count: (after + 9) as usize,
        title_line: 1,
        columns_line: 2,
        theme_heading_line: if options > 0 { Some((base + 1) as usize) } else { None },
        theme_list_start: if options > 0 { Some((base + 2) as usize) } else { None },
        theme_count: options as usize,
        custom_heading_line: (after + 1) as usize,
        custom_name_line: (after + 2) as usize,
        custom_primary_line: (after + 3) as usize,
        custom_accent_line: (after + 4) as usize,
        custom_highlight_line: (after + 5) as usize,
        custom_background_line: (after + 6) as usize,
        custom_surface_line: (after + 7) as usize,
        custom_text_line: (after + 8) as usize,
    }
}

/// The line layout of the settings form; after the list come a blank line,
/// the custom theme heading and its name, primary, accent, highlight,
/// background, surface and text lines.
pub fn settings_form_layout(form: &SettingsFormState) -> (r: SettingsFormLayout)
    requires
        form.theme_options@.len() + 20 < usize::MAX,
    ensures
        r == settings_layout_of(form.theme_options@.len(), form.error is Some),
        ({
            let after = settings_after_list(form.theme_options@.len(), form.error is Some);
            let base: nat = 4 + if form.error is Some { 1nat } else { 0nat };
            &&& r.title_line == 1 && r.columns_line == 2
            &&& r.theme_heading_line == if form.theme_options@.len() > 0 {
                Some((base + 1) as usize)
            } else {
                None
            }
            &&& r.theme_list_start == if form.theme_options@.len() > 0 {
                Some((base + 2) as usize)
            } else {
                None
            }
            &&& r.theme_count == form.theme_options@.len()
            &&& r.custom_heading_line == after + 1
            &&& r.custom_name_line == after + 2
            &&& r.custom_primary_line == after + 3
            &&& r.custom_accent_line == after + 4
            &&& r.custom_highlight_line == after + 5
            &&& r.custom_background_line == after + 6
            &&& r.custom_surface_line == after + 7
            &&& r.custom_text_line == after + 8
            &&& r.line_count == after + 9
        }),
{
    let n = form.theme_options.len();
    let base: usize = if form.error.is_some() {
        5
    } else {
        4
    };
    let after: usize = if n > 0 {
        base + 2 + n
    } else {
        base
    };
    SettingsFormLayout {
        line_count: after + 9,
        title_line: 1,
        columns_line: 2,
        theme_heading_line: if n > 0 {
            Some(base + 1)
        } else {
            None
        },
        theme_list_start: if n > 0 {
            Some(base + 2)
        } else {
            None
        },
        theme_count: n,
        custom_heading_line: after + 1,
        custom_name_line: after + 2,
        custom_primary_line: after + 3,
        custom_accent_line: after + 4,
        custom_highlight_line: after + 5,
        custom_background_line: after + 6,
        custom_surface_line: after + 7,
        custom_text_line: after + 8,
    }
}

/// A click inside the settings form.
#[derive(Clone, Copy, Debug, PartialEq, Eq, Structural)]
pub enum SettingsFormClick {
    SelectField(SettingsField),
    SelectTheme(usize),
    Shortcut(SettingsShortcutAction),
}

/// What the content line `line` of the settings form selects.
pub open spec fn settings_line_target(l: SettingsFormLayout, line: int) -> Option<SettingsFormClick> {
    let in_list = match l.theme_list_start {
        Some(s) => s <= line < s + l.theme_count,
        None => false,
    };
    if line >= l.line_count {
        None
    } else if line == l.title_line {
        Some(SettingsFormClick::SelectField(SettingsField::Title))
    } else if line == l.columns_line {
        Some(SettingsFormClick::SelectField(SettingsField::Columns))
    } else if l.theme_heading_line == Some(line as usize) && line <= usize::MAX {
        Some(SettingsFormClick::SelectField(SettingsField::Theme))
    } else if in_list {
        Some(SettingsFormClick::SelectTheme((line - l.theme_list_start->Some_0) as usize))
    } else if line == l.custom_heading_line || line == l.custom_name_line {
        Some(SettingsFormClick::SelectField(SettingsField::CustomName))
    } else if line == l.custom_primary_line {
        Some(SettingsFormClick::SelectField(SettingsField::CustomPrimary))
    } else if line == l.custom_accent_line {
        Some(SettingsFormClick::SelectField(SettingsField::CustomAccent))
    } else if line == l.custom_background_line {
        Some(SettingsFormClick::SelectField(SettingsField::CustomBackground))
    } else if line == l.custom_surface_line {
        Some(SettingsFormClick::SelectField(SettingsField::CustomSurface))
    } else if line == l.custom_text_line {
        Some(SettingsFormClick::SelectField(SettingsField::CustomText))
    } else if line == l.custom_highlight_line {
        Some(SettingsFormClick::SelectField(SettingsField::CustomHighlight))
    } else {
        None
    }
}

fn settings_line(l: &SettingsFormLayout, line: usize) -> (r: Option<SettingsFormClick>)
    ensures
        r == settings_line_target(*l, line as int),
{
    let in_list = match l.theme_list_start {
        Some(s) => s <= line && line - s < l.theme_count,
        None => false,
    };
    if line >= l.line_count {
        None
    } else if line == l.title_line {
        Some(SettingsFormClick::SelectField(SettingsField::Title))
    } else if line == l.columns_line {
        Some(SettingsFormClick::SelectField(SettingsField::Columns))
    } else if l.theme_heading_line == Some(line) {
        Some(SettingsFormClick::SelectField(SettingsField::Theme))
    } else if in_list {
        match l.theme_list_start {
            Some(s) => Some(SettingsFormClick::SelectTheme(line - s)),
            None => None,
        }
    } else if line == l.custom_heading_line || line == l.custom_name_line {
        Some(SettingsFormClick::SelectField(SettingsField::CustomName))
    } else if line == l.custom_primary_line {
        Some(SettingsFormClick::SelectField(SettingsField::CustomPrimary))
    } else if line == l.custom_accent_line {
        Some(SettingsFormClick::SelectField(SettingsField::CustomAccent))
    } else if line == l.custom_background_line {
        Some(SettingsFormClick::SelectField(SettingsField::CustomBackground))
    } else if line == l.custom_surface_line {
        Some(SettingsFormClick::SelectField(SettingsField::CustomSurface))
    } else if line == l.custom_text_line {
        Some(SettingsFormClick::SelectField(SettingsField::CustomText))
    } else if line == l.custom_highlight_line {
        Some(SettingsFormClick::SelectField(SettingsField::CustomHighlight))
    } else {
        None
    }
}

/// What a click at `(col, row)` selects in the settings form.
pub open spec fn settings_click_spec(
    l: SettingsFormLayout,
    segs: Seq<Segment>,
    actions: Seq<SettingsShortcutAction>,
    total: u16,
    bar: Area,
    content: Area,
    col: u16,
    row: u16,
) -> Option<SettingsFormClick> {
    if bar.holds(col, row) {
        match span_target_spec(bar, total, segs, col) {
            Some(k) => if k < actions.len() {
                Some(SettingsFormClick::Shortcut(actions[k as int]))
            } else {
                None
            },
            None => None,
        }
    } else if content.width == 0 || content.height == 0 || !content.holds(col, row) {
        None
    } else {
        settings_line_target(l, row - content.y)
    }
}

/// Resolves a click in the settings form, given its line layout, the spans
/// and actions of its shortcut bar, and the drawn bar row and content area.
pub fn settings_click(
    layout: &SettingsFormLayout,
    segs: &Vec<Segment>,
    actions: &Vec<SettingsShortcutAction>,
    total: u16,
    bar: Area,
    content: Area,
    col: u16,
    row: u16,
) -> (r: Option<SettingsFormClick>)
    ensures
        r == settings_click_spec(*layout, segs@, actions@, total, bar, content, col, row),
{
    if bar.contains(col, row) {
        return match span_target(bar, total, segs, col) {
            Some(k) => if k < actions.len() {
                Some(SettingsFormClick::Shortcut(actions[k]))
            } else {
                None
            },
            None => None,
        };
    }
    if content.width == 0 || content.height == 0 || !content.contains(col, row) {
        return None;
    }
    settings_line(layout, (row - content.y) as usize)
}

} // verus!
