//! How the controller answers keys, clicks and the actions they queue.
use crate::category_form::{
    submission_ok, custom_preset_index_spec, category_key_step, is_delete_key, next_category_field, palette_moved, previous_category_field,
    with_palette_applied, CategoryField, CategoryFormState, CategoryFormView, FormKeyResult,
};
use crate::controller::{
    moved_down, moved_up, AppState, DeferredAction, InfoPopup, PendingCommand,
    PopupState,
};
use crate::item_form::{item_key_step, ItemFormKeyResult, ItemFormState, ItemFormView};
use crate::keys::{KeyCode, KeyInput};
use crate::layout::{entry_at_position, entry_target_spec, map_view, ScreenLayout};
use crate::menu::{CategoryState, DisplayEntry};
use crate::settings_form::{
    deletable_index_spec, next_settings_field, populated, settings_key_step, theme_moved,
    SettingsField, SettingsFormKeyResult, SettingsFormState, SettingsFormView,
};
use crate::shortcuts::{
    category_bar, category_click, category_form_layout, footer_action_at, footer_target_spec,
    settings_bar,
    settings_click, settings_form_layout, category_bar_actions, category_bar_widths,
    category_click_spec, category_layout_of, settings_bar_actions, settings_bar_widths,
    settings_click_spec, settings_layout_of, CategoryFormClick, CategoryShortcutAction,
    FooterAction, SettingsFormClick, SettingsShortcutAction,
};
use crate::layout::{bar_layout, bar_segments};
use crate::text::{str_eq, trim, trimmed};
use vstd::prelude::*;
use vstd::string::StrSliceExecFns;
use vstd::string::StringExecFns;

verus! {

/// A mouse event: the cell and whether it is a press of the left button.
#[derive(Clone, Copy, Debug, PartialEq, Eq, Structural)]
pub struct MouseClick {
    pub col: u16,
    pub row: u16,
    pub left_down: bool,
}

/// A click inside an open form.
#[derive(Clone, Copy, Debug, PartialEq, Eq, Structural)]
pub enum PopupClickAction {
    Category(CategoryFormClick),
    Settings(SettingsFormClick),
}

/// The open category form, if that is the open modal.
pub open spec fn category_form_of(s: &AppState) -> Option<CategoryFormView> {
    match s.active_popup {
        Some(PopupState::CategoryForm(f)) => Some(f@),
        _ => None,
    }
}

/// The open settings form, if that is the open modal.
pub open spec fn settings_form_of(s: &AppState) -> Option<SettingsFormView> {
    match s.active_popup {
        Some(PopupState::SettingsForm(f)) => Some(f@),
        _ => None,
    }
}

/// The open item form, if that is the open modal.
pub open spec fn item_form_of(s: &AppState) -> Option<ItemFormView> {
    match s.active_popup {
        Some(PopupState::ItemForm(f)) => Some(f@),
        _ => None,
    }
}

/// The status line shows `m`.
pub open spec fn status_is(s: &AppState, m: Seq<char>) -> bool {
    match s.status_message {
        Some(t) => t@ == m,
        None => false,
    }
}

/// The menu, the user's pairs and themes, the active theme and the
/// settings are as they were.
pub open spec fn data_unchanged(old: &AppState, new: &AppState) -> bool {
    &&& new.categories == old.categories
    &&& new.custom_colors == old.custom_colors
    &&& new.saved_themes == old.saved_themes
    &&& new.theme == old.theme
    &&& new.theme_key == old.theme_key
    &&& new.title == old.title
    &&& new.column_count == old.column_count
}

/// What a key does to an open modal, apart from submissions and deletions:
/// Escape closes any modal (Enter too for the read-only ones), and the
/// keys that only edit or move leave the form as its own step says.
pub open spec fn popup_key_effect(old: &AppState, new: &AppState, key: KeyInput) -> bool {
    match old.active_popup {
        Some(PopupState::Info(_)) | Some(PopupState::Message(_)) => (key.code == KeyCode::Esc
            || key.code == KeyCode::Enter) ==> new.active_popup is None,
        Some(PopupState::ItemForm(f)) => {
            &&& (key.code == KeyCode::Esc ==> new.active_popup is None && status_is(new, "Item edit cancelled"@))
            &&& (key.code != KeyCode::Esc && key.code != KeyCode::Enter ==> item_form_of(new)
                == Some(item_key_step(f@, key)))
        },
        Some(PopupState::CategoryForm(f)) => {
            &&& (key.code == KeyCode::Esc ==> new.active_popup is None && status_is(new, "Category edit cancelled"@))
            &&& (key.code != KeyCode::Esc && key.code != KeyCode::Enter && !is_delete_key(f@, key)
                ==> category_form_of(new) == Some(category_key_step(f@, key)))
        },
        Some(PopupState::SettingsForm(f)) => {
            &&& (key.code == KeyCode::Esc ==> new.active_popup is None && status_is(new, "Settings update cancelled"@))
            &&& (key.code != KeyCode::Esc && key.code != KeyCode::Enter && !((key.code
                == KeyCode::Char('d') || key.code == KeyCode::Char('D')) && f.selected_field
                == SettingsField::Theme && deletable_index_spec(f@) is Some) ==> settings_form_of(new)
                == Some(settings_key_step(f@, key)))
        },
        None => true,
    }
}

/// What a click does to an open form, apart from submissions and
/// deletions: selecting a field, a preset or a theme, moving through the
/// lists, and cancelling, as the matching keys do.
pub open spec fn popup_click_effect(old: &AppState, new: &AppState, action: PopupClickAction) -> bool {
    match (action, old.active_popup) {
        (PopupClickAction::Category(click), Some(PopupState::CategoryForm(f))) => {
            let v = f@;
            match click {
                CategoryFormClick::SelectField(field) => category_form_of(new) == Some(
                    CategoryFormView { selected_field: field, ..v },
                ),
                CategoryFormClick::SelectPalette(i) => category_form_of(new) == if i < v.presets.len() {
                    Some(with_palette_applied(CategoryFormView { selected_field: CategoryField::Palette, palette_index: i, ..v }))
                } else {
                    Some(v)
                },
                CategoryFormClick::Shortcut(CategoryShortcutAction::Cancel) => new.active_popup is None,
                CategoryFormClick::Shortcut(CategoryShortcutAction::NextField) => category_form_of(new)
                    == Some(CategoryFormView { has_error: false, selected_field: next_category_field(v.selected_field, v.presets.len() > 0), ..v }),
                CategoryFormClick::Shortcut(CategoryShortcutAction::PreviousField) => category_form_of(new)
                    == Some(CategoryFormView { has_error: false, selected_field: previous_category_field(v.selected_field, v.presets.len() > 0), ..v }),
                CategoryFormClick::Shortcut(CategoryShortcutAction::NextPalette) => category_form_of(new)
                    == Some(palette_moved(CategoryFormView { has_error: false, ..v }, true)),
                CategoryFormClick::Shortcut(CategoryShortcutAction::PreviousPalette) => category_form_of(new)
                    == Some(palette_moved(CategoryFormView { has_error: false, ..v }, false)),
                CategoryFormClick::Shortcut(CategoryShortcutAction::Submit) => !submission_ok(v) ==> (
                category_form_of(new) == Some(CategoryFormView { has_error: true, ..v })
                    && data_unchanged(old, new)),
                CategoryFormClick::Shortcut(CategoryShortcutAction::DeletePreset) => custom_preset_index_spec(v) is None
                    ==> (category_form_of(new) == Some(CategoryFormView { has_error: true, ..v })
                    && data_unchanged(old, new)),
            }
        },
        (PopupClickAction::Settings(click), Some(PopupState::SettingsForm(f))) => {
            let v = f@;
            match click {
                SettingsFormClick::SelectField(field) => settings_form_of(new) == Some(
                    SettingsFormView { selected_field: field, ..v },
                ),
                SettingsFormClick::SelectTheme(i) => settings_form_of(new) == if i >= v.options.len() {
                    Some(v)
                } else if i == v.theme_index {
                    Some(SettingsFormView { selected_field: SettingsField::Theme, ..v })
                } else {
                    Some(populated(SettingsFormView { selected_field: SettingsField::Theme, theme_index: i, ..v }))
                },
                SettingsFormClick::Shortcut(SettingsShortcutAction::Cancel) => new.active_popup is None,
                SettingsFormClick::Shortcut(SettingsShortcutAction::NextField) => settings_form_of(new)
                    == Some(SettingsFormView { has_error: false, selected_field: next_settings_field(v.selected_field), ..v }),
                SettingsFormClick::Shortcut(SettingsShortcutAction::NextTheme) => settings_form_of(new)
                    == Some(theme_moved(SettingsFormView { has_error: false, ..v }, true)),
                SettingsFormClick::Shortcut(SettingsShortcutAction::PreviousTheme) => settings_form_of(new)
                    == Some(theme_moved(SettingsFormView { has_error: false, ..v }, false)),
                SettingsFormClick::Shortcut(SettingsShortcutAction::DeleteTheme) => deletable_index_spec(v) is None
                    ==> (settings_form_of(new) == Some(SettingsFormView { has_error: true, ..v })
                    && data_unchanged(old, new)),
                _ => true,
            }
        },
        _ => true,
    }
}

/// The category a new item is offered: the first one, or "General".
pub open spec fn first_category_name(cats: Seq<CategoryState>) -> Seq<char> {
    if cats.len() == 0 {
        "General"@
    } else {
        cats[0].name@
    }
}

/// The categories after item `t` of category `c` is deleted: that category
/// loses the item, and goes when it was the last; the others stay.
pub open spec fn item_removed(old_cats: Seq<CategoryState>, cats: Seq<CategoryState>, c: int, t: int) -> bool {
    let cat = old_cats[c];
    if cat.items@.len() == 1 {
        cats.to_multiset() == old_cats.to_multiset().remove(cat)
    } else {
        exists|x: CategoryState|
            x.name == cat.name && x.column == cat.column && x.colors == cat.colors && x.expanded
                == cat.expanded && x.items@ == cat.items@.remove(t) && cats.to_multiset()
                == old_cats.to_multiset().insert(x).remove(cat)
    }
}

/// The selected display row, if the selection is in range.
pub open spec fn selected_entry(s: &AppState) -> Option<DisplayEntry> {
    if s.current_index < s.display_entries@.len() {
        Some(s.display_entries@[s.current_index as int])
    } else {
        None
    }
}

impl AppState {
    pub fn set_status(&mut self, message: String)
        ensures
            *final(self) == (AppState { status_message: Some(message), ..*old(self) }),
    {
        self.status_message = Some(message);
    }

    /// Flips the selected category between expanded and collapsed.
    pub fn toggle_category(&mut self)
        requires
            1 <= old(self).column_count <= 6,
        ensures
            match selected_entry(old(self)) {
                Some(DisplayEntry::Category { category_index }) => category_index < old(
                    self
                ).categories@.len() ==> final(self).menu_dirty && exists|x: CategoryState|
                    x == (CategoryState {
                        expanded: !old(self).categories@[category_index as int].expanded,
                        ..old(self).categories@[category_index as int]
                    }) && final(self).categories@.to_multiset() == old(self).categories@.to_multiset().insert(
                        x,
                    ).remove(old(self).categories@[category_index as int]) && final(self).categories@.contains(x),
                _ => final(self).categories == old(self).categories,
            },
    {
        if self.current_index < self.display_entries.len() {
            if let DisplayEntry::Category { category_index } = self.display_entries[self.current_index] {
                if category_index < self.categories.len() {
                    let ghost start = self.categories@;
                    let mut cat = self.categories.remove(category_index);
                    cat.expanded = !cat.expanded;
                    let ghost x = cat;
                    self.categories.insert(category_index, cat);
                    let ghost before = self.categories@;
                    proof {
                        broadcast use vstd::seq_lib::group_to_multiset_ensures;

                        assert(before =~= start.update(category_index as int, x));
                    }
                    self.rebuild_display();
                    self.menu_dirty = true;
                    proof {
                        crate::controller::lemma_permuted_contains(
                            before,
                            self.categories@,
                            category_index as int,
                        );
                        assert(before[category_index as int] == x);
                        assert(self.categories@.contains(x));
                        assert(x == (CategoryState {
                            expanded: !start[category_index as int].expanded,
                            ..start[category_index as int]
                        }));
                        assert(self.categories@.to_multiset() == start.to_multiset().insert(x).remove(
                            start[category_index as int],
                        ));
                    }
                }
            }
        }
    }

    /// Queues the selected item's command to run, unless it is blank.
    pub fn prepare_command(&mut self)
        ensures
            match selected_entry(old(self)) {
                Some(DisplayEntry::Item { category_index, item_index }) => {
                    if category_index < old(self).categories@.len() && item_index < old(
                        self
                    ).categories@[category_index as int].items@.len() && trimmed(
                        old(self).categories@[category_index as int].items@[item_index as int].cmd@,
                    ).len() > 0 {
                        let item = old(self).categories@[category_index as int].items@[item_index as int];
                        final(self).pending_command is Some && final(self).pending_command->Some_0.command@
                            == item.cmd@ && final(self).pending_command->Some_0.pause == item.pause
                    } else {
                        final(self).pending_command == old(self).pending_command
                    }
                },
                _ => final(self).pending_command == old(self).pending_command,
            },
            final(self).categories == old(self).categories,
            final(self).display_entries == old(self).display_entries,
            final(self).current_index == old(self).current_index,
    {
        if self.current_index < self.display_entries.len() {
            if let DisplayEntry::Item { category_index, item_index } = self.display_entries[self.current_index] {
                if category_index < self.categories.len() && item_index
                    < self.categories[category_index].items.len() {
                    let item = &self.categories[category_index].items[item_index];
                    if trim(item.cmd.as_str()).unicode_len() == 0 {
                        return;
                    }
                    let mut msg = String::from_str("Running ");
                    msg.append(item.label.as_str());
                    let command = item.cmd.clone();
                    let pause = item.pause;
                    self.status_message = Some(msg);
                    self.pending_command = Some(PendingCommand { command, pause });
                }
            }
        }
    }

    /// Enter on a row: a header toggles, an item queues its command.
    pub fn activate_current_entry(&mut self)
        requires
            1 <= old(self).column_count <= 6,
        ensures
            match selected_entry(old(self)) {
                Some(DisplayEntry::Category { category_index }) => category_index < old(self).categories@.len()
                    ==> final(self).menu_dirty && exists|k: int|
                    0 <= k < final(self).categories@.len() && final(self).categories@[k].name
                        == old(self).categories@[category_index as int].name
                        && final(self).categories@[k].expanded
                        == !old(self).categories@[category_index as int].expanded,
                Some(DisplayEntry::Item { category_index, item_index }) => {
                    &&& final(self).categories == old(self).categories
                    &&& (category_index < old(self).categories@.len() && item_index < old(self).categories@[category_index as int].items@.len()
                        && trimmed(old(self).categories@[category_index as int].items@[item_index as int].cmd@).len() > 0
                        ==> final(self).pending_command is Some && final(self).pending_command->Some_0.command@
                        == old(self).categories@[category_index as int].items@[item_index as int].cmd@)
                },
                None => final(self).categories == old(self).categories,
            },
    {
        if self.current_index < self.display_entries.len() {
            match self.display_entries[self.current_index] {
                DisplayEntry::Category { .. } => self.toggle_category(),
                DisplayEntry::Item { .. } => self.prepare_command(),
            }
        }
    }

    /// Deletes the selected item, and its category when that is left empty.
    pub fn delete_selected_item(&mut self)
        requires
            1 <= old(self).column_count <= 6,
        ensures
            match selected_entry(old(self)) {
                Some(DisplayEntry::Item { category_index, item_index }) => category_index < old(
                    self
                ).categories@.len() && item_index < old(self).categories@[category_index as int].items@.len()
                    ==> final(self).menu_dirty && final(self).categories@.len()
                    == old(self).categories@.len() - if old(self).categories@[category_index as int].items@.len()
                    == 1 {
                    1int
                } else {
                    0int
                } && item_removed(old(self).categories@, final(self).categories@, category_index as int, item_index as int),
                _ => final(self).categories == old(self).categories,
            },
    {
        if let Some((category_index, item_index)) = self.selected_item_indices() {
            if category_index < self.categories.len() && item_index
                < self.categories[category_index].items.len() {
                let ghost start = self.categories@;
                let mut cat = self.categories.remove(category_index);
                cat.items.remove(item_index);
                let ghost x = cat;
                if cat.items.len() > 0 {
                    self.categories.insert(category_index, cat);
                    proof {
                        assert(self.categories@ =~= start.update(category_index as int, x));
                    }
                }
                proof {
                    broadcast use vstd::seq_lib::group_to_multiset_ensures;

                    assert(x.items@ == start[category_index as int].items@.remove(item_index as int));
                }
                let len = self.display_entries.len();
                if len > 0 && self.current_index >= len - 1 && self.current_index > 0 {
                    self.current_index = self.current_index - 1;
                }
                self.rebuild_display();
                self.menu_dirty = true;
                self.set_status(String::from_str("Item deleted"));
            }
        }
    }

    /// Queues the form for a new item.
    pub fn queue_new_item(&mut self)
        ensures
            final(self).pending_action matches Some(DeferredAction::NewItem),
    {
        self.pending_action = Some(DeferredAction::NewItem);
    }

    /// Queues the form that edits the selected item or category.
    pub fn queue_edit_current(&mut self)
        ensures
            match selected_entry(old(self)) {
                Some(DisplayEntry::Item { category_index, item_index }) => final(self).pending_action
                    == Some(DeferredAction::EditItem { category_index, item_index }),
                Some(DisplayEntry::Category { category_index }) => final(self).pending_action
                    == Some(DeferredAction::EditCategory { category_index }),
                None => final(self).pending_action == old(self).pending_action,
            },
    {
        if self.current_index < self.display_entries.len() {
            match self.display_entries[self.current_index] {
                DisplayEntry::Item { category_index, item_index } => {
                    self.pending_action = Some(
                        DeferredAction::EditItem { category_index, item_index },
                    );
                },
                DisplayEntry::Category { category_index } => {
                    self.pending_action = Some(DeferredAction::EditCategory { category_index });
                },
            }
        }
    }

    /// Queues the settings form with `focus` focused.
    pub fn queue_settings_with_focus(&mut self, focus: SettingsField)
        ensures
            final(self).pending_action == Some(DeferredAction::Settings(focus)),
    {
        self.pending_action = Some(DeferredAction::Settings(focus));
    }

    /// Hands the queued command to the caller.
    pub fn take_pending_command(&mut self) -> (r: Option<PendingCommand>)
        ensures
            r == old(self).pending_command,
            final(self).pending_command is None,
    {
        let mut r = None;
        std::mem::swap(&mut r, &mut self.pending_command);
        r
    }

    /// Hands the queued action to the caller.
    pub fn take_pending_action(&mut self) -> (r: Option<DeferredAction>)
        ensures
            r == old(self).pending_action,
            final(self).pending_action is None,
    {
        let mut r = None;
        std::mem::swap(&mut r, &mut self.pending_action);
        r
    }

    /// Shows the selected item's details.
    pub fn show_info_popup(&mut self)
        ensures
            match selected_entry(old(self)) {
                Some(DisplayEntry::Item { category_index, item_index }) => category_index < old(
                    self
                ).categories@.len() && item_index < old(self).categories@[category_index as int].items@.len()
                    ==> {
                    let item = old(self).categories@[category_index as int].items@[item_index as int];
                    final(self).active_popup matches Some(PopupState::Info(p)) && p.label@ == item.label@
                        && p.command@ == item.cmd@ && p.description@ == item.info@ && p.category@
                        == old(self).categories@[category_index as int].name@
                },
                _ => final(self).active_popup == old(self).active_popup,
            },
            final(self).categories == old(self).categories,
    {
        if let Some((category_index, item_index)) = self.selected_item_indices() {
            if category_index < self.categories.len() && item_index
                < self.categories[category_index].items.len() {
                let item = &self.categories[category_index].items[item_index];
                let popup = InfoPopup {
                    label: item.label.clone(),
                    command: item.cmd.clone(),
                    category: self.categories[category_index].name.clone(),
                    description: item.info.clone(),
                };
                self.active_popup = Some(PopupState::Info(popup));
            }
        }
    }

    /// Carries out a footer shortcut.
    pub fn execute_footer_action(&mut self, action: FooterAction)
        requires
            1 <= old(self).column_count <= 6,
        ensures
            action == FooterAction::Quit ==> final(self).should_quit,
            action == FooterAction::NewItem ==> final(self).pending_action matches Some(
                DeferredAction::NewItem,
            ),
            action == FooterAction::Settings ==> final(self).pending_action == Some(
                DeferredAction::Settings(SettingsField::Title),
            ),
            action == FooterAction::ScanBin ==> final(self).scan_requested,
    {
        match action {
            FooterAction::Quit => self.should_quit = true,
            FooterAction::Edit => self.queue_edit_current(),
            FooterAction::Execute => self.prepare_command(),
            FooterAction::NewItem => self.queue_new_item(),
            FooterAction::Delete => self.delete_selected_item(),
            FooterAction::Settings => self.queue_settings_with_focus(SettingsField::Title),
            FooterAction::ScanBin => self.scan_requested = true,
        }
    }

    /// Opens the item form: to edit the item at `target`, or for a new item
    /// filed under the first category ("General" when there is none).
    pub fn open_item_form(&mut self, target: Option<(usize, usize)>)
        ensures
            (target is None || (target->Some_0.0 < old(self).categories@.len() && target->Some_0.1
                < old(self).categories@[target->Some_0.0 as int].items@.len())) ==> final(
                self
            ).active_popup matches Some(PopupState::ItemForm(_)),
            final(self).categories == old(self).categories,
    {
        let mut names: Vec<String> = Vec::new();
        if self.categories.len() == 0 {
            names.push(String::from_str("General"));
        } else {
            let mut i: usize = 0;
            while i < self.categories.len()
                invariant
                    i <= self.categories@.len(),
                    names@.len() == i,
                    i > 0 ==> names@[0]@ == self.categories@[0].name@,
                decreases self.categories@.len() - i,
            {
                names.push(self.categories[i].name.clone());
                i = i + 1;
            }
        }
        let fallback = if names.len() > 0 {
            names[0].clone()
        } else {
            String::from_str("General")
        };
        let form = match target {
            Some((c, i)) => {
                if c >= self.categories.len() || i >= self.categories[c].items.len() {
                    return;
                }
                let item = &self.categories[c].items[i];
                let mut category = self.categories[c].name.clone();
                if trim(category.as_str()).unicode_len() == 0 {
                    category = fallback.clone();
                }
                ItemFormState::new(
                    target,
                    item.label.clone(),
                    item.cmd.clone(),
                    item.info.clone(),
                    category,
                    fallback,
                    item.pause,
                    names,
                )
            },
            None => ItemFormState::new(
                None,
                String::new(),
                String::new(),
                String::new(),
                fallback.clone(),
                fallback,
                false,
                names,
            ),
        };
        self.active_popup = Some(PopupState::ItemForm(form));
    }

    /// Opens the category form for category `index`, if it exists.
    pub fn open_category_form(&mut self, index: usize)
        ensures
            index < old(self).categories@.len() ==> (category_form_of(final(self)) matches Some(v)
                && v.category_index == index && v.name == old(self).categories@[index as int].name@),
            final(self).categories == old(self).categories,
    {
        if index < self.categories.len() {
            let presets = self.available_color_presets();
            let form = CategoryFormState::new(index, &self.categories[index], presets);
            self.active_popup = Some(PopupState::CategoryForm(form));
        }
    }

    /// Opens the settings form with `focus` focused.
    pub fn prompt_settings(&mut self, focus: SettingsField)
        ensures
            settings_form_of(final(self)) matches Some(v) && v.selected_field == focus,
            final(self).categories == old(self).categories,
    {
        let options = self.theme_options();
        let is_custom = str_eq(self.theme_key.as_str(), "custom");
        let form = SettingsFormState::new(
            self.title.clone(),
            self.column_count,
            self.theme_key.as_str(),
            options,
            focus,
            &self.theme,
            is_custom,
        );
        self.active_popup = Some(PopupState::SettingsForm(form));
    }

    /// Starts a queued action: opens the form it asks for.
    pub fn execute_deferred_action(&mut self, action: DeferredAction)
        ensures
            final(self).categories == old(self).categories,
            action is NewItem ==> item_form_of(final(self)) is Some,
            action is Settings ==> settings_form_of(final(self)) is Some,
            (action matches DeferredAction::EditCategory { category_index } && category_index
                < old(self).categories@.len()) ==> category_form_of(final(self)) is Some,
            (action matches DeferredAction::EditItem { category_index, item_index } && category_index
                < old(self).categories@.len() && item_index < old(self).categories@[category_index as int].items@.len())
                ==> item_form_of(final(self)) is Some,
    {
        match action {
            DeferredAction::NewItem => self.open_item_form(None),
            DeferredAction::EditItem { category_index, item_index } => self.open_item_form(
                Some((category_index, item_index)),
            ),
            DeferredAction::EditCategory { category_index } => self.open_category_form(
                category_index,
            ),
            DeferredAction::Settings(focus) => self.prompt_settings(focus),
        }
    }

    /// Closes the open form with a status message.
    pub fn close_popup(&mut self, message: String)
        ensures
            *final(self) == (AppState { active_popup: None, status_message: Some(message), ..*old(self) }),
    {
        self.active_popup = None;
        self.status_message = Some(message);
    }

    fn set_form_error(&mut self, err: String)
        ensures
            final(self).categories == old(self).categories,
            final(self).column_count == old(self).column_count,
            final(self).custom_colors == old(self).custom_colors,
            final(self).saved_themes == old(self).saved_themes,
    {
        match &mut self.active_popup {
            Some(PopupState::ItemForm(form)) => form.error = Some(err),
            Some(PopupState::CategoryForm(form)) => form.error = Some(err),
            Some(PopupState::SettingsForm(form)) => form.error = Some(err),
            _ => {},
        }
    }

    /// Deletes saved theme `index` and shows the new list in an open
    /// settings form, selecting the active theme.
    pub fn handle_saved_theme_deletion(&mut self, index: usize)
        requires
            1 <= old(self).column_count <= 6,
        ensures
            index < old(self).saved_themes@.len() ==> final(self).saved_themes@ == old(self).saved_themes@.remove(index as int)
                && final(self).theme_key@ == crate::controller::key_after_delete(old(self).theme_key@, index as nat),
            final(self).categories == old(self).categories,
    {
        self.delete_saved_theme(index);
        let options = self.theme_options();
        let ghost views = crate::controller::options_spec(self.saved_themes@, self.theme_key@, self.theme);
        let position = match crate::controller::find_option(&options, self.theme_key.as_str(), Ghost(views)) {
            Some(i) => i,
            None => 0,
        };
        match &mut self.active_popup {
            Some(PopupState::SettingsForm(form)) => {
                form.theme_options = options;
                form.theme_index = position;
                form.selected_field = SettingsField::Theme;
                form.populate_custom_fields_from_selection();
            },
            _ => {},
        }
        self.menu_dirty = true;
        self.set_status(String::from_str("Custom theme deleted"));
    }

    /// Handles a key: the open form gets it first; otherwise it navigates,
    /// toggles, runs, or queues a form.
    pub fn handle_key(&mut self, key: KeyInput)
        requires
            1 <= old(self).column_count <= 6,
            old(self).categories@.len() + 2 < usize::MAX,
            old(self).custom_colors@.len() + 2 < usize::MAX,
            old(self).saved_themes@.len() + 10 < usize::MAX,
        ensures
            old(self).active_popup is Some ==> popup_key_effect(old(self), final(self), key),
            old(self).active_popup is Some && key.code == KeyCode::Esc ==> data_unchanged(old(self), final(self)),
            old(self).active_popup is None ==> {
                &&& (key.code == KeyCode::Esc || key.code == KeyCode::Char('q')) ==> final(self).should_quit
                &&& (key.code == KeyCode::Up || key.code == KeyCode::Char('k')) ==> final(self).current_index
                    == moved_up(old(self).current_index, old(self).display_entries@.len())
                &&& (key.code == KeyCode::Down || key.code == KeyCode::Char('j')) ==> final(self).current_index
                    == moved_down(old(self).current_index, old(self).display_entries@.len())
                &&& (key.code == KeyCode::Char('n') ==> (final(self).pending_action matches Some(DeferredAction::NewItem)))
                &&& key.code == KeyCode::Char('s') ==> final(self).pending_action == Some(
                    DeferredAction::Settings(SettingsField::Title),
                )
                &&& key.code == KeyCode::Char('t') ==> final(self).pending_action == Some(
                    DeferredAction::Settings(if key.ctrl { SettingsField::Title } else { SettingsField::Theme }),
                )
                &&& key.code == KeyCode::Char('r') ==> final(self).reload_requested
                &&& key.code == KeyCode::Char('b') && key.ctrl ==> final(self).scan_requested
                &&& key.code == KeyCode::Char('i') ==> final(self).categories == old(self).categories
            },
    {
        if self.active_popup.is_some() {
            self.handle_popup_key(key);
            return;
        }
        match key.code {
            KeyCode::Char('q') | KeyCode::Esc => self.should_quit = true,
            KeyCode::Up | KeyCode::Char('k') => self.move_selection_up(),
            KeyCode::Down | KeyCode::Char('j') => self.move_selection_down(),
            KeyCode::Enter => self.activate_current_entry(),
            KeyCode::Char(' ') => self.toggle_category(),
            KeyCode::Char('r') => self.reload_requested = true,
            KeyCode::Char('i') => self.show_info_popup(),
            KeyCode::Char('n') => self.queue_new_item(),
            KeyCode::Char('e') => self.queue_edit_current(),
            KeyCode::Char('d') => self.delete_selected_item(),
            KeyCode::Char('s') => self.queue_settings_with_focus(SettingsField::Title),
            KeyCode::Char('t') => {
                if key.ctrl {
                    self.queue_settings_with_focus(SettingsField::Title);
                } else {
                    self.queue_settings_with_focus(SettingsField::Theme);
                }
            },
            KeyCode::Char('b') => {
                if key.ctrl {
                    self.scan_requested = true;
                }
            },
            _ => {},
        }
    }

    fn handle_popup_key(&mut self, key: KeyInput)
        requires
            1 <= old(self).column_count <= 6,
            old(self).categories@.len() + 2 < usize::MAX,
            old(self).custom_colors@.len() + 2 < usize::MAX,
            old(self).saved_themes@.len() + 10 < usize::MAX,
        ensures
            popup_key_effect(old(self), final(self), key),
            key.code == KeyCode::Esc ==> data_unchanged(old(self), final(self)),
    {
        let mut close = false;
        let mut item_submit = None;
        let mut category_submit = None;
        let mut delete_preset = None;
        let mut settings_submit = None;
        let mut delete_theme = None;
        let mut cancel_message = None;
        match &mut self.active_popup {
            Some(PopupState::Info(_)) | Some(PopupState::Message(_)) => {
                if key.code == KeyCode::Esc || key.code == KeyCode::Enter {
                    close = true;
                }
            },
            Some(PopupState::ItemForm(form)) => match form.handle_key(key) {
                ItemFormKeyResult::Continue => {},
                ItemFormKeyResult::Cancel => {
                    cancel_message = Some(String::from_str("Item edit cancelled"));
                },
                ItemFormKeyResult::Submit(data) => item_submit = Some(data),
            },
            Some(PopupState::CategoryForm(form)) => match form.handle_key(key) {
                FormKeyResult::Continue => {},
                FormKeyResult::Cancel => {
                    cancel_message = Some(String::from_str("Category edit cancelled"));
                },
                FormKeyResult::Submit(data) => category_submit = Some(data),
                FormKeyResult::DeletePreset(index) => delete_preset = Some(index),
            },
            Some(PopupState::SettingsForm(form)) => match form.handle_key(key) {
                SettingsFormKeyResult::Continue => {},
                SettingsFormKeyResult::Cancel => {
                    cancel_message = Some(String::from_str("Settings update cancelled"));
                },
                SettingsFormKeyResult::Submit(data) => settings_submit = Some(data),
                SettingsFormKeyResult::DeleteSavedTheme(index) => delete_theme = Some(index),
            },
            None => {},
        }
        if close {
            self.active_popup = None;
        }
        if let Some(msg) = cancel_message {
            self.close_popup(msg);
        }
        if let Some(data) = item_submit {
            match self.apply_item_form_input(data) {
                Ok(msg) => self.close_popup(msg),
                Err(e) => self.set_form_error(e),
            }
        } else if let Some(data) = category_submit {
            match self.process_category_submission(data) {
                Ok(msg) => self.close_popup(msg),
                Err(e) => self.set_form_error(e),
            }
        } else if let Some(index) = delete_preset {
            self.delete_preset_from_form(index);
        } else if let Some(data) = settings_submit {
            match self.apply_settings_form_input(data) {
                Ok(msg) => self.close_popup(msg),
                Err(e) => self.set_form_error(e),
            }
        } else if let Some(index) = delete_theme {
            self.handle_saved_theme_deletion(index);
        }
    }

    /// Deletes user color pair `index` from the open category form.
    pub fn delete_preset_from_form(&mut self, index: usize)
        ensures
            index < old(self).custom_colors@.len() ==> final(self).custom_colors@ == old(self).custom_colors@.remove(index as int),
            index < old(self).custom_colors@.len() && category_form_of(old(self)) is Some ==> {
                let v = category_form_of(old(self))->Some_0;
                category_form_of(final(self)) matches Some(g) && g.presets.len() >= 5
                    && g.selected_field == CategoryField::Palette && g.palette_index == (if v.palette_index
                    < g.presets.len() {
                    v.palette_index
                } else {
                    (g.presets.len() - 1) as usize
                }) && g == with_palette_applied(g)
            },
            final(self).categories == old(self).categories,
    {
        match self.delete_custom_category_preset(index) {
            Ok(msg) => {
                let presets = self.available_color_presets();
                self.refresh_category_form_presets(presets, false);
                self.set_status(msg);
            },
            Err(e) => self.set_form_error(e),
        }
    }

    /// Resolves a click inside the open form.
    pub fn detect_popup_click(&self, click: MouseClick, screen: &ScreenLayout) -> (r: Option<PopupClickAction>)
        ensures
            !click.left_down ==> r is None,
            click.left_down ==> match self.active_popup {
                Some(PopupState::CategoryForm(f)) => if f.color_presets@.len() + 20 < usize::MAX {
                    let del = custom_preset_index_spec(f@) is Some;
                    let (segs, total) = bar_layout(category_bar_widths(del), category_bar_widths(del).len() as int);
                    r == match category_click_spec(
                        category_layout_of(f.color_presets@.len(), f.error is Some),
                        segs,
                        category_bar_actions(del),
                        total,
                        screen.popup_bar,
                        screen.popup_content,
                        click.col,
                        click.row,
                    ) {
                        Some(c) => Some(PopupClickAction::Category(c)),
                        None => None,
                    }
                } else {
                    r is None
                },
                Some(PopupState::SettingsForm(f)) => if f.theme_options@.len() + 20 < usize::MAX {
                    let del = deletable_index_spec(f@) is Some;
                    let (segs, total) = bar_layout(settings_bar_widths(del), settings_bar_widths(del).len() as int);
                    r == match settings_click_spec(
                        settings_layout_of(f.theme_options@.len(), f.error is Some),
                        segs,
                        settings_bar_actions(del),
                        total,
                        screen.popup_bar,
                        screen.popup_content,
                        click.col,
                        click.row,
                    ) {
                        Some(c) => Some(PopupClickAction::Settings(c)),
                        None => None,
                    }
                } else {
                    r is None
                },
                _ => r is None,
            },
    {
        if !click.left_down {
            return None;
        }
        match &self.active_popup {
            Some(PopupState::CategoryForm(form)) => {
                if form.color_presets.len() >= usize::MAX - 20 {
                    return None;
                }
                let layout = category_form_layout(form);
                let (entries, actions) = category_bar(form.has_deletable_preset());
                let (segs, total) = bar_segments(&entries);
                match category_click(&layout, &segs, &actions, total, screen.popup_bar, screen.popup_content, click.col, click.row) {
                    Some(c) => Some(PopupClickAction::Category(c)),
                    None => None,
                }
            },
            Some(PopupState::SettingsForm(form)) => {
                if form.theme_options.len() >= usize::MAX - 20 {
                    return None;
                }
                let layout = settings_form_layout(form);
                let (entries, actions) = settings_bar(form.current_deletable_theme_index().is_some());
                let (segs, total) = bar_segments(&entries);
                match settings_click(&layout, &segs, &actions, total, screen.popup_bar, screen.popup_content, click.col, click.row) {
                    Some(c) => Some(PopupClickAction::Settings(c)),
                    None => None,
                }
            },
            _ => None,
        }
    }

    /// Carries out a click inside the open form, as the matching key would.
    pub fn apply_popup_click(&mut self, action: PopupClickAction)
        requires
            1 <= old(self).column_count <= 6,
            old(self).categories@.len() + 2 < usize::MAX,
            old(self).custom_colors@.len() + 2 < usize::MAX,
            old(self).saved_themes@.len() + 10 < usize::MAX,
        ensures
            popup_click_effect(old(self), final(self), action),
            (action matches PopupClickAction::Category(CategoryFormClick::SelectField(_))
                || action matches PopupClickAction::Category(CategoryFormClick::SelectPalette(_))
                || action matches PopupClickAction::Settings(SettingsFormClick::SelectField(_))
                || action matches PopupClickAction::Settings(SettingsFormClick::SelectTheme(_)))
                ==> data_unchanged(old(self), final(self)),
    {
        let mut submit_category = None;
        let mut delete_preset = None;
        let mut submit_settings = None;
        let mut delete_theme = None;
        let mut cancel_message = None;
        match action {
            PopupClickAction::Category(click) => match &mut self.active_popup {
                Some(PopupState::CategoryForm(form)) => match click {
                    CategoryFormClick::SelectField(field) => form.selected_field = field,
                    CategoryFormClick::SelectPalette(index) => {
                        if index < form.color_presets.len() {
                            form.selected_field = CategoryField::Palette;
                            form.palette_index = index;
                            form.apply_selected_palette();
                        }
                    },
                    CategoryFormClick::Shortcut(a) => match a {
                        CategoryShortcutAction::NextField => {
                            form.error = None;
                            form.next_field();
                        },
                        CategoryShortcutAction::PreviousField => {
                            form.error = None;
                            form.previous_field();
                        },
                        CategoryShortcutAction::Submit => match form.build_submission() {
                            Ok(p) => submit_category = Some(p),
                            Err(e) => form.error = Some(e),
                        },
                        CategoryShortcutAction::Cancel => {
                            cancel_message = Some(String::from_str("Category edit cancelled"));
                        },
                        CategoryShortcutAction::PreviousPalette => {
                            form.error = None;
                            form.previous_palette();
                        },
                        CategoryShortcutAction::NextPalette => {
                            form.error = None;
                            form.next_palette();
                        },
                        CategoryShortcutAction::DeletePreset => match form.current_custom_preset_index() {
                            Some(index) => delete_preset = Some(index),
                            None => {
                                form.error = Some(String::from_str("Select a custom theme to delete"));
                            },
                        },
                    },
                },
                _ => {},
            },
            PopupClickAction::Settings(click) => match &mut self.active_popup {
                Some(PopupState::SettingsForm(form)) => match click {
                    SettingsFormClick::SelectField(field) => form.selected_field = field,
                    SettingsFormClick::SelectTheme(index) => {
                        if index < form.theme_options.len() {
                            form.selected_field = SettingsField::Theme;
                            if form.theme_index != index {
                                form.theme_index = index;
                                form.populate_custom_fields_from_selection();
                            }
                        }
                    },
                    SettingsFormClick::Shortcut(a) => match a {
                        SettingsShortcutAction::NextField => {
                            form.error = None;
                            form.next_field();
                        },
                        SettingsShortcutAction::Submit => {
                            form.error = None;
                            submit_settings = Some(form.to_input());
                        },
                        SettingsShortcutAction::Cancel => {
                            cancel_message = Some(String::from_str("Settings update cancelled"));
                        },
                        SettingsShortcutAction::PreviousTheme => {
                            form.error = None;
                            form.previous_theme();
                        },
                        SettingsShortcutAction::NextTheme => {
                            form.error = None;
                            form.next_theme();
                        },
                        SettingsShortcutAction::DeleteTheme => match form.current_deletable_theme_index() {
                            Some(index) => delete_theme = Some(index),
                            None => {
                                form.error = Some(String::from_str("Select a custom theme to delete"));
                            },
                        },
                    },
                },
                _ => {},
            },
        }
        if let Some(msg) = cancel_message {
            self.close_popup(msg);
        } else if let Some(index) = delete_preset {
            self.delete_preset_from_form(index);
        } else if let Some(payload) = submit_category {
            match self.process_category_submission(payload) {
                Ok(msg) => self.close_popup(msg),
                Err(e) => self.set_form_error(e),
            }
        } else if let Some(input) = submit_settings {
            match self.apply_settings_form_input(input) {
                Ok(msg) => self.close_popup(msg),
                Err(e) => self.set_form_error(e),
            }
        } else if let Some(index) = delete_theme {
            self.handle_saved_theme_deletion(index);
        }
    }

    /// Handles a mouse event: inside an open form it acts on the form; on
    /// the menu a left click selects the row under it and activates it; on
    /// the footer it carries out the shortcut under it.
    pub fn handle_mouse(&mut self, click: MouseClick, screen: &ScreenLayout)
        requires
            1 <= old(self).column_count <= 6,
            old(self).categories@.len() + 2 < usize::MAX,
            old(self).custom_colors@.len() + 2 < usize::MAX,
            old(self).saved_themes@.len() + 10 < usize::MAX,
        ensures
            !click.left_down ==> final(self).categories == old(self).categories,
            old(self).active_popup is None && click.left_down ==> match entry_target_spec(
                map_view(old(self).column_map@),
                screen.menu,
                screen.columns@,
                click.col,
                click.row,
            ) {
                Some(i) => i < old(self).display_entries@.len() && old(self).display_entries@[i as int] is Item
                    ==> final(self).current_index == i,
                None => screen.footer.holds(click.col, click.row) && footer_target_spec(
                    screen.footer,
                    click.col,
                ) == Some(FooterAction::Quit) ==> final(self).should_quit,
            },
    {
        if self.active_popup.is_some() {
            if let Some(action) = self.detect_popup_click(click, screen) {
                self.apply_popup_click(action);
            }
            return;
        }
        if !click.left_down {
            return;
        }
        match entry_at_position(&self.column_map, screen.menu, &screen.columns, click.col, click.row) {
            Some(index) => {
                if index < self.display_entries.len() {
                    self.current_index = index;
                    match self.display_entries[index] {
                        DisplayEntry::Category { .. } => self.toggle_category(),
                        DisplayEntry::Item { .. } => self.prepare_command(),
                    }
                }
                return;
            },
            None => {},
        }
        let footer = screen.footer;
        if footer.contains(click.col, click.row) {
            if let Some(action) = footer_action_at(footer, click.col) {
                self.execute_footer_action(action);
            }
        }
    }
}

} // verus!
