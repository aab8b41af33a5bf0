//! The form that creates or edits a menu item.
use crate::keys::{apply_edit, edit_for_key, edited, key_edit, KeyCode, KeyInput, TextEdit};
use vstd::prelude::*;

verus! {

/// The fields of the item form, in focus order.
#[derive(Clone, Copy, Debug, PartialEq, Eq, Structural)]
pub enum ItemField {
    Label,
    Command,
    Description,
    Category,
    Pause,
}

pub open spec fn next_item_field(f: ItemField) -> ItemField {
    match f {
        ItemField::Label => ItemField::Command,
        ItemField::Command => ItemField::Description,
        ItemField::Description => ItemField::Category,
        ItemField::Category => ItemField::Pause,
        ItemField::Pause => ItemField::Label,
    }
}

pub open spec fn previous_item_field(f: ItemField) -> ItemField {
    match f {
        ItemField::Label => ItemField::Pause,
        ItemField::Command => ItemField::Label,
        ItemField::Description => ItemField::Command,
        ItemField::Category => ItemField::Description,
        ItemField::Pause => ItemField::Category,
    }
}

/// Moving focus forward then back, or back then forward, returns to the
/// field it started from.
pub proof fn lemma_item_field_cycle(f: ItemField)
    ensures
        previous_item_field(next_item_field(f)) == f,
        next_item_field(previous_item_field(f)) == f,
{
}

/// What an item form submits. `target` is the `(category, item)` being
/// edited, or `None` for a new item.
pub struct ItemFormInput {
    pub target: Option<(usize, usize)>,
    pub label: String,
    pub command: String,
    pub info: String,
    pub category: String,
    pub fallback_category: String,
    pub pause: bool,
}

pub struct ItemFormState {
    pub target: Option<(usize, usize)>,
    pub label: String,
    pub command: String,
    pub info: String,
    pub category: String,
    pub fallback_category: String,
    pub pause: bool,
    pub available_categories: Vec<String>,
    pub selected_field: ItemField,
    pub error: Option<String>,
    pub mode_label: &'static str,
}

/// The mathematical content of an item form.
pub struct ItemFormView {
    pub target: Option<(usize, usize)>,
    pub label: Seq<char>,
    pub command: Seq<char>,
    pub info: Seq<char>,
    pub category: Seq<char>,
    pub fallback_category: Seq<char>,
    pub pause: bool,
    pub available_categories: Seq<String>,
    pub selected_field: ItemField,
    pub has_error: bool,
    pub mode_label: Seq<char>,
}

impl View for ItemFormState {
    type V = ItemFormView;

    open spec fn view(&self) -> ItemFormView {
        ItemFormView {
            target: self.target,
            label: self.label@,
            command: self.command@,
            info: self.info@,
            category: self.category@,
            fallback_category: self.fallback_category@,
            pause: self.pause,
            available_categories: self.available_categories@,
            selected_field: self.selected_field,
            has_error: self.error is Some,
            mode_label: self.mode_label@,
        }
    }
}

/// The form after an edit to field `f`; the pause toggle has no text.
pub open spec fn item_edited(v: ItemFormView, f: ItemField, e: TextEdit) -> ItemFormView {
    match f {
        ItemField::Label => ItemFormView { label: edited(v.label, e), ..v },
        ItemField::Command => ItemFormView { command: edited(v.command, e), ..v },
        ItemField::Description => ItemFormView { info: edited(v.info, e), ..v },
        ItemField::Category => ItemFormView { category: edited(v.category, e), ..v },
        ItemField::Pause => v,
    }
}

/// The result of a key press in the item form.
pub enum ItemFormKeyResult {
    Continue,
    Cancel,
    Submit(ItemFormInput),
}

/// The input holds the form's values.
pub open spec fn input_of(i: ItemFormInput, v: ItemFormView) -> bool {
    &&& i.target == v.target
    &&& i.label@ == v.label
    &&& i.command@ == v.command
    &&& i.info@ == v.info
    &&& i.category@ == v.category
    &&& i.fallback_category@ == v.fallback_category
    &&& i.pause == v.pause
}

/// The form after a key press.
pub open spec fn item_key_step(v: ItemFormView, key: KeyInput) -> ItemFormView {
    let v = ItemFormView { has_error: false, ..v };
    match key.code {
        KeyCode::Esc => v,
        KeyCode::Enter => v,
        KeyCode::Tab | KeyCode::Down => ItemFormView {
            selected_field: next_item_field(v.selected_field),
            ..v
        },
        KeyCode::BackTab | KeyCode::Up => ItemFormView {
            selected_field: previous_item_field(v.selected_field),
            ..v
        },
        KeyCode::Char(' ') if v.selected_field == ItemField::Pause => ItemFormView {
            pause: !v.pause,
            ..v
        },
        _ => match key_edit(key) {
            Some(e) => item_edited(v, v.selected_field, e),
            None => v,
        },
    }
}

impl ItemFormState {
    /// A form with the given values, focused on the label; `target` tells an
    /// edit from a new item.
    pub fn new(
        target: Option<(usize, usize)>,
        label: String,
        command: String,
        info: String,
        category: String,
        fallback_category: String,
        pause: bool,
        available_categories: Vec<String>,
    ) -> (r: ItemFormState)
        ensures
            r@ == (ItemFormView {
                target,
                label: label@,
                command: command@,
                info: info@,
                category: category@,
                fallback_category: fallback_category@,
                pause,
                available_categories: available_categories@,
                selected_field: ItemField::Label,
                has_error: false,
                mode_label: if target is Some {
                    "Edit Menu Item"@
                } else {
                    "New Menu Item"@
                },
            }),
    {
        let mode_label = if target.is_some() {
            "Edit Menu Item"
        } else {
            "New Menu Item"
        };
        ItemFormState {
            target,
            label,
            command,
            info,
            category,
            fallback_category,
            pause,
            available_categories,
            selected_field: ItemField::Label,
            error: None,
            mode_label,
        }
    }

    /// The values the form would submit.
    pub fn to_input(&self) -> (r: ItemFormInput)
        ensures
            input_of(r, self@),
    {
        ItemFormInput {
            target: self.target,
            label: self.label.clone(),
            command: self.command.clone(),
            info: self.info.clone(),
            category: self.category.clone(),
            fallback_category: self.fallback_category.clone(),
            pause: self.pause,
        }
    }

    pub fn next_field(&mut self)
        ensures
            final(self)@ == (ItemFormView {
                selected_field: next_item_field(old(self)@.selected_field),
                ..old(self)@
            }),
    {
        self.selected_field =
        match self.selected_field {
            ItemField::Label => ItemField::Command,
            ItemField::Command => ItemField::Description,
            ItemField::Description => ItemField::Category,
            ItemField::Category => ItemField::Pause,
            ItemField::Pause => ItemField::Label,
        };
    }

    pub fn previous_field(&mut self)
        ensures
            final(self)@ == (ItemFormView {
                selected_field: previous_item_field(old(self)@.selected_field),
                ..old(self)@
            }),
    {
        self.selected_field =
        match self.selected_field {
            ItemField::Label => ItemField::Pause,
            ItemField::Command => ItemField::Label,
            ItemField::Description => ItemField::Command,
            ItemField::Category => ItemField::Description,
            ItemField::Pause => ItemField::Category,
        };
    }

    /// The focused text field, to edit in place; the pause toggle has none.
    pub fn active_value_mut(&mut self) -> (r: Option<&mut String>)
        ensures
            old(self).selected_field == ItemField::Pause ==> r is None && *final(self) == *old(self),
            old(self).selected_field == ItemField::Label ==> r is Some && *r->Some_0 == old(self).label
                && *final(self) == (ItemFormState { label: *final(r->Some_0), ..*old(self) }),
            old(self).selected_field == ItemField::Command ==> r is Some && *r->Some_0 == old(self).command
                && *final(self) == (ItemFormState { command: *final(r->Some_0), ..*old(self) }),
            old(self).selected_field == ItemField::Description ==> r is Some && *r->Some_0 == old(self).info
                && *final(self) == (ItemFormState { info: *final(r->Some_0), ..*old(self) }),
            old(self).selected_field == ItemField::Category ==> r is Some && *r->Some_0 == old(self).category
                && *final(self) == (ItemFormState { category: *final(r->Some_0), ..*old(self) }),
    {
        match self.selected_field {
            ItemField::Label => Some(&mut self.label),
            ItemField::Command => Some(&mut self.command),
            ItemField::Description => Some(&mut self.info),
            ItemField::Category => Some(&mut self.category),
            ItemField::Pause => None,
        }
    }

    /// Applies an edit to the focused text field; the pause toggle takes no
    /// text.
    pub fn edit_active(&mut self, e: TextEdit)
        ensures
            final(self)@ == item_edited(old(self)@, old(self)@.selected_field, e),
    {
        if let Some(value) = self.active_value_mut() {
            apply_edit(value, e);
        }
    }

    /// Handles one key: Escape cancels, Enter submits the values, Tab/Down
    /// and BackTab/Up move focus, space flips the pause toggle when it has
    /// focus, and other keys edit the focused text field.
    pub fn handle_key(&mut self, key: KeyInput) -> (r: ItemFormKeyResult)
        ensures
            final(self)@ == item_key_step(old(self)@, key),
            match r {
                ItemFormKeyResult::Cancel => key.code == KeyCode::Esc,
                ItemFormKeyResult::Submit(i) => key.code == KeyCode::Enter && input_of(
                    i,
                    final(self)@,
                ),
                ItemFormKeyResult::Continue => key.code != KeyCode::Esc && key.code
                    != KeyCode::Enter,
            },
    {
        self.error = None;
        match key.code {
            KeyCode::Esc => ItemFormKeyResult::Cancel,
            KeyCode::Enter => ItemFormKeyResult::Submit(self.to_input()),
            KeyCode::Tab | KeyCode::Down => {
                self.next_field();
                ItemFormKeyResult::Continue
            },
            KeyCode::BackTab | KeyCode::Up => {
                self.previous_field();
                ItemFormKeyResult::Continue
            },
            _ => {
                if key.code == KeyCode::Char(' ') && self.selected_field == ItemField::Pause {
                    self.pause = !self.pause;
                } else {
                    match edit_for_key(key) {
                        Some(e) => self.edit_active(e),
                        None => {},
                    }
                }
                ItemFormKeyResult::Continue
            },
        }
    }
}

} // verus!
