//! Key events as the forms and the controller read them, and the edits a key
//! makes to a text field.
use crate::text::{pop_char, push_char};
use vstd::prelude::*;

verus! {

/// The key that was pressed.
#[derive(Clone, Copy, Debug, PartialEq, Eq, Structural)]
pub enum KeyCode {
    Esc,
    Enter,
    Tab,
    BackTab,
    Up,
    Down,
    Left,
    Right,
    Backspace,
    Delete,
    Char(char),
    Other,
}

/// A key press with the state of the Control modifier.
#[derive(Clone, Copy, Debug, PartialEq, Eq, Structural)]
pub struct KeyInput {
    pub code: KeyCode,
    pub ctrl: bool,
}

/// A change to a text field.
#[derive(Clone, Copy, Debug, PartialEq, Eq, Structural)]
pub enum TextEdit {
    Push(char),
    Pop,
    Clear,
}

/// The text after an edit.
pub open spec fn edited(t: Seq<char>, e: TextEdit) -> Seq<char> {
    match e {
        TextEdit::Push(c) => t.push(c),
        TextEdit::Pop => if t.len() > 0 {
            t.drop_last()
        } else {
            t
        },
        TextEdit::Clear => Seq::empty(),
    }
}

/// The edit that a key makes to a focused text field: backspace removes the
/// last character, delete clears, a character without Control is typed.
pub open spec fn key_edit(key: KeyInput) -> Option<TextEdit> {
    match key.code {
        KeyCode::Backspace => Some(TextEdit::Pop),
        KeyCode::Delete => Some(TextEdit::Clear),
        KeyCode::Char(c) => if key.ctrl {
            None
        } else {
            Some(TextEdit::Push(c))
        },
        _ => None,
    }
}

pub fn edit_for_key(key: KeyInput) -> (r: Option<TextEdit>)
    ensures
        r == key_edit(key),
{
    match key.code {
        KeyCode::Backspace => Some(TextEdit::Pop),
        KeyCode::Delete => Some(TextEdit::Clear),
        KeyCode::Char(c) => if key.ctrl {
            None
        } else {
            Some(TextEdit::Push(c))
        },
        _ => None,
    }
}

/// Applies an edit to a text field.
pub fn apply_edit(s: &mut String, e: TextEdit)
    ensures
        final(s)@ == edited(old(s)@, e),
{
    match e {
        TextEdit::Push(c) => push_char(s, c),
        TextEdit::Pop => {
            let _ = pop_char(s);
        },
        TextEdit::Clear => {
            *s = String::new();
        },
    }
}

} // verus!
