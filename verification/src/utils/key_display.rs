//! How a key event is shown in the help panel.

use vstd::prelude::*;
use vstd::string::StringExecFns;

use crate::inputs::key::{KeyCode, KeyEvent, ALT, CONTROL, NONE, SHIFT};
use crate::utils::text::{decimal, push_decimal};

verus! {

/// The name of a key that is neither a character nor a function key.
pub open spec fn named_code_text(code: KeyCode) -> Seq<char> {
    match code {
        KeyCode::Backspace => "Backspace"@,
        KeyCode::Enter => "Enter"@,
        KeyCode::Left => "Left"@,
        KeyCode::Right => "Right"@,
        KeyCode::Up => "Up"@,
        KeyCode::Down => "Down"@,
        KeyCode::Home => "Home"@,
        KeyCode::End => "End"@,
        KeyCode::PageUp => "PageUp"@,
        KeyCode::PageDown => "PageDown"@,
        KeyCode::Tab => "Tab"@,
        KeyCode::BackTab => "BackTab"@,
        KeyCode::Delete => "Delete"@,
        KeyCode::Insert => "Insert"@,
        KeyCode::Esc => "Esc"@,
        KeyCode::CapsLock => "CapsLock"@,
        KeyCode::ScrollLock => "ScrollLock"@,
        KeyCode::NumLock => "NumLock"@,
        KeyCode::PrintScreen => "PrintScreen"@,
        KeyCode::Pause => "Pause"@,
        KeyCode::Menu => "Menu"@,
        KeyCode::KeypadBegin => "KeypadBegin"@,
        KeyCode::Media => "Media"@,
        KeyCode::Modifier => "Modifier"@,
        _ => "Null"@,
    }
}

/// A key as text: a character as itself, a function key as `F` and its
/// number, any other key by its name.
pub open spec fn code_text(code: KeyCode) -> Seq<char> {
    match code {
        KeyCode::Char(c) => seq![c],
        KeyCode::F(n) => "F"@ + decimal(n as nat),
        _ => named_code_text(code),
    }
}

/// The held modifiers as text: the names of Control, Alt and Shift joined
/// by `+`, empty for none, `unknown` where any other modifier is held.
pub open spec fn modifiers_text(bits: u8) -> Seq<char> {
    if bits == CONTROL {
        "ctrl"@
    } else if bits == SHIFT {
        "shift"@
    } else if bits == ALT {
        "alt"@
    } else if bits == CONTROL + SHIFT {
        "ctrl+shift"@
    } else if bits == CONTROL + ALT {
        "ctrl+alt"@
    } else if bits == SHIFT + ALT {
        "shift+alt"@
    } else if bits == CONTROL + SHIFT + ALT {
        "ctrl+alt+shift"@
    } else if bits == NONE {
        ""@
    } else {
        "unknown"@
    }
}

/// A key event as text: the key alone where no modifier is held, else the
/// modifiers, `+` and the key.
pub open spec fn key_event_text(event: KeyEvent) -> Seq<char> {
    if event.modifiers.bits == NONE {
        code_text(event.code)
    } else {
        modifiers_text(event.modifiers.bits) + "+"@ + code_text(event.code)
    }
}

/// A key event, to be shown as text.
#[derive(Clone, Copy, Debug)]
pub struct KeyEventWrapper(pub KeyEvent);

fn code_name(code: KeyCode) -> (name: &'static str)
    ensures
        name@ == named_code_text(code),
{
    match code {
        KeyCode::Backspace => "Backspace",
        KeyCode::Enter => "Enter",
        KeyCode::Left => "Left",
        KeyCode::Right => "Right",
        KeyCode::Up => "Up",
        KeyCode::Down => "Down",
        KeyCode::Home => "Home",
        KeyCode::End => "End",
        KeyCode::PageUp => "PageUp",
        KeyCode::PageDown => "PageDown",
        KeyCode::Tab => "Tab",
        KeyCode::BackTab => "BackTab",
        KeyCode::Delete => "Delete",
        KeyCode::Insert => "Insert",
        KeyCode::Esc => "Esc",
        KeyCode::CapsLock => "CapsLock",
        KeyCode::ScrollLock => "ScrollLock",
        KeyCode::NumLock => "NumLock",
        KeyCode::PrintScreen => "PrintScreen",
        KeyCode::Pause => "Pause",
        KeyCode::Menu => "Menu",
        KeyCode::KeypadBegin => "KeypadBegin",
        KeyCode::Media => "Media",
        KeyCode::Modifier => "Modifier",
        _ => "Null",
    }
}

fn modifiers_name(bits: u8) -> (name: &'static str)
    ensures
        name@ == modifiers_text(bits),
{
    if bits == CONTROL {
        "ctrl"
    } else if bits == SHIFT {
        "shift"
    } else if bits == ALT {
        "alt"
    } else if bits == CONTROL + SHIFT {
        "ctrl+shift"
    } else if bits == CONTROL + ALT {
        "ctrl+alt"
    } else if bits == SHIFT + ALT {
        "shift+alt"
    } else if bits == CONTROL + SHIFT + ALT {
        "ctrl+alt+shift"
    } else if bits == NONE {
        ""
    } else {
        "unknown"
    }
}

fn push_code(text: &mut String, code: KeyCode)
    ensures
        final(text)@ == old(text)@ + code_text(code),
{
    match code {
        KeyCode::Char(c) => {
            text.push(c);
            assert(text@ =~= old(text)@ + seq![c]);
        },
        KeyCode::F(n) => {
            text.append("F");
            push_decimal(text, n as u64);
            assert(text@ =~= old(text)@ + ("F"@ + decimal(n as nat)));
        },
        _ => {
            text.append(code_name(code));
        },
    }
}

impl KeyEventWrapper {
    /// The key event as text.
    pub fn to_string(&self) -> (text: String)
        ensures
            text@ == key_event_text(self.0),
    {
        let mut text = String::new();
        if self.0.modifiers.bits != NONE {
            text.append(modifiers_name(self.0.modifiers.bits));
            text.append("+");
        }
        push_code(&mut text, self.0.code);
        assert(text@ =~= key_event_text(self.0));
        text
    }
}

} // verus!
