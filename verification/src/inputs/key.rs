//! Key events as the terminal reports them, and the chords they stand for.

use vstd::prelude::*;
use vstd::string::StringExecFns;

use crate::utils::text::{decimal, push_decimal};

verus! {

/// No modifier at all.
pub const NONE: u8 = 0;

/// Shift, as a bit of [`KeyModifiers`].
pub const SHIFT: u8 = 1;

/// Control, as a bit of [`KeyModifiers`].
pub const CONTROL: u8 = 2;

/// Alt, as a bit of [`KeyModifiers`].
pub const ALT: u8 = 4;

/// The modifier keys held during a key event, one bit each.
#[derive(Clone, Copy, Debug, PartialEq, Eq, Structural)]
pub struct KeyModifiers {
    pub bits: u8,
}

/// What the keyboard reported beside the key, one bit each; empty unless the
/// terminal was asked to report it.
#[derive(Clone, Copy, Debug, PartialEq, Eq, Structural)]
pub struct KeyEventState {
    pub bits: u8,
}

/// What happened to the key.
#[derive(Clone, Copy, Debug, PartialEq, Eq, Structural)]
pub enum KeyEventKind {
    Press,
    Repeat,
    Release,
}

/// The key of a key event.
#[derive(Clone, Copy, Debug, PartialEq, Eq, Structural)]
pub enum KeyCode {
    Backspace,
    Enter,
    Left,
    Right,
    Up,
    Down,
    Home,
    End,
    PageUp,
    PageDown,
    Tab,
    BackTab,
    Delete,
    Insert,
    F(u8),
    Char(char),
    Null,
    Esc,
    CapsLock,
    ScrollLock,
    NumLock,
    PrintScreen,
    Pause,
    Menu,
    KeypadBegin,
    /// A media key, whichever.
    Media,
    /// A modifier key on its own, whichever.
    Modifier,
}

/// One key event: a key, the modifiers held with it, its kind and the
/// keyboard's state. Two key events are the same chord when all four agree.
#[derive(Clone, Copy, Debug, PartialEq, Eq, Structural)]
pub struct KeyEvent {
    pub code: KeyCode,
    pub modifiers: KeyModifiers,
    pub kind: KeyEventKind,
    pub state: KeyEventState,
}

/// A chord: a key with at most one of Control and Alt.
#[derive(Clone, Copy, Debug, PartialEq, Eq, Hash, Structural)]
pub enum Key {
    /// Both Enter (or Return) and numpad Enter
    Enter,
    Tab,
    Backspace,
    Esc,
    Left,
    Right,
    Up,
    Down,
    Ins,
    Delete,
    Home,
    End,
    PageUp,
    PageDown,
    F(u8),
    Char(char),
    Ctrl(char),
    Alt(char),
    Unknown,
}

impl Key {
    /// Whether the chord is one of those that leave a program: Ctrl+c, `q` or Esc.
    pub open spec fn spec_is_exit(self) -> bool {
        self == Key::Ctrl('c') || self == Key::Char('q') || self == Key::Esc
    }

    /// Whether the chord is one of those that leave a program.
    pub fn is_exit(&self) -> (exit: bool)
        ensures
            exit == self.spec_is_exit(),
    {
        match *self {
            Key::Ctrl(c) => c == 'c',
            Key::Char(c) => c == 'q',
            Key::Esc => true,
            _ => false,
        }
    }

    /// The function key with the given number.
    pub fn from_f(n: u8) -> (key: Key)
        requires
            n <= 12,
        ensures
            key == Key::F(n),
    {
        Key::F(n)
    }
}

impl KeyEvent {
    /// A press of `code` with `modifiers` held, the keyboard's state empty.
    pub open spec fn pressed(code: KeyCode, modifiers: u8) -> KeyEvent {
        KeyEvent {
            code,
            modifiers: KeyModifiers { bits: modifiers },
            kind: KeyEventKind::Press,
            state: KeyEventState { bits: 0 },
        }
    }

    /// A press of `code` with `modifiers` held, the keyboard's state empty.
    pub fn new(code: KeyCode, modifiers: KeyModifiers) -> (event: KeyEvent)
        ensures
            event == KeyEvent::pressed(code, modifiers.bits),
    {
        KeyEvent { code, modifiers, kind: KeyEventKind::Press, state: KeyEventState { bits: 0 } }
    }
}

/// The chord that a key event stands for.
///
/// A named key stands for itself whatever modifiers are held. A character
/// is an Alt chord when Alt alone is held, a Control chord when Control
/// alone is held, and a plain character otherwise. Keys without a chord of
/// their own are `Unknown`.
pub open spec fn chord_of(event: KeyEvent) -> Key {
    match event.code {
        KeyCode::Esc => Key::Esc,
        KeyCode::Backspace => Key::Backspace,
        KeyCode::Left => Key::Left,
        KeyCode::Right => Key::Right,
        KeyCode::Up => Key::Up,
        KeyCode::Down => Key::Down,
        KeyCode::Home => Key::Home,
        KeyCode::End => Key::End,
        KeyCode::PageUp => Key::PageUp,
        KeyCode::PageDown => Key::PageDown,
        KeyCode::Delete => Key::Delete,
        KeyCode::Insert => Key::Ins,
        KeyCode::F(n) => Key::F(n),
        KeyCode::Enter => Key::Enter,
        KeyCode::Tab => Key::Tab,
        KeyCode::Char(c) => if event.modifiers.bits == ALT {
            Key::Alt(c)
        } else if event.modifiers.bits == CONTROL {
            Key::Ctrl(c)
        } else {
            Key::Char(c)
        },
        _ => Key::Unknown,
    }
}

/// Whether a key event has a chord: every event but that of a function key
/// numbered above 12.
pub open spec fn has_chord(event: KeyEvent) -> bool {
    event.code matches KeyCode::F(n) ==> n <= 12
}

impl Key {
    /// The chord that `event` stands for.
    pub fn from_event(event: KeyEvent) -> (key: Key)
        requires
            has_chord(event),
        ensures
            key == chord_of(event),
    {
        match event.code {
            KeyCode::Esc => Key::Esc,
            KeyCode::Backspace => Key::Backspace,
            KeyCode::Left => Key::Left,
            KeyCode::Right => Key::Right,
            KeyCode::Up => Key::Up,
            KeyCode::Down => Key::Down,
            KeyCode::Home => Key::Home,
            KeyCode::End => Key::End,
            KeyCode::PageUp => Key::PageUp,
            KeyCode::PageDown => Key::PageDown,
            KeyCode::Delete => Key::Delete,
            KeyCode::Insert => Key::Ins,
            KeyCode::F(n) => Key::from_f(n),
            KeyCode::Enter => Key::Enter,
            KeyCode::Tab => Key::Tab,
            KeyCode::Char(c) => {
                if event.modifiers.bits == ALT {
                    Key::Alt(c)
                } else if event.modifiers.bits == CONTROL {
                    Key::Ctrl(c)
                } else {
                    Key::Char(c)
                }
            },
            _ => Key::Unknown,
        }
    }
}

/// The name of a chord that is neither a character nor a function key.
pub open spec fn named_key_text(key: Key) -> Seq<char> {
    match key {
        Key::Enter => "Enter"@,
        Key::Tab => "Tab"@,
        Key::Backspace => "Backspace"@,
        Key::Esc => "Esc"@,
        Key::Left => "Left"@,
        Key::Right => "Right"@,
        Key::Up => "Up"@,
        Key::Down => "Down"@,
        Key::Ins => "Ins"@,
        Key::Delete => "Delete"@,
        Key::Home => "Home"@,
        Key::End => "End"@,
        Key::PageUp => "PageUp"@,
        Key::PageDown => "PageDown"@,
        _ => "Unknown"@,
    }
}

/// How a chord is shown to the user: between angle brackets, a character
/// as itself with `Ctrl+` or `Alt+` before it, the space bar as `Space`, a
/// function key as `F(n)`, any other key by its name.
pub open spec fn key_text(key: Key) -> Seq<char> {
    match key {
        Key::Alt(c) => if c == ' ' {
            "<Alt+Space>"@
        } else {
            "<Alt+"@.push(c) + ">"@
        },
        Key::Ctrl(c) => if c == ' ' {
            "<Ctrl+Space>"@
        } else {
            "<Ctrl+"@.push(c) + ">"@
        },
        Key::Char(c) => if c == ' ' {
            "<Space>"@
        } else {
            "<"@.push(c) + ">"@
        },
        Key::F(n) => "<F("@ + decimal(n as nat) + ")>"@,
        _ => "<"@ + named_key_text(key) + ">"@,
    }
}

impl Key {
    fn name(&self) -> (name: &'static str)
        ensures
            name@ == named_key_text(*self),
    {
        match *self {
            Key::Enter => "Enter",
            Key::Tab => "Tab",
            Key::Backspace => "Backspace",
            Key::Esc => "Esc",
            Key::Left => "Left",
            Key::Right => "Right",
            Key::Up => "Up",
            Key::Down => "Down",
            Key::Ins => "Ins",
            Key::Delete => "Delete",
            Key::Home => "Home",
            Key::End => "End",
            Key::PageUp => "PageUp",
            Key::PageDown => "PageDown",
            _ => "Unknown",
        }
    }

    /// The chord as it is shown to the user.
    pub fn to_string(&self) -> (text: String)
        ensures
            text@ == key_text(*self),
    {
        match *self {
            Key::Alt(c) => {
                if c == ' ' {
                    String::from_str("<Alt+Space>")
                } else {
                    let mut text = String::from_str("<Alt+");
                    text.push(c);
                    text.append(">");
                    text
                }
            },
            Key::Ctrl(c) => {
                if c == ' ' {
                    String::from_str("<Ctrl+Space>")
                } else {
                    let mut text = String::from_str("<Ctrl+");
                    text.push(c);
                    text.append(">");
                    text
                }
            },
            Key::Char(c) => {
                if c == ' ' {
                    String::from_str("<Space>")
                } else {
                    let mut text = String::from_str("<");
                    text.push(c);
                    text.append(">");
                    text
                }
            },
            Key::F(n) => {
                let mut text = String::from_str("<F(");
                push_decimal(&mut text, n as u64);
                text.append(")>");
                text
            },
            _ => {
                let mut text = String::from_str("<");
                text.append(self.name());
                text.append(">");
                text
            },
        }
    }
}

} // verus!
