//! Keyboard input as plain values.

use vstd::prelude::*;

pub mod key;

use key::{chord_of, has_chord, Key, KeyEvent, KeyEventKind};

verus! {

/// A chord together with what happened to it.
#[derive(Clone, Copy, Debug, PartialEq, Eq, Structural)]
pub enum InputEvent {
    /// The chord went down.
    Pressed(Key),
    /// The chord was let go.
    Released(Key),
    /// The chord is held and repeats.
    Repeat(Key),
}

impl InputEvent {
    /// The chord of a key event, under the kind of the event.
    pub open spec fn of(event: KeyEvent) -> InputEvent {
        match event.kind {
            KeyEventKind::Press => InputEvent::Pressed(chord_of(event)),
            KeyEventKind::Release => InputEvent::Released(chord_of(event)),
            KeyEventKind::Repeat => InputEvent::Repeat(chord_of(event)),
        }
    }

    /// The chord of a key event, under the kind of the event.
    pub fn from_event(event: KeyEvent) -> (input: InputEvent)
        requires
            has_chord(event),
        ensures
            input == InputEvent::of(event),
    {
        let key = Key::from_event(event);
        match event.kind {
            KeyEventKind::Press => InputEvent::Pressed(key),
            KeyEventKind::Release => InputEvent::Released(key),
            KeyEventKind::Repeat => InputEvent::Repeat(key),
        }
    }
}

} // verus!
