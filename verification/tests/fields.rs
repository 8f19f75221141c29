use wiper::inputs::key::{KeyCode, KeyEvent, KeyModifiers, ALT, CONTROL, NONE, SHIFT};
use wiper::utils::focusable_text_area::{has_line_break, FieldInput, FieldKey, FocusableTextArea};

fn typed(c: char) -> FieldInput {
    FieldInput { key: FieldKey::Char(c), ctrl: false, alt: false }
}

fn field(text: &str) -> FocusableTextArea {
    FocusableTextArea::new(vec![text.to_string()], "on", "off")
}

#[test]
fn a_new_field_holds_its_lines_without_focus() {
    let field = FocusableTextArea::new(vec!["one".to_string(), "two".to_string()], "on", "off");
    assert_eq!(field.lines(), ["one".to_string(), "two".to_string()].as_slice());
    assert!(!field.focused());
    assert_eq!(field.title(), "off");
    assert_eq!(field.committed_text(), "one");
    assert_eq!(field.cursor(), (0, 0));
}

#[test]
fn a_field_of_no_lines_holds_one_empty_line() {
    let field = FocusableTextArea::new(vec![], "on", "off");
    assert_eq!(field.lines(), ["".to_string()].as_slice());
    assert_eq!(field.committed_text(), "");
}

#[test]
fn focus_switches_the_title_and_keeps_the_text() {
    let mut field = field("abc");
    field.set_focus(true);
    assert!(field.focused());
    assert_eq!(field.title(), "on");
    assert_eq!(field.lines(), ["abc".to_string()].as_slice());
    field.set_focus(false);
    assert!(!field.focused());
    assert_eq!(field.title(), "off");
    assert_eq!(field.lines(), ["abc".to_string()].as_slice());
}

#[test]
fn input_without_focus_is_ignored() {
    let mut field = field("abc");
    field.input(typed('x'));
    field.input(FieldInput { key: FieldKey::Backspace, ctrl: false, alt: false });
    field.input(FieldInput { key: FieldKey::Enter, ctrl: false, alt: false });
    assert_eq!(field.lines(), ["abc".to_string()].as_slice());
    assert_eq!(field.cursor(), (0, 0));
    assert!(!field.focused());
}

#[test]
fn input_with_focus_reaches_the_text() {
    let mut field = field("");
    field.set_focus(true);
    field.input(typed('h'));
    field.input(typed('i'));
    assert_eq!(field.lines(), ["hi".to_string()].as_slice());
    assert_eq!(field.committed_text(), "hi");
    assert_eq!(field.cursor(), (0, 2));
    field.input(FieldInput { key: FieldKey::Backspace, ctrl: false, alt: false });
    assert_eq!(field.committed_text(), "h");
    assert!(field.focused());
    assert_eq!(field.title(), "on");
}

#[test]
fn committed_text_is_the_first_line() {
    let mut field = field("top");
    field.set_focus(true);
    field.input(FieldInput { key: FieldKey::End, ctrl: false, alt: false });
    field.input(FieldInput { key: FieldKey::Enter, ctrl: false, alt: false });
    field.input(typed('x'));
    assert_eq!(field.lines(), ["top".to_string(), "x".to_string()].as_slice());
    assert_eq!(field.committed_text(), "top");
}

#[test]
fn a_typed_character_goes_in_at_the_cursor() {
    let mut field = field("ac");
    field.set_focus(true);
    field.input(FieldInput { key: FieldKey::Right, ctrl: false, alt: false });
    assert_eq!(field.cursor(), (0, 1));
    field.input(typed('b'));
    assert_eq!(field.lines(), ["abc".to_string()].as_slice());
    assert_eq!(field.cursor(), (0, 2));
    field.input(typed(' '));
    assert_eq!(field.lines(), ["ab c".to_string()].as_slice());
    assert_eq!(field.cursor(), (0, 3));
}

#[test]
fn a_character_with_control_or_alt_is_no_text() {
    let mut field = field("abc");
    field.set_focus(true);
    field.input(FieldInput { key: FieldKey::Char('x'), ctrl: true, alt: false });
    field.input(FieldInput { key: FieldKey::Char('x'), ctrl: false, alt: true });
    field.input(FieldInput { key: FieldKey::Null, ctrl: false, alt: false });
    assert_eq!(field.lines(), ["abc".to_string()].as_slice());
}

#[test]
fn tab_and_paste_keep_a_field_of_one_line() {
    let mut field = field("ab");
    field.set_focus(true);
    field.input(FieldInput { key: FieldKey::Tab, ctrl: false, alt: false });
    field.input(FieldInput { key: FieldKey::Char('k'), ctrl: true, alt: false });
    field.input(FieldInput { key: FieldKey::Char('y'), ctrl: true, alt: false });
    assert_eq!(field.lines().len(), 1);
    assert!(!has_line_break(&field.lines()[0]));
}

#[test]
fn line_breaks_are_found() {
    assert!(has_line_break("a\nb"));
    assert!(has_line_break("\n"));
    assert!(!has_line_break("ab"));
    assert!(!has_line_break(""));
    assert!(!has_line_break("a\rb"));
}

#[test]
fn key_events_become_key_inputs() {
    let plain = KeyEvent::new(KeyCode::Char('d'), KeyModifiers { bits: NONE });
    assert_eq!(FieldInput::from_event(plain), typed('d'));
    let both = KeyEvent::new(KeyCode::Left, KeyModifiers { bits: CONTROL + ALT + SHIFT });
    assert_eq!(
        FieldInput::from_event(both),
        FieldInput { key: FieldKey::Left, ctrl: true, alt: true }
    );
    let shifted = KeyEvent::new(KeyCode::Char('D'), KeyModifiers { bits: SHIFT });
    assert_eq!(FieldInput::from_event(shifted), typed('D'));
    let function = KeyEvent::new(KeyCode::F(3), KeyModifiers { bits: ALT });
    assert_eq!(
        FieldInput::from_event(function),
        FieldInput { key: FieldKey::F(3), ctrl: false, alt: true }
    );
    for code in [KeyCode::BackTab, KeyCode::Insert, KeyCode::Null, KeyCode::CapsLock, KeyCode::Media] {
        let event = KeyEvent::new(code, KeyModifiers { bits: NONE });
        assert_eq!(FieldInput::from_event(event).key, FieldKey::Null);
    }
    let named = [
        (KeyCode::Backspace, FieldKey::Backspace),
        (KeyCode::Enter, FieldKey::Enter),
        (KeyCode::Right, FieldKey::Right),
        (KeyCode::Up, FieldKey::Up),
        (KeyCode::Down, FieldKey::Down),
        (KeyCode::Tab, FieldKey::Tab),
        (KeyCode::Delete, FieldKey::Delete),
        (KeyCode::Home, FieldKey::Home),
        (KeyCode::End, FieldKey::End),
        (KeyCode::PageUp, FieldKey::PageUp),
        (KeyCode::PageDown, FieldKey::PageDown),
        (KeyCode::Esc, FieldKey::Esc),
    ];
    for (code, key) in named {
        let event = KeyEvent::new(code, KeyModifiers { bits: NONE });
        assert_eq!(FieldInput::from_event(event).key, key);
    }
}

fn kept(field: &FocusableTextArea) {
    let lines = field.lines();
    let (row, col) = field.cursor();
    assert!(!lines.is_empty());
    assert!(lines.iter().all(|line| !has_line_break(line)));
    assert!(row < lines.len());
    assert!(col <= lines[row].chars().count());
}

#[test]
fn every_key_keeps_the_lines_and_the_cursor_in_order() {
    let keys = [
        FieldKey::Char('a'),
        FieldKey::Char('\n'),
        FieldKey::Char('\r'),
        FieldKey::Char('k'),
        FieldKey::Char('y'),
        FieldKey::Char('u'),
        FieldKey::Char('r'),
        FieldKey::Char('w'),
        FieldKey::Char('h'),
        FieldKey::Char('d'),
        FieldKey::Char('j'),
        FieldKey::Char('m'),
        FieldKey::Char('v'),
        FieldKey::Char('<'),
        FieldKey::Char('>'),
        FieldKey::F(1),
        FieldKey::Backspace,
        FieldKey::Enter,
        FieldKey::Left,
        FieldKey::Right,
        FieldKey::Up,
        FieldKey::Down,
        FieldKey::Tab,
        FieldKey::Delete,
        FieldKey::Home,
        FieldKey::End,
        FieldKey::PageUp,
        FieldKey::PageDown,
        FieldKey::Esc,
        FieldKey::Null,
    ];
    let mut field = field("one two");
    field.set_focus(true);
    for round in 0..3 {
        for (ctrl, alt) in [(false, false), (true, false), (false, true), (true, true)] {
            for key in keys {
                field.input(FieldInput { key, ctrl, alt });
                kept(&field);
                if round == 1 {
                    field.input(typed('x'));
                    kept(&field);
                }
            }
        }
    }
}
