//! A text field that takes key input only while it has the focus.

use vstd::prelude::*;
use vstd::string::StrSliceExecFns;
use vstd::string::StringExecFns;

use tui_textarea::Key as AreaKey;

use crate::inputs::key::{KeyCode, KeyEvent, ALT, CONTROL};
use crate::utils::text::texts;

verus! {

/// The key of a key input to a text field: the keys that a text area
/// knows, and `Null` for any other.
#[derive(Clone, Copy, Debug, PartialEq, Eq, Structural)]
pub enum FieldKey {
    Char(char),
    F(u8),
    Backspace,
    Enter,
    Left,
    Right,
    Up,
    Down,
    Tab,
    Delete,
    Home,
    End,
    PageUp,
    PageDown,
    Esc,
    /// No key that a text area knows; a text area ignores it.
    Null,
}

/// One key input to a text field: a key, and whether Control and Alt were
/// held with it.
#[derive(Clone, Copy, Debug, PartialEq, Eq, Structural)]
pub struct FieldInput {
    pub key: FieldKey,
    pub ctrl: bool,
    pub alt: bool,
}

/// The key of a text field that stands for a key of the keyboard.
pub open spec fn field_key(code: KeyCode) -> FieldKey {
    match code {
        KeyCode::Char(c) => FieldKey::Char(c),
        KeyCode::Backspace => FieldKey::Backspace,
        KeyCode::Enter => FieldKey::Enter,
        KeyCode::Left => FieldKey::Left,
        KeyCode::Right => FieldKey::Right,
        KeyCode::Up => FieldKey::Up,
        KeyCode::Down => FieldKey::Down,
        KeyCode::Tab => FieldKey::Tab,
        KeyCode::Delete => FieldKey::Delete,
        KeyCode::Home => FieldKey::Home,
        KeyCode::End => FieldKey::End,
        KeyCode::PageUp => FieldKey::PageUp,
        KeyCode::PageDown => FieldKey::PageDown,
        KeyCode::Esc => FieldKey::Esc,
        KeyCode::F(n) => FieldKey::F(n),
        _ => FieldKey::Null,
    }
}

/// The key input that a key event is to a text field: its key, with
/// Control and Alt as they are held, whatever else is held.
pub open spec fn field_input(event: KeyEvent) -> FieldInput {
    FieldInput {
        key: field_key(event.code),
        ctrl: event.modifiers.bits & CONTROL == CONTROL,
        alt: event.modifiers.bits & ALT == ALT,
    }
}

impl FieldInput {
    /// The key input that a key event is to a text field.
    pub fn from_event(event: KeyEvent) -> (input: FieldInput)
        ensures
            input == field_input(event),
    {
        let key = match event.code {
            KeyCode::Char(c) => FieldKey::Char(c),
            KeyCode::Backspace => FieldKey::Backspace,
            KeyCode::Enter => FieldKey::Enter,
            KeyCode::Left => FieldKey::Left,
            KeyCode::Right => FieldKey::Right,
            KeyCode::Up => FieldKey::Up,
            KeyCode::Down => FieldKey::Down,
            KeyCode::Tab => FieldKey::Tab,
            KeyCode::Delete => FieldKey::Delete,
            KeyCode::Home => FieldKey::Home,
            KeyCode::End => FieldKey::End,
            KeyCode::PageUp => FieldKey::PageUp,
            KeyCode::PageDown => FieldKey::PageDown,
            KeyCode::Esc => FieldKey::Esc,
            KeyCode::F(n) => FieldKey::F(n),
            _ => FieldKey::Null,
        };
        FieldInput {
            key,
            ctrl: event.modifiers.bits & CONTROL == CONTROL,
            alt: event.modifiers.bits & ALT == ALT,
        }
    }
}

/// The character that a key input types: that of a character key pressed
/// without Control and Alt, unless it is a line break.
pub open spec fn typed_char(input: FieldInput) -> Option<char> {
    match input.key {
        FieldKey::Char(c) => if !input.ctrl && !input.alt && c != '\n' && c != '\r' {
            Some(c)
        } else {
            None
        },
        _ => None,
    }
}

/// Whether the text holds no line break.
pub open spec fn no_line_break(line: Seq<char>) -> bool {
    forall|i: int| 0 <= i < line.len() ==> line[i] != '\n'
}

/// Whether none of the lines holds a line break.
pub open spec fn no_line_breaks(lines: Seq<Seq<char>>) -> bool {
    forall|row: int| 0 <= row < lines.len() ==> no_line_break(#[trigger] lines[row])
}

/// Whether lines and a cursor are as a text area keeps them: there is a
/// line, no line holds a line break, and the cursor stands on a line, at
/// one of its characters or at its end.
pub open spec fn well_kept(lines: Seq<Seq<char>>, cursor: (usize, usize)) -> bool {
    &&& lines.len() > 0
    &&& no_line_breaks(lines)
    &&& cursor.0 < lines.len()
    &&& cursor.1 <= lines[cursor.0 as int].len()
}

/// The lines with the character put in at the cursor.
pub open spec fn with_char(lines: Seq<Seq<char>>, cursor: (usize, usize), c: char) -> Seq<Seq<char>> {
    lines.update(cursor.0 as int, lines[cursor.0 as int].insert(cursor.1 as int, c))
}

/// Whether a field that held `text` with the cursor at `cursor` may hold
/// `after` with the cursor at `cursor_after` once its text area has
/// applied the key input: a character typed alone stands at the old
/// cursor, and the cursor behind it. What any other key does is for the
/// text area to decide.
pub open spec fn takes_input(
    text: Seq<Seq<char>>,
    cursor: (usize, usize),
    input: FieldInput,
    after: Seq<Seq<char>>,
    cursor_after: (usize, usize),
) -> bool {
    typed_char(input) matches Some(c) ==> after == with_char(text, cursor, c) && cursor_after.0
        == cursor.0 && cursor_after.1 == cursor.1 + 1
}

/// The line editor of `tui_textarea`, a `TextArea`. Verus sees nothing of it
/// but through the functions below.
#[verifier::external_body]
pub struct TextBuffer {
    area: tui_textarea::TextArea<'static>,
}

/// The lines that a text buffer holds, first line first.
pub uninterp spec fn buffer_lines(buffer: TextBuffer) -> Seq<Seq<char>>;

/// The line and the column of the cursor of a text buffer, both counted
/// from 0, the column in characters.
pub uninterp spec fn buffer_cursor_position(buffer: TextBuffer) -> (usize, usize);

/// The lines with which a text buffer starts: those given, or one empty
/// line where none is given.
pub open spec fn initial_lines(lines: Seq<Seq<char>>) -> Seq<Seq<char>> {
    if lines.len() == 0 {
        seq![Seq::<char>::empty()]
    } else {
        lines
    }
}

/// `TextArea::new` makes a text area of the given lines; given none, it
/// makes one of a single empty line. The cursor stands at the start of the
/// first line. The lines are to hold no line break: a text area counts on
/// that when it edits.
#[verifier::external_body]
fn buffer_new(lines: Vec<String>) -> (buffer: TextBuffer)
    requires
        no_line_breaks(texts(lines@)),
    ensures
        buffer_lines(buffer) == initial_lines(texts(lines@)),
        buffer_cursor_position(buffer) == (0usize, 0usize),
{
    TextBuffer { area: tui_textarea::TextArea::new(lines) }
}

/// `TextArea::input` applies one key input to the text area under its own
/// key mappings and tells whether the text changed. It keeps the lines and
/// the cursor as a text area keeps them. Where it says that the text did
/// not change, the lines are those of before. A character typed alone is
/// put in at the cursor, and the cursor moves behind it. Nothing else is
/// claimed of what the other keys do.
#[verifier::external_body]
fn buffer_input(buffer: &mut TextBuffer, input: FieldInput) -> (modified: bool)
    requires
        well_kept(buffer_lines(*old(buffer)), buffer_cursor_position(*old(buffer))),
    ensures
        well_kept(buffer_lines(*final(buffer)), buffer_cursor_position(*final(buffer))),
        !modified ==> buffer_lines(*final(buffer)) == buffer_lines(*old(buffer)),
        typed_char(input) matches Some(c) ==> modified && buffer_lines(*final(buffer)) == with_char(
            buffer_lines(*old(buffer)),
            buffer_cursor_position(*old(buffer)),
            c,
        ) && buffer_cursor_position(*final(buffer)).0 == buffer_cursor_position(*old(buffer)).0
            && buffer_cursor_position(*final(buffer)).1 == buffer_cursor_position(*old(buffer)).1 + 1,
{
    let key = match input.key {
        FieldKey::Char(c) => AreaKey::Char(c), FieldKey::F(n) => AreaKey::F(n),
        FieldKey::Backspace => AreaKey::Backspace, FieldKey::Enter => AreaKey::Enter,
        FieldKey::Left => AreaKey::Left, FieldKey::Right => AreaKey::Right,
        FieldKey::Up => AreaKey::Up, FieldKey::Down => AreaKey::Down,
        FieldKey::Tab => AreaKey::Tab, FieldKey::Delete => AreaKey::Delete,
        FieldKey::Home => AreaKey::Home, FieldKey::End => AreaKey::End,
        FieldKey::PageUp => AreaKey::PageUp, FieldKey::PageDown => AreaKey::PageDown,
        FieldKey::Esc => AreaKey::Esc, FieldKey::Null => AreaKey::Null,
    };
    buffer.area.input(tui_textarea::Input { key, ctrl: input.ctrl, alt: input.alt })
}

/// `TextArea::lines` hands out the lines of the text area.
#[verifier::external_body]
fn buffer_text(buffer: &TextBuffer) -> (lines: &[String])
    ensures
        texts(lines@) == buffer_lines(*buffer),
{
    buffer.area.lines()
}

/// `TextArea::cursor` tells the line and the column of the cursor.
#[verifier::external_body]
fn buffer_cursor(buffer: &TextBuffer) -> (cursor: (usize, usize))
    ensures
        cursor == buffer_cursor_position(*buffer),
{
    buffer.area.cursor()
}

/// Whether the text holds a line break.
pub fn has_line_break(text: &str) -> (found: bool)
    ensures
        found == !no_line_break(text@),
{
    let len = text.unicode_len();
    let mut i: usize = 0;
    while i < len
        invariant
            i <= len,
            len == text@.len(),
            forall|j: int| 0 <= j < i ==> text@[j] != '\n',
        decreases len - i,
    {
        if text.get_char(i) == '\n' {
            return true;
        }
        i += 1;
    }
    false
}

/// The first of the lines, or the empty text where there is no line.
pub open spec fn first_line(lines: Seq<Seq<char>>) -> Seq<char> {
    if lines.len() > 0 {
        lines[0]
    } else {
        Seq::empty()
    }
}

/// A text field with two titles, one for when it has the focus and one for
/// when it has not. It takes key input only while it has the focus.
pub struct FocusableTextArea {
    text_area: TextBuffer,
    focused: bool,
    focused_title: String,
    unfocused_title: String,
}

impl FocusableTextArea {
    /// The lines of the field, first line first.
    pub closed spec fn content(self) -> Seq<Seq<char>> {
        buffer_lines(self.text_area)
    }

    /// Whether the field has the focus.
    pub closed spec fn has_focus(self) -> bool {
        self.focused
    }

    /// The title and the other title of the field.
    pub closed spec fn titles(self) -> (Seq<char>, Seq<char>) {
        (self.focused_title@, self.unfocused_title@)
    }

    /// The line and the column of the cursor, both counted from 0.
    pub closed spec fn cursor_position(self) -> (usize, usize) {
        buffer_cursor_position(self.text_area)
    }

    /// Whether the field is as a text area keeps it: it has a line, no
    /// line holds a line break, and the cursor stands in the text.
    pub open spec fn inv(self) -> bool {
        well_kept(self.content(), self.cursor_position())
    }

    /// A field that holds `lines`, or one empty line where none is given,
    /// without the focus. No line may hold a line break.
    pub fn new(lines: Vec<String>, focused_title: &str, unfocused_title: &str) -> (field: Self)
        requires
            no_line_breaks(texts(lines@)),
        ensures
            field.inv(),
            field.content() == initial_lines(texts(lines@)),
            field.cursor_position() == (0usize, 0usize),
            !field.has_focus(),
            field.titles() == (focused_title@, unfocused_title@),
    {
        FocusableTextArea {
            text_area: buffer_new(lines),
            focused: false,
            focused_title: String::from_str(focused_title),
            unfocused_title: String::from_str(unfocused_title),
        }
    }

    /// Gives the field the focus or takes it away. The text, the cursor
    /// and the titles stay.
    pub fn set_focus(&mut self, focused: bool)
        ensures
            final(self).has_focus() == focused,
            final(self).content() == old(self).content(),
            final(self).cursor_position() == old(self).cursor_position(),
            final(self).titles() == old(self).titles(),
    {
        self.focused = focused;
    }

    /// Hands a key input to the field. Without the focus the field ignores
    /// it and stays as it is. With the focus the text area applies it under
    /// its own key mappings: a character typed alone is put in at the
    /// cursor, and the cursor moves behind it; what any other key does is
    /// for the text area to decide.
    pub fn input(&mut self, input: FieldInput)
        requires
            old(self).inv(),
        ensures
            final(self).inv(),
            final(self).has_focus() == old(self).has_focus(),
            final(self).titles() == old(self).titles(),
            !old(self).has_focus() ==> *final(self) == *old(self),
            old(self).has_focus() ==> takes_input(
                old(self).content(),
                old(self).cursor_position(),
                input,
                final(self).content(),
                final(self).cursor_position(),
            ),
    {
        if self.focused {
            let _ = buffer_input(&mut self.text_area, input);
        }
    }

    /// Whether the field has the focus.
    pub fn focused(&self) -> (focused: bool)
        ensures
            focused == self.has_focus(),
    {
        self.focused
    }

    /// The lines of the field, first line first.
    pub fn lines(&self) -> (lines: &[String])
        ensures
            texts(lines@) == self.content(),
    {
        buffer_text(&self.text_area)
    }

    /// The text that the field hands back when it loses the focus: its
    /// first line.
    pub fn committed_text(&self) -> (text: String)
        ensures
            text@ == first_line(self.content()),
    {
        let lines = buffer_text(&self.text_area);
        if lines.len() > 0 {
            assert(texts(lines@)[0] == lines@[0]@);
            lines[0].clone()
        } else {
            String::new()
        }
    }

    /// The line and the column of the cursor, both counted from 0.
    pub fn cursor(&self) -> (cursor: (usize, usize))
        ensures
            cursor == self.cursor_position(),
    {
        buffer_cursor(&self.text_area)
    }

    /// The title that the field shows now.
    pub fn title(&self) -> (title: &str)
        ensures
            title@ == (if self.has_focus() {
                self.titles().0
            } else {
                self.titles().1
            }),
    {
        if self.focused {
            self.focused_title.as_str()
        } else {
            self.unfocused_title.as_str()
        }
    }
}

impl Default for FocusableTextArea {
    /// A field of one empty line, with the titles `Focused` and `Unfocused`.
    fn default() -> (field: Self)
        ensures
            field.inv(),
            field.content() == seq![Seq::<char>::empty()],
            field.cursor_position() == (0usize, 0usize),
            !field.has_focus(),
            field.titles() == ("Focused"@, "Unfocused"@),
    {
        let mut lines: Vec<String> = Vec::new();
        lines.push(String::new());
        assert(texts(lines@) =~= seq![Seq::<char>::empty()]);
        FocusableTextArea::new(lines, "Focused", "Unfocused")
    }
}

} // verus!
