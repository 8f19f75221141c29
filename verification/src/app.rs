//! The application: its commands, and the state that key events drive.

use vstd::prelude::*;
use vstd::string::StringExecFns;

pub mod actions;
pub mod ui;

use crate::app::actions::{
    bound_keys, command_for, lemma_command_answers, lemma_one_owner, Action, Actions,
};
use crate::inputs::key::{KeyEvent, KeyEventKind};
use crate::utils::event_handler::TerminalEvent;
use crate::utils::filter::{pattern_compiles, Filter, FilterError};
use crate::utils::focusable_text_area::{
    field_input, first_line, no_line_break, takes_input, typed_char, well_kept, with_char, FieldInput,
    FocusableTextArea,
};
use crate::utils::statefull_list::{ListView, StatefulList};
use crate::utils::text::texts;
use crate::utils::walker::{is_sorted_scan, sort_by_size, Entry};

verus! {

/// What the program is started with.
#[derive(Clone, Debug)]
pub struct Arguments {
    /// Where to search; the current directory where none is given.
    pub root_path: Option<String>,
    /// The regular expression that the names of reported entries match.
    pub regex_filter: String,
    /// Whether what lies under a reported entry is left alone.
    pub prune: bool,
}

/// What the loop around the application does after a key event.
#[derive(Clone, Copy, Debug, PartialEq, Eq, Structural)]
pub enum AppReturn {
    /// Leave the program.
    Exit,
    /// Go on with the next event.
    Continue,
    /// Compile the filter as it is now with [`App::filter`], scan under
    /// the root path with it, and hand it and the entries to
    /// [`App::scan_dir_update`].
    Scan,
    /// Delete the entries of [`App::selected_entries`], each on its own,
    /// then scan again.
    Delete,
}

/// Where key events go.
#[derive(Clone, Copy, Debug, PartialEq, Eq, Structural)]
pub enum Mode {
    /// No field has the focus: chords are commands.
    Normal,
    /// The field of the root path has the focus.
    EditingPath,
    /// The field of the filter has the focus.
    EditingFilter,
}

/// What the application holds.
pub struct AppView {
    pub mode: Mode,
    /// The root path of the last or the coming scan.
    pub path: Seq<char>,
    /// The filter of the last or the coming scan.
    pub regex_filter: Seq<char>,
    /// The entries of the last scan.
    pub entries: ListView<Entry>,
    /// The lines of the field of the root path.
    pub path_text: Seq<Seq<char>>,
    /// The lines of the field of the filter.
    pub filter_text: Seq<Seq<char>>,
    /// The line and the column of the cursor in the field of the root path.
    pub path_cursor: (usize, usize),
    /// The line and the column of the cursor in the field of the filter.
    pub filter_cursor: (usize, usize),
    /// The titles of the field of the root path, with and without the focus.
    pub path_titles: (Seq<char>, Seq<char>),
    /// The titles of the field of the filter, with and without the focus.
    pub filter_titles: (Seq<char>, Seq<char>),
    /// How many ticks were counted.
    pub counter_tick: u64,
}

/// The state of the application.
pub struct AppState {
    path: String,
    regex_filter: String,
    entries: StatefulList<Entry>,
    path_text_area: FocusableTextArea,
    filter_text_area: FocusableTextArea,
    counter_tick: u64,
}

impl View for AppState {
    type V = AppView;

    closed spec fn view(&self) -> AppView {
        AppView {
            mode: if self.path_text_area.has_focus() {
                Mode::EditingPath
            } else if self.filter_text_area.has_focus() {
                Mode::EditingFilter
            } else {
                Mode::Normal
            },
            path: self.path@,
            regex_filter: self.regex_filter@,
            entries: self.entries@,
            path_text: self.path_text_area.content(),
            filter_text: self.filter_text_area.content(),
            path_cursor: self.path_text_area.cursor_position(),
            filter_cursor: self.filter_text_area.cursor_position(),
            path_titles: self.path_text_area.titles(),
            filter_titles: self.filter_text_area.titles(),
            counter_tick: self.counter_tick,
        }
    }
}

impl AppState {
    /// Whether the state is one that the application can be in: at most
    /// one field has the focus, and each field is as a text area keeps it.
    pub closed spec fn inv(self) -> bool {
        &&& !(self.path_text_area.has_focus() && self.filter_text_area.has_focus())
        &&& self.path_text_area.inv()
        &&& self.filter_text_area.inv()
    }

    /// Whether the field of the root path has the focus.
    pub closed spec fn path_focused(self) -> bool {
        self.path_text_area.has_focus()
    }

    /// Whether the field of the filter has the focus.
    pub closed spec fn filter_focused(self) -> bool {
        self.filter_text_area.has_focus()
    }

    /// At most one field has the focus, and the mode tells which.
    pub proof fn lemma_focus_exclusive(self)
        requires
            self.inv(),
        ensures
            !(self.path_focused() && self.filter_focused()),
            self.path_focused() <==> self@.mode == Mode::EditingPath,
            self.filter_focused() <==> self@.mode == Mode::EditingFilter,
    {
    }

    /// Each field has a line, none of its lines holds a line break, and
    /// its cursor stands in its text.
    pub proof fn lemma_fields_well_kept(self)
        requires
            self.inv(),
        ensures
            well_kept(self@.path_text, self@.path_cursor),
            well_kept(self@.filter_text, self@.filter_cursor),
    {
    }

    /// Counts one more tick.
    pub fn incr_tick(&mut self)
        requires
            old(self).inv(),
            old(self)@.counter_tick < u64::MAX,
        ensures
            final(self).inv(),
            final(self)@ == (AppView { counter_tick: (old(self)@.counter_tick + 1) as u64, ..old(self)@ }),
    {
        self.counter_tick += 1;
    }

    /// How many ticks were counted.
    pub fn counter_tick(&self) -> (ticks: u64)
        ensures
            ticks == self@.counter_tick,
    {
        self.counter_tick
    }

    /// The root path of the last or the coming scan.
    pub fn path(&self) -> (path: &str)
        ensures
            path@ == self@.path,
    {
        self.path.as_str()
    }

    /// The filter of the last or the coming scan.
    pub fn regex_filter(&self) -> (filter: &str)
        ensures
            filter@ == self@.regex_filter,
    {
        self.regex_filter.as_str()
    }

    /// The entries of the last scan.
    pub fn entries(&self) -> (entries: &StatefulList<Entry>)
        ensures
            entries@ == self@.entries,
    {
        &self.entries
    }

    /// The field of the root path.
    pub fn path_text_area(&self) -> (field: &FocusableTextArea)
        ensures
            self.inv() ==> field.inv(),
            field.content() == self@.path_text,
            field.cursor_position() == self@.path_cursor,
            field.titles() == self@.path_titles,
            field.has_focus() == self.path_focused(),
    {
        &self.path_text_area
    }

    /// The field of the filter.
    pub fn filter_text_area(&self) -> (field: &FocusableTextArea)
        ensures
            self.inv() ==> field.inv(),
            field.content() == self@.filter_text,
            field.cursor_position() == self@.filter_cursor,
            field.titles() == self@.filter_titles,
            field.has_focus() == self.filter_focused(),
    {
        &self.filter_text_area
    }

    /// Where key events go now.
    pub fn mode(&self) -> (mode: Mode)
        ensures
            mode == self@.mode,
    {
        if self.path_text_area.focused() {
            Mode::EditingPath
        } else if self.filter_text_area.focused() {
            Mode::EditingFilter
        } else {
            Mode::Normal
        }
    }
}

/// The state before anything is known: the current directory as root
/// path, the filter for `node_modules`, an empty list and two empty fields.
pub open spec fn default_view() -> AppView {
    AppView {
        mode: Mode::Normal,
        path: "."@,
        regex_filter: "^node_modules$"@,
        entries: ListView::filled(Seq::empty()),
        path_text: seq![Seq::<char>::empty()],
        filter_text: seq![Seq::<char>::empty()],
        path_cursor: (0, 0),
        filter_cursor: (0, 0),
        path_titles: ("Focused"@, "Unfocused"@),
        filter_titles: ("Focused"@, "Unfocused"@),
        counter_tick: 0,
    }
}

impl Default for AppState {
    /// The state before anything is known.
    fn default() -> (state: Self)
        ensures
            state.inv(),
            state@ == default_view(),
    {
        AppState {
            path: String::from_str("."),
            regex_filter: String::from_str("^node_modules$"),
            entries: StatefulList::default(),
            path_text_area: FocusableTextArea::default(),
            filter_text_area: FocusableTextArea::default(),
            counter_tick: 0,
        }
    }
}

/// What a key event of the given kind, asking for the given command,
/// makes of the application, and what the loop does next. Only a press
/// counts. While a field has the focus, the one command that is carried
/// out is the one that takes the focus away: it hands the first line of the
/// field to the root path or to the filter and asks for a scan. Any other
/// key goes to the field, so the result here leaves the state as it is.
pub open spec fn step(view: AppView, command: Option<Action>, kind: KeyEventKind) -> (AppView, AppReturn) {
    if kind != KeyEventKind::Press {
        (view, AppReturn::Continue)
    } else if view.mode == Mode::EditingPath {
        if command == Some(Action::UnfocusTextArea) {
            (AppView { mode: Mode::Normal, path: first_line(view.path_text), ..view }, AppReturn::Scan)
        } else {
            (view, AppReturn::Continue)
        }
    } else if view.mode == Mode::EditingFilter {
        if command == Some(Action::UnfocusTextArea) {
            (
                AppView { mode: Mode::Normal, regex_filter: first_line(view.filter_text), ..view },
                AppReturn::Scan,
            )
        } else {
            (view, AppReturn::Continue)
        }
    } else {
        match command {
            None => (view, AppReturn::Continue),
            Some(Action::Quit) => (view, AppReturn::Exit),
            Some(Action::DeleteSelectedEntries) => (view, AppReturn::Delete),
            Some(Action::ToggleCurrent) => (
                AppView { entries: view.entries.toggled(), ..view },
                AppReturn::Continue,
            ),
            Some(Action::Up) => (AppView { entries: view.entries.previous(), ..view }, AppReturn::Continue),
            Some(Action::Down) => (AppView { entries: view.entries.next(), ..view }, AppReturn::Continue),
            Some(Action::EditPath) => (AppView { mode: Mode::EditingPath, ..view }, AppReturn::Continue),
            Some(Action::EditFilter) => (AppView { mode: Mode::EditingFilter, ..view }, AppReturn::Continue),
            Some(Action::UnfocusTextArea) => (view, AppReturn::Continue),
        }
    }
}

/// Whether a key event of the given kind, asking for the given command,
/// goes to the field that has the focus.
pub open spec fn goes_to_field(view: AppView, command: Option<Action>, kind: KeyEventKind) -> bool {
    kind == KeyEventKind::Press && view.mode != Mode::Normal && command != Some(Action::UnfocusTextArea)
}

/// Whether `after` and `next` are what a key event makes of the
/// application `before`: they are what [`step`] says, but for the text and
/// the cursor of the field that has the focus where the key goes to it.
/// The text and the cursor of the other field stay in any case.
pub open spec fn after_key_event(
    before: AppView,
    registry: Seq<Action>,
    key_event: KeyEvent,
    after: AppView,
    next: AppReturn,
) -> bool {
    let command = command_for(registry, key_event);
    let expected = step(before, command, key_event.kind);
    let to_field = goes_to_field(before, command, key_event.kind);
    &&& next == expected.1
    &&& after == (AppView {
        path_text: after.path_text,
        filter_text: after.filter_text,
        path_cursor: after.path_cursor,
        filter_cursor: after.filter_cursor,
        ..expected.0
    })
    &&& !(to_field && before.mode == Mode::EditingPath) ==> after.path_text == before.path_text
        && after.path_cursor == before.path_cursor
    &&& !(to_field && before.mode == Mode::EditingFilter) ==> after.filter_text == before.filter_text
        && after.filter_cursor == before.filter_cursor
    &&& to_field && before.mode == Mode::EditingPath ==> takes_input(
        before.path_text,
        before.path_cursor,
        field_input(key_event),
        after.path_text,
        after.path_cursor,
    )
    &&& to_field && before.mode == Mode::EditingFilter ==> takes_input(
        before.filter_text,
        before.filter_cursor,
        field_input(key_event),
        after.filter_text,
        after.filter_cursor,
    )
}

/// The count of ticks after one more tick: one more, unless the count is
/// as high as it can get.
pub open spec fn ticked(ticks: u64) -> u64 {
    if ticks < u64::MAX {
        (ticks + 1) as u64
    } else {
        ticks
    }
}

/// The root path that the application starts with.
pub open spec fn root_of(args: Arguments) -> Seq<char> {
    match args.root_path {
        Some(path) => path@,
        None => "."@,
    }
}

/// The commands of the application, in the order in which the help panel
/// lists them.
pub open spec fn startup_actions() -> Seq<Action> {
    seq![
        Action::Quit,
        Action::DeleteSelectedEntries,
        Action::ToggleCurrent,
        Action::Up,
        Action::Down,
        Action::EditPath,
        Action::EditFilter,
        Action::UnfocusTextArea,
    ]
}

/// The state that the application starts in: no field has the focus, the
/// list is empty, the field of the root path holds the root path and the
/// field of the filter holds the filter.
pub open spec fn initial_view(args: Arguments) -> AppView {
    AppView {
        mode: Mode::Normal,
        path: root_of(args),
        regex_filter: args.regex_filter@,
        entries: ListView::filled(Seq::empty()),
        path_text: seq![root_of(args)],
        filter_text: seq![args.regex_filter@],
        path_cursor: (0, 0),
        filter_cursor: (0, 0),
        path_titles: ("Relative Path (Active - Esc to unfocus)"@, "Relative Path (Inactive - p to focus)"@),
        filter_titles: ("Filter (Active - Esc to unfocus)"@, "Filter (Inactive - f to focus)"@),
        counter_tick: 0,
    }
}

/// The entries of the picked rows, in the order of the rows.
pub open spec fn picked_entries(entries: ListView<Entry>) -> Seq<Entry> {
    crate::utils::statefull_list::picked_below(entries.picked, entries.rows.len()).map_values(
        |row: usize| entries.rows[row as int],
    )
}

/// The application: the commands of its mode, and its state.
pub struct App {
    actions: Actions,
    state: AppState,
}

impl View for App {
    type V = AppView;

    closed spec fn view(&self) -> AppView {
        self.state@
    }
}

impl App {
    /// Whether the application is in a state that it can be in.
    pub closed spec fn inv(self) -> bool {
        self.state.inv()
    }

    /// The commands of the application.
    pub closed spec fn registry(self) -> Seq<Action> {
        self.actions@
    }

    /// The application as it starts: with every command, and before its
    /// first scan.
    pub fn new_from_args(args: &Arguments) -> (app: App)
        requires
            no_line_break(root_of(*args)),
            no_line_break(args.regex_filter@),
        ensures
            app.inv(),
            app@ == initial_view(*args),
            app.registry() == startup_actions(),
    {
        let path = match &args.root_path {
            Some(path) => path.clone(),
            None => String::from_str("."),
        };
        let mut path_lines: Vec<String> = Vec::new();
        path_lines.push(path.clone());
        let mut filter_lines: Vec<String> = Vec::new();
        filter_lines.push(args.regex_filter.clone());
        let actions = vec![
            Action::Quit,
            Action::DeleteSelectedEntries,
            Action::ToggleCurrent,
            Action::Up,
            Action::Down,
            Action::EditPath,
            Action::EditFilter,
            Action::UnfocusTextArea,
        ];
        proof {
            assert(texts(path_lines@) =~= seq![root_of(*args)]);
            assert(texts(filter_lines@) =~= seq![args.regex_filter@]);
            assert(actions@ =~= startup_actions());
        }
        let state = AppState {
            path,
            regex_filter: args.regex_filter.clone(),
            entries: StatefulList::new(),
            path_text_area: FocusableTextArea::new(
                path_lines,
                "Relative Path (Active - Esc to unfocus)",
                "Relative Path (Inactive - p to focus)",
            ),
            filter_text_area: FocusableTextArea::new(
                filter_lines,
                "Filter (Active - Esc to unfocus)",
                "Filter (Inactive - f to focus)",
            ),
            counter_tick: 0,
        };
        App { actions: Actions::from_iter(actions), state }
    }

    /// Takes one key event. While a field has the focus, any key but the
    /// one that takes the focus away goes to that field as a key input.
    pub fn key_event(&mut self, key_event: KeyEvent) -> (next: AppReturn)
        requires
            old(self).inv(),
        ensures
            final(self).inv(),
            final(self).registry() == old(self).registry(),
            after_key_event(old(self)@, old(self).registry(), key_event, final(self)@, next),
    {
        if key_event.kind != KeyEventKind::Press {
            return AppReturn::Continue;
        }
        let optional_action = self.actions.find(key_event);
        if self.state.path_text_area.focused() || self.state.filter_text_area.focused() {
            if let Some(Action::UnfocusTextArea) = optional_action {
                if self.state.path_text_area.focused() {
                    self.state.path = self.state.path_text_area.committed_text();
                    self.state.path_text_area.set_focus(false);
                } else {
                    self.state.regex_filter = self.state.filter_text_area.committed_text();
                    self.state.filter_text_area.set_focus(false);
                }
                return AppReturn::Scan;
            }
            let input = FieldInput::from_event(key_event);
            if self.state.path_text_area.focused() {
                self.state.path_text_area.input(input);
            } else {
                self.state.filter_text_area.input(input);
            }
            return AppReturn::Continue;
        }
        match optional_action {
            None => AppReturn::Continue,
            Some(Action::DeleteSelectedEntries) => AppReturn::Delete,
            Some(Action::ToggleCurrent) => {
                self.state.entries.toggle_at_cursor();
                AppReturn::Continue
            },
            Some(Action::Up) => {
                self.state.entries.previous();
                AppReturn::Continue
            },
            Some(Action::Down) => {
                self.state.entries.next();
                AppReturn::Continue
            },
            Some(Action::Quit) => AppReturn::Exit,
            Some(Action::EditPath) => {
                self.state.path_text_area.set_focus(true);
                AppReturn::Continue
            },
            Some(Action::EditFilter) => {
                self.state.filter_text_area.set_focus(true);
                AppReturn::Continue
            },
            Some(Action::UnfocusTextArea) => {
                self.state.path_text_area.set_focus(false);
                self.state.filter_text_area.set_focus(false);
                AppReturn::Continue
            },
        }
    }

    /// Counts one more tick, unless the count is as high as it can get.
    pub fn tick(&mut self)
        requires
            old(self).inv(),
        ensures
            final(self).inv(),
            final(self).registry() == old(self).registry(),
            final(self)@ == (AppView { counter_tick: ticked(old(self)@.counter_tick), ..old(self)@ }),
    {
        if self.state.counter_tick < u64::MAX {
            self.state.incr_tick();
        }
    }

    /// Takes one event from the source of events: a key event goes to
    /// [`App::key_event`], a tick is counted, anything else is passed over.
    pub fn on_event(&mut self, event: TerminalEvent) -> (next: AppReturn)
        requires
            old(self).inv(),
        ensures
            final(self).inv(),
            final(self).registry() == old(self).registry(),
            match event {
                TerminalEvent::Key(key_event) => after_key_event(
                    old(self)@,
                    old(self).registry(),
                    key_event,
                    final(self)@,
                    next,
                ),
                TerminalEvent::Tick => {
                    &&& next == AppReturn::Continue
                    &&& final(self)@ == (AppView {
                        counter_tick: ticked(old(self)@.counter_tick),
                        ..old(self)@
                    })
                },
                TerminalEvent::Other => next == AppReturn::Continue && final(self)@ == old(self)@,
            },
    {
        match event {
            TerminalEvent::Key(key_event) => self.key_event(key_event),
            TerminalEvent::Tick => {
                self.tick();
                AppReturn::Continue
            },
            TerminalEvent::Other => AppReturn::Continue,
        }
    }

    /// The filter of the coming scan, compiled, or the reason why the
    /// filter as it stands does not compile. There is no scan without it.
    pub fn filter(&self) -> (result: Result<Filter, FilterError>)
        ensures
            result is Ok <==> pattern_compiles(self@.regex_filter),
            result matches Ok(filter) ==> filter.pattern() == self@.regex_filter,
            result matches Err(error) ==> error.pattern@ == self@.regex_filter,
    {
        Filter::new(self.state.regex_filter.as_str())
    }

    /// Takes the entries that a scan with `filter` found: shows them
    /// largest first, with the cursor on the first of them and nothing
    /// picked. The filter is the one that the application holds, compiled.
    pub fn scan_dir_update(&mut self, filter: &Filter, found: Vec<Entry>)
        requires
            old(self).inv(),
            filter.pattern() == old(self)@.regex_filter,
        ensures
            final(self).inv(),
            final(self).registry() == old(self).registry(),
            is_sorted_scan(found@, final(self)@.entries.rows),
            final(self)@ == (AppView {
                entries: ListView::filled(final(self)@.entries.rows),
                ..old(self)@
            }),
    {
        let shown = sort_by_size(found);
        self.state.entries.set_items(shown);
    }

    /// The entries of the picked rows, in the order of the rows: what a
    /// deletion is to remove.
    pub fn selected_entries(&self) -> (entries: Vec<Entry>)
        ensures
            entries@ == picked_entries(self@.entries),
    {
        let rows = self.state.entries.picked_rows();
        let items = self.state.entries.items();
        let mut entries: Vec<Entry> = Vec::new();
        let mut i: usize = 0;
        while i < rows.len()
            invariant
                i <= rows.len(),
                forall|k: int| 0 <= k < rows@.len() ==> (#[trigger] rows@[k]) < items@.len(),
                entries@ == rows@.take(i as int).map_values(|row: usize| items@[row as int]),
            decreases rows.len() - i,
        {
            let entry = &items[rows[i]];
            entries.push(Entry { path: entry.path.clone(), size: entry.size });
            assert(entries@ =~= rows@.take(i + 1).map_values(|row: usize| items@[row as int]));
            i += 1;
        }
        assert(rows@.take(rows.len() as int) =~= rows@);
        entries
    }

    /// The commands of the application.
    pub fn actions(&self) -> (actions: &Actions)
        ensures
            actions@ == self.registry(),
    {
        &self.actions
    }

    /// The state of the application.
    pub fn state(&self) -> (state: &AppState)
        ensures
            state@ == self@,
            state.inv() == self.inv(),
    {
        &self.state
    }

    /// The state of the application, to be changed.
    pub fn state_mut(&mut self) -> (state: &mut AppState)
        ensures
            state@ == old(self)@,
            state.inv() == old(self).inv(),
            final(self)@ == final(state)@,
            final(self).inv() == final(state).inv(),
            final(self).registry() == old(self).registry(),
    {
        &mut self.state
    }
}

/// While a field has the focus, a chord bound to any command but the one
/// that takes the focus away is not carried out: the state stays as it is,
/// but for the text and the cursor of the field, to which the key goes.
pub proof fn lemma_editing_captures(view: AppView, actions: Seq<Action>, key_event: KeyEvent, bound_to: Action)
    requires
        view.mode != Mode::Normal,
        key_event.kind == KeyEventKind::Press,
        bound_keys(bound_to).contains(key_event),
        bound_to != Action::UnfocusTextArea,
    ensures
        step(view, command_for(actions, key_event), key_event.kind) == (view, AppReturn::Continue),
        goes_to_field(view, command_for(actions, key_event), key_event.kind),
{
    lemma_command_answers(actions, key_event);
    if let Some(action) = command_for(actions, key_event) {
        lemma_one_owner(action, bound_to, key_event);
    }
}

/// The chord of the deletion is, to a text field, the letter `d` typed
/// alone: while the field of the root path has the focus, a key event of
/// that chord puts a `d` into the field at the cursor, and leaves the
/// list, the root path, the filter and the other field as they are.
pub proof fn lemma_delete_chord_is_text(
    before: AppView,
    actions: Seq<Action>,
    key_event: KeyEvent,
    after: AppView,
    next: AppReturn,
)
    requires
        before.mode == Mode::EditingPath,
        key_event.kind == KeyEventKind::Press,
        bound_keys(Action::DeleteSelectedEntries).contains(key_event),
        after_key_event(before, actions, key_event, after, next),
    ensures
        next == AppReturn::Continue,
        after.path_text == with_char(before.path_text, before.path_cursor, 'd'),
        after.path_cursor.0 == before.path_cursor.0,
        after.path_cursor.1 == before.path_cursor.1 + 1,
        after == (AppView { path_text: after.path_text, path_cursor: after.path_cursor, ..before }),
{
    lemma_editing_captures(before, actions, key_event, Action::DeleteSelectedEntries);
    let i = choose|i: int|
        0 <= i < bound_keys(Action::DeleteSelectedEntries).len() && bound_keys(
            Action::DeleteSelectedEntries,
        )[i] == key_event;
    assert(key_event.modifiers.bits == 0);
    assert(0u8 & 2u8 != 2u8) by (bit_vector);
    assert(0u8 & 4u8 != 4u8) by (bit_vector);
    assert(typed_char(field_input(key_event)) == Some('d'));
}

/// While a field has the focus, no key event changes the list, asks for a
/// deletion or leaves the program.
pub proof fn lemma_editing_keeps_list(view: AppView, command: Option<Action>, kind: KeyEventKind)
    requires
        view.mode != Mode::Normal,
    ensures
        step(view, command, kind).0.entries == view.entries,
        step(view, command, kind).1 != AppReturn::Delete,
        step(view, command, kind).1 != AppReturn::Exit,
{
}

} // verus!
