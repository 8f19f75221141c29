use wiper::app::actions::Action;
use wiper::app::ui::{app_infos, check_size, draw_help, Infos};
use wiper::app::{App, AppReturn, Arguments, Mode};
use wiper::inputs::key::{KeyCode, KeyEvent, KeyEventKind, KeyModifiers, CONTROL, NONE};
use wiper::utils::event_handler::TerminalEvent;
use wiper::utils::filter::Filter;
use wiper::utils::walker::Entry;

fn args() -> Arguments {
    Arguments { root_path: None, regex_filter: "^node_modules$".to_string(), prune: true }
}

fn entry(path: &str, size: u64) -> Entry {
    Entry { path: path.to_string(), size }
}

fn send(app: &mut App, code: KeyCode, bits: u8) -> AppReturn {
    app.key_event(KeyEvent::new(code, KeyModifiers { bits }))
}

fn scan(app: &mut App, found: Vec<Entry>) {
    let filter = app.filter().unwrap();
    app.scan_dir_update(&filter, found);
}

fn press(app: &mut App, c: char) -> AppReturn {
    send(app, KeyCode::Char(c), NONE)
}

fn scanned() -> App {
    let mut app = App::new_from_args(&args());
    scan(&mut app, vec![entry("b/node_modules", 50), entry("a/node_modules", 300)]);
    app
}

fn paths(app: &App) -> Vec<String> {
    app.state().entries().items().iter().map(|e| e.path.clone()).collect()
}

#[test]
fn the_application_starts_in_normal_mode() {
    let app = App::new_from_args(&args());
    let state = app.state();
    assert_eq!(state.mode(), Mode::Normal);
    assert_eq!(state.path(), ".");
    assert_eq!(state.regex_filter(), "^node_modules$");
    assert!(state.entries().items().is_empty());
    assert_eq!(state.entries().selected(), None);
    assert_eq!(state.path_text_area().lines(), [".".to_string()].as_slice());
    assert_eq!(state.filter_text_area().lines(), ["^node_modules$".to_string()].as_slice());
    assert!(!state.path_text_area().focused());
    assert!(!state.filter_text_area().focused());
    assert_eq!(state.counter_tick(), 0);
    assert_eq!(
        app.actions().slice(),
        [
            Action::Quit,
            Action::DeleteSelectedEntries,
            Action::ToggleCurrent,
            Action::Up,
            Action::Down,
            Action::EditPath,
            Action::EditFilter,
            Action::UnfocusTextArea,
        ]
        .as_slice()
    );
}

#[test]
fn the_application_starts_with_the_given_root_and_filter() {
    let given = Arguments { root_path: Some("/tmp/x".to_string()), regex_filter: "^dist$".to_string(), prune: false };
    let app = App::new_from_args(&given);
    assert_eq!(app.state().path(), "/tmp/x");
    assert_eq!(app.state().regex_filter(), "^dist$");
    assert_eq!(app.state().path_text_area().lines(), ["/tmp/x".to_string()].as_slice());
    assert_eq!(app.state().filter_text_area().lines(), ["^dist$".to_string()].as_slice());
    assert_eq!(app.state().path_text_area().title(), "Relative Path (Inactive - p to focus)");
    assert_eq!(app.state().filter_text_area().title(), "Filter (Inactive - f to focus)");
}

#[test]
fn a_scan_is_shown_largest_first() {
    let app = scanned();
    assert_eq!(
        app.state().entries().items(),
        &vec![entry("a/node_modules", 300), entry("b/node_modules", 50)]
    );
    assert_eq!(app.state().entries().selected(), Some(0));
    assert_eq!(app.selected_entries(), vec![]);
}

#[test]
fn quit_leaves_by_both_chords() {
    let mut app = scanned();
    assert_eq!(press(&mut app, 'q'), AppReturn::Exit);
    assert_eq!(send(&mut app, KeyCode::Char('c'), CONTROL), AppReturn::Exit);
}

#[test]
fn unbound_keys_do_nothing() {
    let mut app = scanned();
    assert_eq!(press(&mut app, 'x'), AppReturn::Continue);
    assert_eq!(send(&mut app, KeyCode::Char('q'), CONTROL), AppReturn::Continue);
    assert_eq!(send(&mut app, KeyCode::Esc, NONE), AppReturn::Continue);
    assert_eq!(app.state().mode(), Mode::Normal);
    assert_eq!(app.state().entries().selected(), Some(0));
    assert_eq!(app.selected_entries(), vec![]);
}

#[test]
fn only_a_press_counts() {
    let mut app = scanned();
    let mut released = KeyEvent::new(KeyCode::Char('q'), KeyModifiers { bits: NONE });
    released.kind = KeyEventKind::Release;
    assert_eq!(app.key_event(released), AppReturn::Continue);
    let mut repeated = KeyEvent::new(KeyCode::Down, KeyModifiers { bits: NONE });
    repeated.kind = KeyEventKind::Repeat;
    assert_eq!(app.key_event(repeated), AppReturn::Continue);
    assert_eq!(app.state().entries().selected(), Some(0));
}

#[test]
fn up_and_down_move_the_cursor_and_wrap() {
    let mut app = scanned();
    assert_eq!(send(&mut app, KeyCode::Down, NONE), AppReturn::Continue);
    assert_eq!(app.state().entries().selected(), Some(1));
    assert_eq!(send(&mut app, KeyCode::Down, NONE), AppReturn::Continue);
    assert_eq!(app.state().entries().selected(), Some(0));
    assert_eq!(send(&mut app, KeyCode::Up, NONE), AppReturn::Continue);
    assert_eq!(app.state().entries().selected(), Some(1));
}

#[test]
fn toggle_picks_the_row_under_the_cursor() {
    let mut app = scanned();
    assert_eq!(press(&mut app, ' '), AppReturn::Continue);
    assert_eq!(app.selected_entries(), vec![entry("a/node_modules", 300)]);
    send(&mut app, KeyCode::Down, NONE);
    press(&mut app, ' ');
    assert_eq!(
        app.selected_entries(),
        vec![entry("a/node_modules", 300), entry("b/node_modules", 50)]
    );
    press(&mut app, ' ');
    assert_eq!(app.selected_entries(), vec![entry("a/node_modules", 300)]);
}

#[test]
fn deleting_the_picked_entry_leaves_the_other() {
    let mut app = scanned();
    press(&mut app, ' ');
    assert_eq!(press(&mut app, 'd'), AppReturn::Delete);
    assert_eq!(app.selected_entries(), vec![entry("a/node_modules", 300)]);
    scan(&mut app, vec![entry("b/node_modules", 50)]);
    assert_eq!(paths(&app), vec!["b/node_modules".to_string()]);
    assert_eq!(app.state().entries().items()[0].size, 50);
    assert_eq!(app.selected_entries(), vec![]);
    assert!(!app.state().entries().is_picked(0));
    assert_eq!(app.state().entries().selected(), Some(0));
}

#[test]
fn a_rescan_clears_what_was_picked() {
    let mut app = scanned();
    send(&mut app, KeyCode::Down, NONE);
    press(&mut app, ' ');
    scan(&mut app, vec![entry("b/node_modules", 50), entry("a/node_modules", 300)]);
    assert_eq!(app.selected_entries(), vec![]);
    assert_eq!(app.state().entries().selected(), Some(0));
    scan(&mut app, vec![]);
    assert_eq!(app.state().entries().selected(), None);
    assert!(app.state().entries().items().is_empty());
}

#[test]
fn at_most_one_field_has_the_focus() {
    let mut app = scanned();
    let keys = ['p', 'f', 'p', 'x', 'f', 'd', ' ', 'q'];
    for c in keys {
        press(&mut app, c);
        assert!(!(app.state().path_text_area().focused() && app.state().filter_text_area().focused()));
    }
    send(&mut app, KeyCode::Esc, NONE);
    assert!(!app.state().path_text_area().focused());
    assert!(!app.state().filter_text_area().focused());
    press(&mut app, 'f');
    assert!(app.state().filter_text_area().focused());
    assert!(!app.state().path_text_area().focused());
    press(&mut app, 'p');
    assert!(app.state().filter_text_area().focused());
    assert!(!app.state().path_text_area().focused());
}

#[test]
fn edit_path_gives_the_path_field_the_focus() {
    let mut app = scanned();
    assert_eq!(press(&mut app, 'p'), AppReturn::Continue);
    assert_eq!(app.state().mode(), Mode::EditingPath);
    assert!(app.state().path_text_area().focused());
    assert_eq!(app.state().path_text_area().title(), "Relative Path (Active - Esc to unfocus)");
}

#[test]
fn while_editing_the_path_a_bound_chord_is_text() {
    let mut app = scanned();
    press(&mut app, ' ');
    press(&mut app, 'p');
    assert_eq!(press(&mut app, 'd'), AppReturn::Continue);
    assert_eq!(press(&mut app, 'q'), AppReturn::Continue);
    assert_eq!(press(&mut app, ' '), AppReturn::Continue);
    assert_eq!(send(&mut app, KeyCode::Down, NONE), AppReturn::Continue);
    assert_eq!(app.state().mode(), Mode::EditingPath);
    assert_eq!(app.state().path_text_area().lines(), ["dq .".to_string()].as_slice());
    assert_eq!(app.state().filter_text_area().lines(), ["^node_modules$".to_string()].as_slice());
    assert_eq!(app.selected_entries(), vec![entry("a/node_modules", 300)]);
    assert_eq!(app.state().entries().selected(), Some(0));
    assert_eq!(app.state().path(), ".");
}

#[test]
fn committing_the_path_asks_for_a_scan() {
    let mut app = scanned();
    press(&mut app, 'p');
    press(&mut app, 'x');
    assert_eq!(send(&mut app, KeyCode::Esc, NONE), AppReturn::Scan);
    assert_eq!(app.state().mode(), Mode::Normal);
    assert_eq!(app.state().path(), "x.");
    assert_eq!(app.state().regex_filter(), "^node_modules$");
    assert_eq!(paths(&app), vec!["a/node_modules".to_string(), "b/node_modules".to_string()]);
}

#[test]
fn editing_the_filter_then_committing_scans_once_with_the_new_filter() {
    let mut app = scanned();
    let mut scans = 0;
    let mut results = vec![press(&mut app, 'f')];
    assert_eq!(app.state().mode(), Mode::EditingFilter);
    results.push(send(&mut app, KeyCode::Char('k'), CONTROL));
    for c in "^dist$".chars() {
        results.push(press(&mut app, c));
    }
    assert_eq!(app.state().regex_filter(), "^node_modules$");
    results.push(send(&mut app, KeyCode::Esc, NONE));
    for result in results {
        if result == AppReturn::Scan {
            scans += 1;
        }
    }
    assert_eq!(scans, 1);
    assert_eq!(app.state().mode(), Mode::Normal);
    assert_eq!(app.state().regex_filter(), "^dist$");
    assert_eq!(app.state().path(), ".");
    assert_eq!(app.state().path_text_area().lines(), [".".to_string()].as_slice());
    assert_eq!(app.state().filter_text_area().lines(), ["^dist$".to_string()].as_slice());
    assert!(!app.state().filter_text_area().focused());
}

#[test]
fn ticks_are_counted() {
    let mut app = App::new_from_args(&args());
    app.state_mut().incr_tick();
    app.state_mut().incr_tick();
    assert_eq!(app.state().counter_tick(), 2);
}

#[test]
fn sizes_are_added_up() {
    let mut app = scanned();
    assert_eq!(app_infos(app.state()), Infos { total_space: 350, total_selected_space: 0 });
    press(&mut app, ' ');
    assert_eq!(app_infos(app.state()), Infos { total_space: 350, total_selected_space: 300 });
    send(&mut app, KeyCode::Down, NONE);
    press(&mut app, ' ');
    assert_eq!(app_infos(app.state()), Infos { total_space: 350, total_selected_space: 350 });
    scan(&mut app, vec![entry("a", u64::MAX), entry("b", u64::MAX)]);
    assert_eq!(
        app_infos(app.state()),
        Infos { total_space: 2 * (u64::MAX as u128), total_selected_space: 0 }
    );
    scan(&mut app, vec![]);
    assert_eq!(app_infos(app.state()), Infos { total_space: 0, total_selected_space: 0 });
}

#[test]
fn the_terminal_must_be_large_enough() {
    assert_eq!(check_size(52, 12), Ok(()));
    assert_eq!(check_size(200, 60), Ok(()));
    assert_eq!(check_size(51, 12), Err("Require width >= 52, (got 51)".to_string()));
    assert_eq!(check_size(0, 0), Err("Require width >= 52, (got 0)".to_string()));
    assert_eq!(check_size(52, 11), Err("Require height >= 28, (got 11)".to_string()));
    assert_eq!(check_size(65535, 0), Err("Require height >= 28, (got 0)".to_string()));
}

#[test]
fn the_help_panel_lists_every_chord() {
    let app = App::new_from_args(&args());
    let rows = draw_help(app.actions());
    let expected: Vec<(String, String)> = [
        ("ctrl+c", "Quit"),
        ("q", ""),
        ("d", "DeleteSelectedEntries"),
        (" ", "ToggleCurrent"),
        ("Up", "Up"),
        ("Down", "Down"),
        ("p", "EditPath"),
        ("f", "EditFilter"),
        ("Esc", "UnfocusTextArea"),
    ]
    .iter()
    .map(|(k, h)| (k.to_string(), h.to_string()))
    .collect();
    assert_eq!(rows, expected);
}

#[test]
fn events_are_dispatched() {
    let mut app = scanned();
    let down = KeyEvent::new(KeyCode::Down, KeyModifiers { bits: NONE });
    assert_eq!(app.on_event(TerminalEvent::Key(down)), AppReturn::Continue);
    assert_eq!(app.state().entries().selected(), Some(1));
    assert_eq!(app.on_event(TerminalEvent::Other), AppReturn::Continue);
    assert_eq!(app.state().entries().selected(), Some(1));
    assert_eq!(app.state().counter_tick(), 0);
    assert_eq!(app.on_event(TerminalEvent::Tick), AppReturn::Continue);
    assert_eq!(app.state().counter_tick(), 1);
    app.tick();
    assert_eq!(app.state().counter_tick(), 2);
    let quit = KeyEvent::new(KeyCode::Char('q'), KeyModifiers { bits: NONE });
    assert_eq!(app.on_event(TerminalEvent::Key(quit)), AppReturn::Exit);
}

#[test]
fn a_forwarded_key_moves_only_the_cursor_of_the_focused_field() {
    let mut app = scanned();
    assert_eq!(app.state().path_text_area().cursor(), (0, 0));
    assert_eq!(app.state().filter_text_area().cursor(), (0, 0));
    press(&mut app, 'p');
    assert_eq!(app.state().path_text_area().cursor(), (0, 0));
    press(&mut app, 'x');
    press(&mut app, 'y');
    assert_eq!(app.state().path_text_area().cursor(), (0, 2));
    assert_eq!(app.state().filter_text_area().cursor(), (0, 0));
    assert_eq!(app.state().path_text_area().lines(), ["xy.".to_string()].as_slice());
    send(&mut app, KeyCode::Esc, NONE);
    assert_eq!(app.state().path_text_area().cursor(), (0, 2));
    send(&mut app, KeyCode::Down, NONE);
    assert_eq!(app.state().path_text_area().cursor(), (0, 2));
    assert_eq!(app.state().filter_text_area().cursor(), (0, 0));
}

#[test]
fn committing_a_field_that_was_not_edited_changes_nothing() {
    let given = Arguments { root_path: Some("/tmp/x".to_string()), regex_filter: "^dist$".to_string(), prune: true };
    let mut app = App::new_from_args(&given);
    press(&mut app, 'f');
    assert_eq!(send(&mut app, KeyCode::Esc, NONE), AppReturn::Scan);
    assert_eq!(app.state().regex_filter(), "^dist$");
    press(&mut app, 'p');
    assert_eq!(send(&mut app, KeyCode::Esc, NONE), AppReturn::Scan);
    assert_eq!(app.state().path(), "/tmp/x");
}

#[test]
fn a_filter_that_does_not_compile_is_an_error_before_any_scan() {
    let given = Arguments { root_path: None, regex_filter: "(".to_string(), prune: true };
    let app = App::new_from_args(&given);
    let error = app.filter().err().unwrap();
    assert_eq!(error.pattern, "(");
    assert!(!error.message.is_empty());
    let fine = App::new_from_args(&args());
    let filter: Filter = fine.filter().unwrap();
    assert_eq!(filter.as_str(), "^node_modules$");
    assert!(filter.is_match("node_modules"));
}

#[test]
fn the_chord_of_the_deletion_is_typed_into_the_path_at_the_cursor() {
    let mut app = scanned();
    press(&mut app, ' ');
    press(&mut app, 'p');
    send(&mut app, KeyCode::End, NONE);
    assert_eq!(app.state().path_text_area().cursor(), (0, 1));
    assert_eq!(press(&mut app, 'd'), AppReturn::Continue);
    assert_eq!(app.state().path_text_area().lines(), [".d".to_string()].as_slice());
    assert_eq!(app.state().path_text_area().cursor(), (0, 2));
    assert_eq!(app.state().filter_text_area().lines(), ["^node_modules$".to_string()].as_slice());
    assert_eq!(app.state().path(), ".");
    assert_eq!(app.state().regex_filter(), "^node_modules$");
    assert_eq!(app.selected_entries(), vec![entry("a/node_modules", 300)]);
}
