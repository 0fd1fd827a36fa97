use shell_bridge::browser;
use shell_bridge::keys::{Flow, Key, KeyCode, KeyKind, Modifiers};
use shell_bridge::launcher::{App, Config, CurrentScreen, Request, Row, Tint};
use shell_bridge::layout::{centered_percentages, centered_rect_shares};
use shell_bridge::popup;
use shell_bridge::prompt;
use shell_bridge::todo::{Status, TodoItem, TodoList};

fn press(code: KeyCode) -> Key {
    Key::plain(code)
}

fn launcher_with(items: &[&str]) -> App {
    let mut app = App::new();
    app.absorb(items.iter().map(|s| s.to_string()).collect());
    app
}

#[test]
fn key_constructors_fill_the_fields() {
    assert_eq!(
        Key::plain(KeyCode::Up),
        Key { code: KeyCode::Up, modifiers: Modifiers::Unmodified, kind: KeyKind::Press }
    );
    let key = Key::control('q');
    assert_eq!(key.code, KeyCode::Char('q'));
    assert_eq!(key.modifiers, Modifiers::Control);
    assert!(key.holds_control('q'));
    assert!(!key.holds_control('c'));
    assert!(!Key::plain(KeyCode::Char('q')).holds_control('q'));
}

#[test]
fn a_new_launcher_is_empty_and_on_the_start_screen() {
    let app = App::new();
    assert_eq!(app.current_screen, CurrentScreen::Start);
    assert!(app.items.is_empty());
    assert_eq!(app.input_buffer, "");
    assert!(!app.show_password_prompt);
    assert!(!app.activate_input_field);
    assert_eq!(app.selected, 0);
    assert_eq!(app.selected_item, "");
}

#[test]
fn the_highlight_wraps_in_both_directions() {
    let mut app = launcher_with(&["Clone repo", "Push repo", "Pull repo"]);
    app.next();
    assert_eq!(app.selected, 1);
    app.next();
    app.next();
    assert_eq!(app.selected, 0);
    app.previous();
    assert_eq!(app.selected, 2);
    app.previous();
    assert_eq!(app.selected, 1);
}

#[test]
fn select_picks_the_highlighted_entry() {
    let mut app = launcher_with(&["Clone repo", "Push repo"]);
    app.next();
    app.select();
    assert_eq!(app.selected_item, "Push repo");
    assert_eq!(app.current_screen, CurrentScreen::Input);
    app.back_to_start();
    assert_eq!(app.current_screen, CurrentScreen::Start);
    assert_eq!(app.selected_item, "Push repo");
}

#[test]
fn absorbed_lines_come_below_the_entries() {
    let mut app = launcher_with(&["Clone repo"]);
    app.absorb(vec!["out 1".to_string(), "out 2".to_string()]);
    app.absorb(Vec::new());
    assert_eq!(app.items, vec!["Clone repo", "out 1", "out 2"]);
}

#[test]
fn arrow_keys_move_and_enter_picks_on_the_start_screen() {
    let mut app = launcher_with(&["Clone repo", "Push repo"]);
    assert!(matches!(app.handle_key(press(KeyCode::Down)), Request::Nothing));
    assert_eq!(app.selected, 1);
    assert!(matches!(app.handle_key(press(KeyCode::Down)), Request::Nothing));
    assert_eq!(app.selected, 0);
    assert!(matches!(app.handle_key(press(KeyCode::Up)), Request::Nothing));
    assert_eq!(app.selected, 1);
    assert!(matches!(app.handle_key(press(KeyCode::Enter)), Request::Nothing));
    assert_eq!(app.current_screen, CurrentScreen::Input);
    assert_eq!(app.selected_item, "Push repo");
}

#[test]
fn the_list_takes_no_keys_without_entries() {
    let mut app = App::new();
    for code in [KeyCode::Down, KeyCode::Up, KeyCode::Enter] {
        assert!(matches!(app.handle_key(press(code)), Request::Nothing));
    }
    assert_eq!(app.selected, 0);
    assert_eq!(app.current_screen, CurrentScreen::Start);
}

#[test]
fn releases_are_ignored() {
    let mut app = launcher_with(&["a", "b"]);
    let key = Key { code: KeyCode::Down, modifiers: Modifiers::Unmodified, kind: KeyKind::Release };
    assert!(matches!(app.handle_key(key), Request::Nothing));
    assert_eq!(app.selected, 0);
    let quit = Key { kind: KeyKind::Release, ..Key::control('q') };
    assert!(matches!(app.handle_key(quit), Request::Nothing));
}

#[test]
fn control_q_quits() {
    let mut app = launcher_with(&["a"]);
    assert!(matches!(app.handle_key(Key::control('q')), Request::Quit));
    assert!(matches!(app.handle_key(press(KeyCode::Char('q'))), Request::Nothing));
}

#[test]
fn control_c_starts_the_probe_command() {
    let mut app = launcher_with(&["a"]);
    match app.handle_key(Key::control('c')) {
        Request::Launch(command) => {
            assert_eq!(command.command_line(), "read varname;echo $varname");
        }
        other => panic!("unexpected request {other:?}"),
    }
    assert!(app.activate_input_field);
    assert!(!app.show_password_prompt);
    assert_eq!(App::probe_command().len(), 2);
}

#[test]
fn typed_text_is_sent_on_enter() {
    let mut app = launcher_with(&["a"]);
    app.handle_key(press(KeyCode::Enter));
    app.handle_key(Key::control('c'));
    for c in "helo".chars() {
        app.handle_key(press(KeyCode::Char(c)));
    }
    app.handle_key(press(KeyCode::Backspace));
    app.handle_key(press(KeyCode::Char('l')));
    app.handle_key(press(KeyCode::Char('o')));
    assert_eq!(app.input_buffer, "hello");
    match app.handle_key(press(KeyCode::Enter)) {
        Request::Send(text) => assert_eq!(text, "hello"),
        other => panic!("unexpected request {other:?}"),
    }
    assert_eq!(app.input_buffer, "");
    assert!(!app.activate_input_field);
    assert!(!app.show_password_prompt);
    assert!(matches!(app.handle_key(press(KeyCode::Char('x'))), Request::Nothing));
    assert_eq!(app.input_buffer, "");
}

#[test]
fn backspace_on_an_empty_field_changes_nothing() {
    let mut app = launcher_with(&["a"]);
    app.handle_key(press(KeyCode::Enter));
    app.handle_key(Key::control('s'));
    app.handle_key(press(KeyCode::Backspace));
    assert_eq!(app.input_buffer, "");
    assert!(app.activate_input_field);
}

#[test]
fn escape_shows_the_start_screen() {
    let mut app = launcher_with(&["a", "b"]);
    app.handle_key(press(KeyCode::Enter));
    assert_eq!(app.current_screen, CurrentScreen::Input);
    app.handle_key(press(KeyCode::Esc));
    assert_eq!(app.current_screen, CurrentScreen::Start);
    assert_eq!(app.selected, 0);
}

#[test]
fn keys_with_modifiers_do_not_type() {
    let mut app = launcher_with(&["a"]);
    app.handle_key(press(KeyCode::Enter));
    app.handle_key(Key::control('s'));
    let shifted = Key { code: KeyCode::Char('A'), modifiers: Modifiers::Other, kind: KeyKind::Press };
    app.handle_key(shifted);
    app.handle_key(Key::control('x'));
    assert_eq!(app.input_buffer, "");
}

#[test]
fn hidden_input_shows_one_star_per_byte() {
    let mut app = launcher_with(&["a"]);
    app.handle_key(press(KeyCode::Enter));
    app.handle_key(Key::control('s'));
    assert!(app.show_password_prompt);
    for c in "pä5".chars() {
        app.handle_key(press(KeyCode::Char(c)));
    }
    assert_eq!(app.input_text(), "****");
    app.show_password_prompt = false;
    assert_eq!(app.input_text(), "pä5");
}

#[test]
fn the_start_screen_marks_the_highlighted_row() {
    let mut app = launcher_with(&["a", "b"]);
    app.next();
    let scene = app.scene();
    assert!(scene.framed);
    assert_eq!(scene.input, None);
    assert_eq!(
        scene.rows,
        vec![
            Row { text: "a".to_string(), tint: Tint::Plain, bold: false },
            Row { text: "b".to_string(), tint: Tint::Yellow, bold: true },
        ]
    );
}

#[test]
fn the_input_screen_shows_every_row_in_yellow() {
    let mut app = launcher_with(&["a", "b"]);
    app.select();
    app.activate_input_field = true;
    app.input_buffer.push_str("ls");
    let scene = app.scene();
    assert!(!scene.framed);
    assert_eq!(scene.input, Some("ls".to_string()));
    assert!(scene.rows.iter().all(|row| row.tint == Tint::Yellow && !row.bold));
    assert_eq!(scene.rows.len(), 2);
}

#[test]
fn config_keeps_its_values() {
    let config = Config::new("linutil".to_string(), "/srv/git".to_string());
    assert_eq!(config.name(), "linutil");
    assert_eq!(config.git_repo_dir(), "/srv/git");
}

#[test]
fn a_centred_strip_has_equal_margins() {
    assert_eq!(centered_percentages(60), (20, 60, 20));
    assert_eq!(centered_percentages(25), (37, 25, 37));
    assert_eq!(centered_percentages(100), (0, 100, 0));
    assert_eq!(centered_percentages(0), (50, 0, 50));
    assert_eq!(centered_rect_shares(60, 25), ((37, 25, 37), (20, 60, 20)));
}

#[test]
fn the_browser_starts_on_its_greeting() {
    let b = browser::Browser::new();
    assert_eq!(b.app.current_screen, browser::CurrentScreen::Main);
    assert_eq!(b.events.items, vec!["Item 1", "Item 2"]);
    assert_eq!(b.events.state.selected(), None);
    assert_eq!(b.greeting_text, "Hello Ratatui! (press 'q' to quit)");
    assert_eq!(browser::App::new().current_screen, browser::CurrentScreen::Main);
}

#[test]
fn the_browser_list_wraps_in_both_directions() {
    let mut list = browser::ListWidget::new(vec!["a".into(), "b".into(), "c".into()]);
    assert_eq!(list.state.selected(), None);
    list.next();
    assert_eq!(list.state.selected(), Some(0));
    list.next();
    list.next();
    assert_eq!(list.state.selected(), Some(2));
    list.next();
    assert_eq!(list.state.selected(), Some(0));
    list.previous();
    assert_eq!(list.state.selected(), Some(2));
    list.previous();
    assert_eq!(list.state.selected(), Some(1));
    list.unselect();
    assert_eq!(list.state.selected(), None);
    list.previous();
    assert_eq!(list.state.selected(), Some(0));
}

#[test]
fn new_entries_clear_the_selection() {
    let mut list = browser::ListWidget::new(vec!["a".into()]);
    list.next();
    *list.state.offset_mut() = 3;
    list.set_items(vec!["x".into(), "y".into()]);
    assert_eq!(list.items, vec!["x", "y"]);
    assert_eq!(list.state.selected(), None);
    assert_eq!(list.state.offset(), 0);
}

#[test]
fn unselect_moves_the_display_back_to_the_top() {
    let mut list = browser::ListWidget::new(vec!["a".into(), "b".into()]);
    list.next();
    *list.state.offset_mut() = 1;
    list.next();
    assert_eq!(list.state.offset(), 1);
    list.unselect();
    assert_eq!(list.state.offset(), 0);
}

#[test]
fn the_browser_follows_its_keys() {
    let mut b = browser::Browser::new();
    assert_eq!(b.on_key(press(KeyCode::Char('l'))), Flow::Continue);
    assert_eq!(b.app.current_screen, browser::CurrentScreen::List);
    assert_eq!(b.events.items, vec!["Item 1", "Item 2", "Test"]);
    assert_eq!(b.on_key(press(KeyCode::Enter)), Flow::Continue);
    assert_eq!(b.app.current_screen, browser::CurrentScreen::List);
    b.on_key(press(KeyCode::Down));
    b.on_key(press(KeyCode::Right));
    assert_eq!(b.events.state.selected(), Some(1));
    b.on_key(press(KeyCode::Left));
    b.on_key(press(KeyCode::Up));
    assert_eq!(b.events.state.selected(), Some(2));
    b.on_key(press(KeyCode::Enter));
    assert_eq!(b.greeting_text, "Selected item: Test");
    assert_eq!(b.app.current_screen, browser::CurrentScreen::Main);
    b.on_key(press(KeyCode::Char('l')));
    b.on_key(press(KeyCode::Char('g')));
    assert_eq!(b.app.current_screen, browser::CurrentScreen::Main);
    assert_eq!(b.on_key(press(KeyCode::Char('q'))), Flow::Quit);
}

#[test]
fn the_browser_ignores_what_is_not_a_press() {
    let mut b = browser::Browser::new();
    let key = Key { code: KeyCode::Char('q'), modifiers: Modifiers::Unmodified, kind: KeyKind::Release };
    assert_eq!(b.on_key(key), Flow::Continue);
    let key = Key { code: KeyCode::Char('l'), modifiers: Modifiers::Unmodified, kind: KeyKind::Repeat };
    assert_eq!(b.on_key(key), Flow::Continue);
    assert_eq!(b.events.items.len(), 2);
}

#[test]
fn the_popup_opens_and_closes() {
    let mut app = popup::App::new();
    assert!(app.modal.is_none());
    app.toggle_popup();
    assert!(app.modal.as_ref().unwrap().is_open());
    app.toggle_popup();
    assert!(!app.modal.as_ref().unwrap().is_open());
    app.toggle_popup();
    assert!(app.modal.as_ref().unwrap().is_open());
    assert!(popup::Modal::new(true).is_open());
    assert!(!popup::Modal::new(false).is_open());
}

#[test]
fn the_popup_screen_follows_its_keys() {
    let mut app = popup::App::new();
    assert_eq!(app.on_key(press(KeyCode::Char('p'))), Flow::Continue);
    assert!(app.modal.as_ref().unwrap().is_open());
    assert_eq!(app.on_key(press(KeyCode::Char('x'))), Flow::Continue);
    assert_eq!(app.on_key(press(KeyCode::Enter)), Flow::Continue);
    assert!(app.modal.as_ref().unwrap().is_open());
    assert_eq!(app.on_key(press(KeyCode::Char('q'))), Flow::Quit);
}

#[test]
fn the_prompt_stores_each_line_once() {
    let mut app = prompt::App::new();
    assert_eq!(app.current_screen, prompt::CurrentScreen::Main);
    app.absorb(&vec!["b".to_string(), "a".to_string(), "b".to_string()]);
    app.absorb(&vec!["a".to_string(), "c".to_string()]);
    let keys: Vec<&str> = app.pairs.iter().map(|(k, _)| k.as_str()).collect();
    assert_eq!(keys, vec!["b", "a", "c"]);
    assert!(app.pairs.iter().all(|(k, v)| k == v));
    app.insert("a".to_string(), "other".to_string());
    assert_eq!(app.pairs[1], ("a".to_string(), "other".to_string()));
    assert_eq!(app.pairs.len(), 3);
}

#[test]
fn the_prompt_starts_the_demo_and_takes_a_line() {
    let mut app = prompt::App::new();
    assert!(matches!(app.handle_key(press(KeyCode::Char('x'))), Request::Nothing));
    match app.handle_key(press(KeyCode::Char('c'))) {
        Request::Launch(command) => assert_eq!(
            command.command_line(),
            "echo inputtest;read varname;echo $varname;echo cmd finished"
        ),
        other => panic!("unexpected request {other:?}"),
    }
    assert!(app.waiting_for_input);
    for code in [KeyCode::Char('q'), KeyCode::Char('k'), KeyCode::Backspace, KeyCode::Char('c')] {
        assert!(matches!(app.handle_key(press(code)), Request::Nothing));
    }
    assert_eq!(app.input_buffer, "qc");
    match app.handle_key(press(KeyCode::Enter)) {
        Request::Send(text) => assert_eq!(text, "qc"),
        other => panic!("unexpected request {other:?}"),
    }
    assert!(!app.waiting_for_input);
    assert_eq!(app.input_buffer, "");
    assert!(matches!(app.handle_key(press(KeyCode::Char('q'))), Request::Quit));
}

#[test]
fn the_prompt_ignores_releases_while_it_is_not_waiting() {
    let mut app = prompt::App::new();
    let key = Key { code: KeyCode::Char('c'), modifiers: Modifiers::Unmodified, kind: KeyKind::Release };
    assert!(matches!(app.handle_key(key), Request::Nothing));
    assert!(!app.waiting_for_input);
}

fn todo_list() -> TodoList {
    TodoList::new(vec![
        TodoItem { todo: "write".to_string(), status: Status::Todo },
        TodoItem { todo: "prove".to_string(), status: Status::Completed },
    ])
}

#[test]
fn the_todo_selection_moves_without_wrapping() {
    let mut list = todo_list();
    assert_eq!(list.state.selected(), None);
    list.select_next();
    assert_eq!(list.state.selected(), Some(0));
    list.select_next();
    assert_eq!(list.state.selected(), Some(1));
    list.select_previous();
    list.select_previous();
    assert_eq!(list.state.selected(), Some(0));
    list.select_last();
    assert_eq!(list.state.selected(), Some(usize::MAX));
    list.select_next();
    assert_eq!(list.state.selected(), Some(usize::MAX));
    list.select_first();
    assert_eq!(list.state.selected(), Some(0));
    list.select_none();
    assert_eq!(list.state.selected(), None);
    list.select_previous();
    assert_eq!(list.state.selected(), Some(usize::MAX));
}

#[test]
fn select_none_moves_the_display_back_to_the_top() {
    let mut list = todo_list();
    list.select_first();
    *list.state.offset_mut() = 1;
    list.select_next();
    assert_eq!(list.state.offset(), 1);
    list.select_none();
    assert_eq!(list.state.offset(), 0);
}

#[test]
fn toggle_flips_the_selected_entry_only() {
    let mut list = todo_list();
    list.toggle_status();
    assert_eq!(list.items[0].status, Status::Todo);
    list.select_first();
    list.toggle_status();
    assert_eq!(list.items[0].status, Status::Completed);
    assert_eq!(list.items[1].status, Status::Completed);
    list.toggle_status();
    assert_eq!(list.items[0].status, Status::Todo);
    list.select_next();
    list.toggle_status();
    assert_eq!(list.items[1].status, Status::Todo);
    assert_eq!(list.items[1].todo, "prove");
}
