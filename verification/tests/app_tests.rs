use aim2go::app::App;
use aim2go::app::ControlAction;
use aim2go::app::Mode;
use aim2go::event::KeyCode;
use aim2go::event::KeyEvent;
use aim2go::event::check_global_inputs;
use aim2go::event::Event;
use aim2go::handler::handle_key_events;
use aim2go::thread::ThreadType;

fn fresh_app() -> App {
    App::new("notepad", 42, "LOGO", 0)
}

fn key(code: KeyCode) -> KeyEvent {
    KeyEvent { code, ctrl: false }
}

#[test]
fn new_app_starts_in_menu() {
    let app = fresh_app();
    assert!(app.running);
    assert_eq!(app.mode, Mode::Menu);
    assert_eq!(app.game, "notepad");
    assert_eq!(app.game_window, 42);
    assert_eq!(app.menu_state, 0);
    assert_eq!(
        app.menu_items,
        vec!["Execute", "Model", "Config", "Settings", "Quit"]
    );
    assert!(app.log.is_empty());
    assert!(app.is_overlay_active);
    assert!(!app.overlay_was_active);
}

#[test]
fn menu_selection_wraps_both_ways() {
    let mut app = fresh_app();
    let count = app.menu_items.len();
    app.update_menu_state(-1, count);
    assert_eq!(app.menu_state, 4);
    app.update_menu_state(1, count);
    assert_eq!(app.menu_state, 0);
    app.update_menu_state(1, count);
    assert_eq!(app.menu_state, 1);
    app.update_menu_state(-1, count);
    assert_eq!(app.menu_state, 0);
}

#[test]
fn select_mode_follows_menu_labels() {
    let mut app = fresh_app();
    app.select_mode();
    assert_eq!(app.mode, Mode::Execute);
    app.menu_state = 4;
    app.select_mode();
    assert_eq!(app.mode, Mode::Quit);
    app.menu_state = 2;
    app.select_mode();
    assert_eq!(app.mode, Mode::Config);
}

#[test]
fn quit_key_stops_the_app() {
    let mut app = fresh_app();
    handle_key_events(key(KeyCode::Char('q')), &mut app);
    assert!(!app.running);
}

#[test]
fn control_c_stops_the_app_but_plain_c_does_not() {
    let mut app = fresh_app();
    handle_key_events(key(KeyCode::Char('c')), &mut app);
    assert!(app.running);
    handle_key_events(KeyEvent { code: KeyCode::Char('c'), ctrl: true }, &mut app);
    assert!(!app.running);
}

#[test]
fn navigation_keys_move_the_menu() {
    let mut app = fresh_app();
    handle_key_events(key(KeyCode::Char('j')), &mut app);
    assert_eq!(app.menu_state, 1);
    handle_key_events(key(KeyCode::Down), &mut app);
    assert_eq!(app.menu_state, 2);
    handle_key_events(key(KeyCode::Char('k')), &mut app);
    assert_eq!(app.menu_state, 1);
    handle_key_events(key(KeyCode::Up), &mut app);
    assert_eq!(app.menu_state, 0);
}

#[test]
fn enter_activates_and_escape_returns_to_menu() {
    let mut app = fresh_app();
    handle_key_events(key(KeyCode::Enter), &mut app);
    assert_eq!(app.mode, Mode::Execute);
    handle_key_events(key(KeyCode::Down), &mut app);
    assert_eq!(app.menu_state, 0, "navigation is menu-only");
    handle_key_events(key(KeyCode::Esc), &mut app);
    assert_eq!(app.mode, Mode::Menu);
}

#[test]
fn log_message_appends() {
    let mut app = fresh_app();
    app.log_message("[PROCESS] Overlay started!");
    app.log_message("[PROCESS] Game overlay stopped.");
    assert_eq!(
        app.log,
        vec!["[PROCESS] Overlay started!", "[PROCESS] Game overlay stopped."]
    );
}

#[test]
fn logo_width_is_the_widest_line() {
    let app = App::new("notepad", 42, "ab\nabcd\nx", 0);
    assert_eq!(app.logo_width, 4);
    assert_eq!(app.logo_gradient, 4);
}

#[test]
fn empty_logo_gets_unit_width() {
    let app = App::new("notepad", 42, "", 0);
    assert_eq!(app.logo_width, 1);
}

#[test]
fn trailing_newline_opens_no_line() {
    let app = App::new("notepad", 42, "abc\n", 0);
    assert_eq!(app.logo_width, 3);
}

#[test]
fn menu_tick_advances_and_wraps_gradient() {
    let mut app = App::new("notepad", 42, "AB", 0);
    assert_eq!(app.logo_gradient, 2);
    assert_eq!(app.tick(1), ControlAction::Nothing);
    assert_eq!(app.logo_gradient, 0);
    app.tick(2);
    assert_eq!(app.logo_gradient, 1);
    app.tick(3);
    assert_eq!(app.logo_gradient, 2);
    app.tick(4);
    assert_eq!(app.logo_gradient, 0);
}

#[test]
fn execute_tick_is_rate_limited() {
    let mut app = fresh_app();
    app.mode = Mode::Execute;
    let action = app.tick(499);
    assert_eq!(action, ControlAction::Nothing);
    assert!(!app.overlay_was_active);
    assert_eq!(app.last_overlay_check, 0);
}

#[test]
fn execute_tick_starts_and_stops_the_overlay() {
    let mut app = fresh_app();
    app.mode = Mode::Execute;

    let action = app.tick(500);
    match action {
        ControlAction::StartOverlay(_) => {}
        other => panic!("expected a start action, got {:?}", other),
    }
    assert!(app.overlay_was_active);
    assert!(app.thread_handler.is_registered(ThreadType::GameOverlay));
    assert_eq!(app.last_overlay_check, 500);
    assert_eq!(app.log, vec!["[PROCESS] Overlay started!"]);

    // Still wanted: the next due check changes nothing.
    let action = app.tick(1000);
    assert_eq!(action, ControlAction::Nothing);
    assert_eq!(app.thread_handler.task_count(), 1);

    // No longer wanted: the next due check stops it.
    app.is_overlay_active = false;
    let action = app.tick(1500);
    match action {
        ControlAction::StopOverlay(_) => {}
        other => panic!("expected a stop action, got {:?}", other),
    }
    assert!(!app.overlay_was_active);
    assert!(!app.thread_handler.is_registered(ThreadType::GameOverlay));
    assert_eq!(
        app.log,
        vec!["[PROCESS] Overlay started!", "[PROCESS] Game overlay stopped."]
    );
}

#[test]
fn quit_tick_stops_running() {
    let mut app = fresh_app();
    app.mode = Mode::Quit;
    app.tick(1);
    assert!(!app.running);
}

#[test]
fn global_escape_needs_both_keys() {
    assert_eq!(check_global_inputs(true, true), Some(Event::GlobalKey(27)));
    assert_eq!(check_global_inputs(true, false), None);
    assert_eq!(check_global_inputs(false, true), None);
    assert_eq!(check_global_inputs(false, false), None);
}
