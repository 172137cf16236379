//! Key handling: how one key press changes the controller.

use vstd::prelude::*;

use crate::app::App;
use crate::app::Mode;
use crate::app::mode_of;
use crate::app::next_menu_index;
use crate::event::KeyCode;
use crate::event::KeyEvent;

verus! {

/// The controller after one key press: `q` or control-`c` quits, `j`/`k`
/// and the arrow keys move the menu selection while in the menu, enter
/// activates the selected item, and escape returns to the menu.
pub open spec fn spec_handle_key(app: App, e: KeyEvent) -> App {
    let menu_len = app.menu_items@.len() as int;
    let menu_down = App {
        menu_state: next_menu_index(app.menu_state as int, 1, menu_len) as usize,
        ..app
    };
    let menu_up = App {
        menu_state: next_menu_index(app.menu_state as int, -1, menu_len) as usize,
        ..app
    };
    match e.code {
        KeyCode::Char(c) => if c == 'q' {
            App { running: false, ..app }
        } else if (c == 'c' || c == 'C') && e.ctrl {
            App { running: false, ..app }
        } else if (c == 'j' || c == 'J') && app.mode == Mode::Menu {
            menu_down
        } else if (c == 'k' || c == 'K') && app.mode == Mode::Menu {
            menu_up
        } else {
            app
        },
        KeyCode::Down => if app.mode == Mode::Menu {
            menu_down
        } else {
            app
        },
        KeyCode::Up => if app.mode == Mode::Menu {
            menu_up
        } else {
            app
        },
        KeyCode::Enter => if app.mode == Mode::Menu {
            App { mode: mode_of(app.menu_items@[app.menu_state as int]@), ..app }
        } else {
            app
        },
        KeyCode::Esc => App { mode: Mode::Menu, ..app },
        KeyCode::Other => app,
    }
}

/// Applies one key press to the controller.
pub fn handle_key_events(key_event: KeyEvent, app: &mut App)
    requires
        old(app).wf(),
    ensures
        final(app).wf(),
        *final(app) == spec_handle_key(*old(app), key_event),
{
    match key_event.code {
        KeyCode::Char(c) => {
            if c == 'q' {
                app.quit();
            } else if (c == 'c' || c == 'C') && key_event.ctrl {
                app.quit();
            } else if (c == 'j' || c == 'J') && matches!(app.mode, Mode::Menu) {
                let n = app.menu_items.len();
                app.update_menu_state(1, n);
            } else if (c == 'k' || c == 'K') && matches!(app.mode, Mode::Menu) {
                let n = app.menu_items.len();
                app.update_menu_state(-1, n);
            }
        },
        KeyCode::Down => {
            if matches!(app.mode, Mode::Menu) {
                let n = app.menu_items.len();
                app.update_menu_state(1, n);
            }
        },
        KeyCode::Up => {
            if matches!(app.mode, Mode::Menu) {
                let n = app.menu_items.len();
                app.update_menu_state(-1, n);
            }
        },
        KeyCode::Enter => {
            if matches!(app.mode, Mode::Menu) {
                app.select_mode();
            }
        },
        KeyCode::Esc => {
            app.mode = Mode::Menu;
        },
        KeyCode::Other => {},
    }
}

} // verus!
