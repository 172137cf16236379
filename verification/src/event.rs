//! Events the controller consumes, and the global-hotkey decision.
//!
//! Reading the terminal and polling the system's asynchronous key state
//! happen outside this crate; the decision of what those readings mean is
//! made here.

use vstd::prelude::*;

verus! {

/// A key, as the terminal reports it.
#[derive(Clone, Copy, Debug, PartialEq, Eq, Structural)]
pub enum KeyCode {
    Char(char),
    Up,
    Down,
    Enter,
    Esc,
    Other,
}

/// One key press with its control-modifier state.
#[derive(Clone, Copy, Debug, PartialEq, Eq, Structural)]
pub struct KeyEvent {
    pub code: KeyCode,
    pub ctrl: bool,
}

/// Events delivered to the controller loop.
#[derive(Clone, Copy, Debug, PartialEq, Eq, Structural)]
pub enum Event {
    /// Timer tick.
    Tick,
    /// Key press.
    Key(KeyEvent),
    /// Mouse click or scroll.
    Mouse,
    /// Terminal resize.
    Resize(u16, u16),
    /// Key press observed system-wide, by virtual-key code.
    GlobalKey(u32),
}

/// Virtual-key code of the escape key.
pub const ESCAPE_KEY_CODE: u32 = 27;

/// The global-hotkey check: escape and shift held together yield a global
/// escape event; anything else yields none.
pub fn check_global_inputs(esc_pressed: bool, shift_pressed: bool) -> (r: Option<Event>)
    ensures
        r == if esc_pressed && shift_pressed {
            Some(Event::GlobalKey(ESCAPE_KEY_CODE))
        } else {
            None::<Event>
        },
{
    if esc_pressed && shift_pressed {
        Some(Event::GlobalKey(ESCAPE_KEY_CODE))
    } else {
        None
    }
}

} // verus!
