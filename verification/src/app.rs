//! Interactive controller state: the current mode, the menu, the execution
//! log, and — while executing — the periodic decision whether the overlay
//! task must be started or stopped.
//!
//! The controller never blocks: rendering and event delivery happen outside
//! this crate, and each tick returns the action (spawn or tear down an
//! execution context) the caller performs.

use vstd::prelude::*;
use vstd::string::StringExecFns;
use vstd::string::StringSliceAdditionalSpecFns;

use crate::thread::ThreadHandler;
use crate::thread::ThreadType;
use crate::thread::spec_start;
use crate::thread::spec_stop;

verus! {

/// The controller's user-interface mode.
#[derive(Clone, Copy, Debug, PartialEq, Eq, Structural)]
pub enum Mode {
    Execute,
    Model,
    Config,
    Settings,
    Quit,
    Menu,
}

/// What the controller's caller must do after a tick: spawn the overlay
/// loop under a task id, cancel and reap the one spawned under a task id,
/// or nothing.
#[derive(Clone, Copy, Debug, PartialEq, Eq, Structural)]
pub enum ControlAction {
    StartOverlay(u64),
    StopOverlay(u64),
    Nothing,
}

/// Milliseconds that must pass between two overlay status checks, so an
/// active controller does not busy-poll the supervisor.
pub const OVERLAY_CHECK_INTERVAL_MS: u64 = 500;

/// The mode a menu item's label selects.
pub open spec fn mode_of(item: Seq<char>) -> Mode {
    if item == "Execute"@ {
        Mode::Execute
    } else if item == "Model"@ {
        Mode::Model
    } else if item == "Config"@ {
        Mode::Config
    } else if item == "Settings"@ {
        Mode::Settings
    } else if item == "Quit"@ {
        Mode::Quit
    } else {
        Mode::Menu
    }
}

/// Where the menu selection moves: down wraps past the end to the top, up
/// wraps past the top to the end.
pub open spec fn next_menu_index(selected: int, direction: int, item_count: int) -> int {
    if direction > 0 {
        (selected + 1) % item_count
    } else if selected == 0 {
        item_count - 1
    } else {
        selected - 1
    }
}

/// Controller state.
#[derive(Debug)]
pub struct App {
    /// False once the user quits; the caller's loop exits on it.
    pub running: bool,
    pub mode: Mode,
    /// Name of the attached game.
    pub game: String,
    /// Identifier of the attached target window, opaque to this crate.
    pub game_window: usize,
    /// Current position of the logo shimmer.
    pub logo_gradient: usize,
    pub logo: String,
    /// Widest logo line, fixed at construction; the shimmer wraps at it.
    pub logo_width: usize,
    /// Index of the selected menu item.
    pub menu_state: usize,
    pub menu_items: Vec<String>,
    /// Execution log, newest entry last.
    pub log: Vec<String>,
    /// The background-task supervisor this controller drives.
    pub thread_handler: ThreadHandler,
    /// Whether the overlay is wanted.
    pub is_overlay_active: bool,
    /// Whether the overlay was wanted when last checked.
    pub overlay_was_active: bool,
    /// When the overlay status was last checked, in caller milliseconds.
    pub last_overlay_check: u64,
}

/// How one overlay status check changes the controller: exactly one of
/// start, stop, or nothing, decided by the desired (`is_overlay_active`)
/// against the previous (`overlay_was_active`) state, with the supervisor
/// registry updated accordingly and the transition reported to the log.
pub open spec fn overlay_status_post(pre: App, post: App, r: ControlAction) -> bool {
    if pre.is_overlay_active && !pre.overlay_was_active {
        &&& post.overlay_was_active
        &&& post.thread_handler.has(ThreadType::GameOverlay)
        &&& (r matches ControlAction::StartOverlay(id) ==> post.thread_handler.registry()
            == spec_start(pre.thread_handler.registry(), ThreadType::GameOverlay, id))
        &&& ((r is StartOverlay) <==> !pre.thread_handler.has(ThreadType::GameOverlay))
        &&& ((r is StartOverlay) || post.thread_handler.registry()
            == pre.thread_handler.registry())
        &&& !(r is StopOverlay)
        &&& post.log@.len() == pre.log@.len() + 1
        &&& post.log@.subrange(0, pre.log@.len() as int) == pre.log@
        &&& post.log@.last()@ == "[PROCESS] Overlay started!"@
        &&& (App { thread_handler: pre.thread_handler, overlay_was_active: pre.overlay_was_active, log: pre.log, ..post })
            == pre
    } else if !pre.is_overlay_active && pre.overlay_was_active {
        &&& !post.overlay_was_active
        &&& !post.thread_handler.has(ThreadType::GameOverlay)
        &&& post.thread_handler.registry() == spec_stop(
            pre.thread_handler.registry(),
            ThreadType::GameOverlay,
        )
        &&& ((r is StopOverlay) <==> pre.thread_handler.has(ThreadType::GameOverlay))
        &&& !(r is StartOverlay)
        &&& post.log@.len() == pre.log@.len() + 1
        &&& post.log@.subrange(0, pre.log@.len() as int) == pre.log@
        &&& post.log@.last()@ == "[PROCESS] Game overlay stopped."@
        &&& (App { thread_handler: pre.thread_handler, overlay_was_active: pre.overlay_was_active, log: pre.log, ..post })
            == pre
    } else {
        post == pre && r == ControlAction::Nothing
    }
}

impl App {
    pub open spec fn wf(&self) -> bool {
        &&& self.menu_items@.len() > 0
        &&& self.menu_state < self.menu_items@.len()
        &&& self.thread_handler.wf()
    }

    /// The fixed main-menu labels.
    fn menu_labels() -> (r: Vec<String>)
        ensures
            r@.len() == 5,
            r@[0]@ == "Execute"@,
            r@[1]@ == "Model"@,
            r@[2]@ == "Config"@,
            r@[3]@ == "Settings"@,
            r@[4]@ == "Quit"@,
    {
        let mut v: Vec<String> = Vec::new();
        v.push(String::from_str("Execute"));
        v.push(String::from_str("Model"));
        v.push(String::from_str("Config"));
        v.push(String::from_str("Settings"));
        v.push(String::from_str("Quit"));
        v
    }

    /// A fresh controller, attached to `game_window`, in the menu with the
    /// first item selected; `now_ms` is the caller's clock.  The logo
    /// shimmer starts at the widest logo line, so the first tick wraps it
    /// to the left edge.
    pub fn new(game: &str, game_window: usize, logo: &str, now_ms: u64) -> (r: App)
        ensures
            r.wf(),
            r.running,
            r.mode == Mode::Menu,
            r.game@ == game@,
            r.game_window == game_window,
            r.logo@ == logo@,
            r.logo_width == crate::text::spec_max_line_len(logo.spec_bytes()),
            r.logo_gradient == r.logo_width,
            r.menu_state == 0,
            r.menu_items@.len() == 5,
            r.menu_items@[0]@ == "Execute"@,
            r.menu_items@[1]@ == "Model"@,
            r.menu_items@[2]@ == "Config"@,
            r.menu_items@[3]@ == "Settings"@,
            r.menu_items@[4]@ == "Quit"@,
            r.log@.len() == 0,
            r.thread_handler.registry() == Seq::<crate::thread::TaskEntry>::empty(),
            !r.thread_handler.capturing_flag(),
            r.is_overlay_active,
            !r.overlay_was_active,
            r.last_overlay_check == now_ms,
    {
        let logo_width = crate::text::max_line_len(logo);
        App {
            running: true,
            mode: Mode::Menu,
            game: game.to_owned(),
            game_window,
            logo_gradient: logo_width,
            logo: logo.to_owned(),
            logo_width,
            menu_state: 0,
            menu_items: Self::menu_labels(),
            log: Vec::new(),
            thread_handler: ThreadHandler::new(),
            is_overlay_active: true,
            overlay_was_active: false,
            last_overlay_check: now_ms,
        }
    }

    /// Advances the logo shimmer one column, wrapping at the widest line.
    fn increment_gradient(&mut self)
        ensures
            final(self).logo_gradient == if old(self).logo_gradient < old(self).logo_width {
                old(self).logo_gradient + 1
            } else {
                0
            },
            (App { logo_gradient: old(self).logo_gradient, ..*final(self) }) == *old(self),
    {
        if self.logo_gradient < self.logo_width {
            self.logo_gradient = self.logo_gradient + 1;
        } else {
            self.logo_gradient = 0;
        }
    }

    /// Moves the menu selection one step; positive `direction` moves down.
    pub fn update_menu_state(&mut self, direction: i8, item_count: usize)
        requires
            item_count > 0,
            old(self).menu_state < item_count,
        ensures
            final(self).menu_state == next_menu_index(
                old(self).menu_state as int,
                direction as int,
                item_count as int,
            ),
            final(self).menu_state < item_count,
            (App { menu_state: old(self).menu_state, ..*final(self) }) == *old(self),
    {
        let selected = self.menu_state;
        let new_selected: usize = if direction > 0 {
            (selected + 1) % item_count
        } else if selected == 0 {
            item_count - 1
        } else {
            selected - 1
        };
        self.menu_state = new_selected;
    }

    /// Ends the caller's loop.
    pub fn quit(&mut self)
        ensures
            !final(self).running,
            (App { running: old(self).running, ..*final(self) }) == *old(self),
    {
        self.running = false;
    }

    /// Switches to the mode named by the selected menu item; with the
    /// selection somehow out of range, nothing changes.
    pub fn select_mode(&mut self)
        ensures
            old(self).menu_state < old(self).menu_items@.len() ==> final(self).mode == mode_of(
                old(self).menu_items@[old(self).menu_state as int]@,
            ),
            old(self).menu_state < old(self).menu_items@.len() ==> (App {
                mode: old(self).mode,
                ..*final(self)
            }) == *old(self),
            old(self).menu_state >= old(self).menu_items@.len() ==> *final(self) == *old(self),
    {
        if self.menu_state < self.menu_items.len() {
            let item: &str = self.menu_items[self.menu_state].as_str();
            self.mode = if item.eq("Execute") {
                Mode::Execute
            } else if item.eq("Model") {
                Mode::Model
            } else if item.eq("Config") {
                Mode::Config
            } else if item.eq("Settings") {
                Mode::Settings
            } else if item.eq("Quit") {
                Mode::Quit
            } else {
                Mode::Menu
            };
        }
    }

    /// Appends a message to the execution log.
    pub fn log_message(&mut self, message: &str)
        ensures
            final(self).log@.len() == old(self).log@.len() + 1,
            final(self).log@.subrange(0, old(self).log@.len() as int) == old(self).log@,
            final(self).log@.last()@ == message@,
            (App { log: old(self).log, ..*final(self) }) == *old(self),
    {
        self.log.push(message.to_owned());
        proof {
            assert(self.log@.subrange(0, old(self).log@.len() as int) =~= old(self).log@);
        }
    }

    /// Compares the wanted overlay state against the last observed one and
    /// starts or stops the overlay task accordingly, logging the
    /// transition; with no change, this does nothing.
    pub fn check_overlay_status(&mut self) -> (r: ControlAction)
        requires
            old(self).wf(),
        ensures
            final(self).wf(),
            overlay_status_post(*old(self), *final(self), r),
    {
        if self.is_overlay_active {
            if !self.overlay_was_active {
                let started = self.thread_handler.start_thread(ThreadType::GameOverlay);
                self.overlay_was_active = true;
                self.log_message("[PROCESS] Overlay started!");
                match started {
                    Some(id) => ControlAction::StartOverlay(id),
                    None => ControlAction::Nothing,
                }
            } else {
                ControlAction::Nothing
            }
        } else {
            if self.overlay_was_active {
                let stopped = self.thread_handler.stop_thread(ThreadType::GameOverlay);
                self.overlay_was_active = false;
                self.log_message("[PROCESS] Game overlay stopped.");
                match stopped {
                    Some(id) => ControlAction::StopOverlay(id),
                    None => ControlAction::Nothing,
                }
            } else {
                ControlAction::Nothing
            }
        }
    }

    /// One controller tick at caller time `now_ms`.  In the menu the logo
    /// shimmer advances; while executing, the overlay status is checked at
    /// most once per `OVERLAY_CHECK_INTERVAL_MS`; in quit mode the
    /// controller stops running; other modes idle.
    pub fn tick(&mut self, now_ms: u64) -> (r: ControlAction)
        requires
            old(self).wf(),
            now_ms >= old(self).last_overlay_check,
        ensures
            final(self).wf(),
            match old(self).mode {
                Mode::Menu => r == ControlAction::Nothing && final(self).logo_gradient == (if old(
                    self,
                ).logo_gradient < old(self).logo_width {
                    old(self).logo_gradient + 1
                } else {
                    0
                }) && (App { logo_gradient: old(self).logo_gradient, ..*final(self) }) == *old(
                    self,
                ),
                Mode::Execute => {
                    if now_ms - old(self).last_overlay_check >= OVERLAY_CHECK_INTERVAL_MS {
                        &&& final(self).last_overlay_check == now_ms
                        &&& overlay_status_post(
                            App { last_overlay_check: now_ms, ..*old(self) },
                            *final(self),
                            r,
                        )
                    } else {
                        r == ControlAction::Nothing && *final(self) == *old(self)
                    }
                },
                Mode::Quit => r == ControlAction::Nothing && !final(self).running && (App {
                    running: old(self).running,
                    ..*final(self)
                }) == *old(self),
                _ => r == ControlAction::Nothing && *final(self) == *old(self),
            },
    {
        match self.mode {
            Mode::Menu => {
                self.increment_gradient();
                ControlAction::Nothing
            },
            Mode::Execute => {
                if now_ms - self.last_overlay_check >= OVERLAY_CHECK_INTERVAL_MS {
                    self.last_overlay_check = now_ms;
                    self.check_overlay_status()
                } else {
                    ControlAction::Nothing
                }
            },
            Mode::Quit => {
                self.quit();
                ControlAction::Nothing
            },
            _ => ControlAction::Nothing,
        }
    }
}

} // verus!
