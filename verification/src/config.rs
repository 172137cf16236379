//! Configuration values for the application and for one game: what the
//! overlay draws, how fast capture and UI loops run, and which keys map to
//! which actions.  Loading and saving these values is file I/O and lives
//! outside this crate; here the values are built and updated.

use vstd::prelude::*;
use vstd::string::StringExecFns;

verus! {

/// A red, green, blue colour triple.
#[derive(Clone, Copy, Debug, PartialEq, Eq, Structural)]
pub struct Rgb {
    pub red: u8,
    pub green: u8,
    pub blue: u8,
}

/// Which glyph the overlay draws at the target's centre.
#[derive(Clone, Copy, Debug, PartialEq, Eq, Structural)]
pub enum CrosshairType {
    Dot,
    Cross,
}

/// Overlay drawing settings, loaded once at overlay creation and never
/// re-read mid-loop.
#[derive(Debug, Clone)]
pub struct OverlayConfig {
    pub render: Vec<String>,
    pub crosshair_type: CrosshairType,
    pub crosshair_size: u8,
    pub crosshair_color: Rgb,
    pub class_radial_size: u16,
    pub class_radial_position: Vec<(u16, u16)>,
    pub hud_ascii: String,
}

/// Actions a keybind can trigger.
#[derive(Clone, Copy, Debug, PartialEq, Eq, Structural)]
pub enum Actions {
    ClickCapture,
    ClassCaptureWheel,
    SnapAim,
    CloseOverlay,
    Quit,
}

/// Key-to-action tables, kept as association lists in binding order.
#[derive(Debug, Clone)]
pub struct KeybindConfig {
    pub keyboard: Vec<(String, Actions)>,
    pub mouse: Vec<(String, Actions)>,
}

/// Game-specific settings.
#[derive(Debug, Clone)]
pub struct GameConfig {
    pub overlay: OverlayConfig,
    pub keybinds: KeybindConfig,
}

/// Application-wide settings.
#[derive(Debug, Clone)]
pub struct AppConfig {
    pub tick_rate: u64,
    pub frame_rate: u64,
    pub theme: String,
    pub ascii_art: String,
}

/// Everything the configuration file holds.
#[derive(Debug, Clone)]
pub struct Config {
    pub app: AppConfig,
    pub game: GameConfig,
}

/// Directory holding a game's files: `./<game>`.
pub fn get_game_config_dir(game: &str) -> (r: String)
    ensures
        r@ == "./"@ + game@,
{
    let mut s = String::new();
    s.append("./");
    s.append(game);
    proof {
        assert(s@ =~= "./"@ + game@);
    }
    s
}

/// Path of a game's configuration file: `./<game>/config.yaml`.
pub fn get_game_config_file(game: &str) -> (r: String)
    ensures
        r@ == "./"@ + game@ + "/config.yaml"@,
{
    let mut s = get_game_config_dir(game);
    s.append("/config.yaml");
    s
}

/// The configuration a fresh game directory starts out with.  The caller
/// persists it; this builds the value.
pub fn create_default_game_config() -> (r: Config)
    ensures
        r.app.tick_rate == 60,
        r.app.frame_rate == 144,
        r.app.theme@ == "magenta"@,
        r.game.overlay.render@.len() == 4,
        r.game.overlay.render@[0]@ == "HUD"@,
        r.game.overlay.render@[1]@ == "Crosshair"@,
        r.game.overlay.render@[2]@ == "ESP"@,
        r.game.overlay.render@[3]@ == "ActiveRadius"@,
        r.game.overlay.crosshair_type == CrosshairType::Dot,
        r.game.overlay.crosshair_size == 5,
        r.game.overlay.crosshair_color == (Rgb { red: 255, green: 0, blue: 255 }),
        r.game.overlay.class_radial_size == 100,
        r.game.overlay.class_radial_position@.len() == 0,
        r.game.overlay.hud_ascii@ == "default"@,
        r.game.keybinds.keyboard@.len() == 3,
        r.game.keybinds.keyboard@[0].0@ == "CTRL+Q"@,
        r.game.keybinds.keyboard@[0].1 == Actions::ClassCaptureWheel,
        r.game.keybinds.keyboard@[1].0@ == "CTRL+ESC"@,
        r.game.keybinds.keyboard@[1].1 == Actions::CloseOverlay,
        r.game.keybinds.keyboard@[2].0@ == "CTRL+SHIFT+ESC"@,
        r.game.keybinds.keyboard@[2].1 == Actions::Quit,
        r.game.keybinds.mouse@.len() == 2,
        r.game.keybinds.mouse@[0].0@ == "LMB"@,
        r.game.keybinds.mouse@[0].1 == Actions::ClickCapture,
        r.game.keybinds.mouse@[1].0@ == "RMB"@,
        r.game.keybinds.mouse@[1].1 == Actions::SnapAim,
{
    let mut render: Vec<String> = Vec::new();
    render.push(String::from_str("HUD"));
    render.push(String::from_str("Crosshair"));
    render.push(String::from_str("ESP"));
    render.push(String::from_str("ActiveRadius"));
    let mut keyboard: Vec<(String, Actions)> = Vec::new();
    keyboard.push((String::from_str("CTRL+Q"), Actions::ClassCaptureWheel));
    keyboard.push((String::from_str("CTRL+ESC"), Actions::CloseOverlay));
    keyboard.push((String::from_str("CTRL+SHIFT+ESC"), Actions::Quit));
    let mut mouse: Vec<(String, Actions)> = Vec::new();
    mouse.push((String::from_str("LMB"), Actions::ClickCapture));
    mouse.push((String::from_str("RMB"), Actions::SnapAim));
    Config {
        app: AppConfig {
            tick_rate: 60,
            frame_rate: 144,
            theme: String::from_str("magenta"),
            ascii_art: String::from_str("aim2go"),
        },
        game: GameConfig {
            overlay: OverlayConfig {
                render,
                crosshair_type: CrosshairType::Dot,
                crosshair_size: 5,
                crosshair_color: Rgb { red: 255, green: 0, blue: 255 },
                class_radial_size: 100,
                class_radial_position: Vec::new(),
                hud_ascii: String::from_str("default"),
            },
            keybinds: KeybindConfig { keyboard, mouse },
        },
    }
}

/// Replaces the game section of a configuration, keeping the application
/// section; the caller loads the old value and persists the new one.
pub fn update_game_config(config: Config, new_game: GameConfig) -> (r: Config)
    ensures
        r.app == config.app,
        r.game == new_game,
{
    Config { app: config.app, game: new_game }
}

} // verus!
