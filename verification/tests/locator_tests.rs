use aim2go::RawWindow;
use aim2go::WindowHandle;
use aim2go::check_requirements;
use aim2go::directory_plan;
use aim2go::enumerate_windows;
use aim2go::requirements_met;
use aim2go::select_window;

fn raw(hwnd: usize, title: &str, visible: bool) -> RawWindow {
    RawWindow { hwnd, title: title.to_string(), visible }
}

#[test]
fn enumeration_keeps_only_visible_titled_windows() {
    let raws = vec![
        raw(1, "Untitled - Notepad", true),
        raw(2, "", true),
        raw(3, "Hidden window", false),
        raw(4, "Calculator", true),
    ];
    let windows = enumerate_windows(&raws);
    let titles: Vec<&str> = windows.iter().map(|w| w.title.as_str()).collect();
    assert_eq!(titles, vec!["Untitled - Notepad", "Calculator"]);
    assert_eq!(windows[0].hwnd, 1);
    assert_eq!(windows[1].hwnd, 4);
}

#[test]
fn selecting_from_zero_windows_returns_none() {
    let windows: Vec<WindowHandle> = Vec::new();
    assert!(select_window(&windows, Some(0)).is_none());
    assert!(select_window(&windows, None).is_none());
}

#[test]
fn selecting_a_valid_index_returns_that_window() {
    let raws = vec![raw(7, "Untitled - Notepad", true), raw(8, "Calculator", true)];
    let windows = enumerate_windows(&raws);
    let picked = select_window(&windows, Some(1)).expect("index in range");
    assert_eq!(picked.hwnd, 8);
    assert_eq!(picked.title, "Calculator");
}

#[test]
fn selecting_out_of_range_or_cancelled_returns_none() {
    let raws = vec![raw(7, "Untitled - Notepad", true)];
    let windows = enumerate_windows(&raws);
    assert!(select_window(&windows, Some(1)).is_none());
    assert!(select_window(&windows, None).is_none());
}

#[test]
fn requirements_need_every_piece() {
    assert!(requirements_met(true, true, true, true));
    assert!(!requirements_met(false, true, true, true));
    assert!(!requirements_met(true, false, true, true));
    assert!(!requirements_met(true, true, false, true));
    assert!(!requirements_met(true, true, true, false));
}

#[test]
fn requirements_fail_for_a_missing_directory() {
    assert!(!check_requirements("no_such_game_directory_here"));
}

#[test]
fn directory_plan_lists_game_dataset_and_model() {
    let plan = directory_plan("notepad");
    assert_eq!(plan, vec!["notepad", "notepad/dataset", "notepad/model"]);
}
