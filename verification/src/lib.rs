//! Window-overlay and capture toolkit: a verified model of the logic that
//! tracks a target window, draws a crosshair overlay, filters and names
//! capture frames, and supervises the background tasks that do both.
//!
//! Everything that talks to the operating system (window enumeration,
//! painting, the filesystem, timers) lives outside this crate; the library
//! receives plain values from those collaborators and decides what to do
//! with them, under contracts checked by Verus.

pub mod app;
pub mod autoclicker;
pub mod capture;
pub mod cli;
pub mod config;
pub mod event;
pub mod handler;
pub mod overlay;
pub mod text;
pub mod thread;

use vstd::prelude::*;
use vstd::string::StringExecFns;

verus! {

/// Relies on `<str as PartialEq>::eq`: string slices compare equal exactly
/// when their character sequences are equal.
pub assume_specification[ <str as PartialEq>::eq ](a: &str, b: &str) -> (r: bool)
    ensures
        r == (a@ == b@),
;

/// Relies on `std::path::Path::is_dir`: whether the path names an existing
/// directory on disk.  The answer depends on the filesystem, so nothing is
/// promised of it.
#[verifier::external_body]
fn path_is_dir(path: &str) -> bool {
    std::path::Path::new(path).is_dir()
}

/// Relies on `std::path::Path::is_file`: whether the path names an existing
/// regular file on disk.  The answer depends on the filesystem, so nothing
/// is promised of it.
#[verifier::external_body]
fn path_is_file(path: &str) -> bool {
    std::path::Path::new(path).is_file()
}

/// Relies on `std::path::Path::exists`: whether the path exists on disk.
/// The answer depends on the filesystem, so nothing is promised of it.
#[verifier::external_body]
pub(crate) fn path_exists(path: &str) -> bool {
    std::path::Path::new(path).exists()
}

/// An OS-level window: its handle — a weak reference to a resource this
/// crate never frees — and its title.
#[derive(Debug, Clone)]
pub struct WindowHandle {
    pub hwnd: usize,
    pub title: String,
}

/// One window as the OS enumeration callback reports it, before filtering.
#[derive(Debug, Clone)]
pub struct RawWindow {
    pub hwnd: usize,
    pub title: String,
    pub visible: bool,
}

/// The window list the locator exposes: the visible, non-empty-titled
/// entries of the raw enumeration, in enumeration order.
pub open spec fn spec_visible_windows(raw: Seq<RawWindow>) -> Seq<WindowHandle>
    decreases raw.len(),
{
    if raw.len() == 0 {
        Seq::empty()
    } else {
        let rest = spec_visible_windows(raw.drop_last());
        let w = raw.last();
        if w.visible && w.title@.len() > 0 {
            rest.push(WindowHandle { hwnd: w.hwnd, title: w.title })
        } else {
            rest
        }
    }
}

/// Filters a raw window enumeration down to the windows a user can select:
/// visible ones with a non-empty title, order preserved.  A failed OS
/// enumeration is handed in as an empty list and simply yields none.
pub fn enumerate_windows(raw: &Vec<RawWindow>) -> (r: Vec<WindowHandle>)
    ensures
        r@ == spec_visible_windows(raw@),
{
    let mut r: Vec<WindowHandle> = Vec::new();
    let n = raw.len();
    let mut i: usize = 0;
    while i < n
        invariant
            n == raw@.len(),
            0 <= i <= n,
            r@ == spec_visible_windows(raw@.take(i as int)),
        decreases n - i,
    {
        let w = &raw[i];
        if w.visible && !w.title.as_str().is_empty() {
            r.push(WindowHandle { hwnd: w.hwnd, title: w.title.clone() });
        }
        proof {
            let t = raw@.take(i + 1);
            assert(t.drop_last() =~= raw@.take(i as int));
            assert(t.last() == raw@[i as int]);
        }
        i += 1;
    }
    proof {
        assert(raw@.take(n as int) =~= raw@);
    }
    r
}

/// Picks a window from the selectable list by the index the user chose.
/// With nothing enumerated, or no choice made, or a choice out of range,
/// no window is selected — never a crash.
pub fn select_window(windows: &Vec<WindowHandle>, choice: Option<usize>) -> (r: Option<
    WindowHandle,
>)
    ensures
        r is Some <==> (choice matches Some(i) && i < windows@.len()),
        windows@.len() == 0 ==> r is None,
        r matches Some(w) ==> (choice matches Some(i) && w == windows@[i as int]),
{
    match choice {
        None => None,
        Some(i) => {
            if i < windows.len() {
                let w = &windows[i];
                Some(WindowHandle { hwnd: w.hwnd, title: w.title.clone() })
            } else {
                None
            }
        },
    }
}

/// Whether all required pieces of a game directory are present.
pub fn requirements_met(base: bool, dataset: bool, model: bool, config_file: bool) -> (r: bool)
    ensures
        r == (base && dataset && model && config_file),
{
    base && dataset && model && config_file
}

/// Checks that a game directory holds everything the tool needs: the
/// directory itself, its `dataset` and `model` subdirectories, and its
/// configuration file.
pub fn check_requirements(dir_name: &str) -> (r: bool) {
    let mut dataset = String::from_str(dir_name);
    dataset.append("/dataset");
    let mut model = String::from_str(dir_name);
    model.append("/model");
    let mut config_file = String::from_str(dir_name);
    config_file.append("/config.yaml");
    let base_ok = path_is_dir(dir_name);
    let dataset_ok = path_is_dir(dataset.as_str());
    let model_ok = path_is_dir(model.as_str());
    let config_ok = path_is_file(config_file.as_str());
    requirements_met(base_ok, dataset_ok, model_ok, config_ok)
}

/// The directories a new game needs, in creation order: the game directory
/// itself, then its `dataset` and `model` subdirectories.  The caller
/// creates each (recursively) and then persists the default configuration.
pub fn directory_plan(dir_name: &str) -> (r: Vec<String>)
    ensures
        r@.len() == 3,
        r@[0]@ == dir_name@,
        r@[1]@ == dir_name@ + "/dataset"@,
        r@[2]@ == dir_name@ + "/model"@,
{
    let mut dataset = String::from_str(dir_name);
    dataset.append("/dataset");
    let mut model = String::from_str(dir_name);
    model.append("/model");
    let mut r: Vec<String> = Vec::new();
    r.push(String::from_str(dir_name));
    r.push(dataset);
    r.push(model);
    r
}

} // verus!
