use aim2go::thread::ThreadHandler;
use aim2go::thread::ThreadType;

#[test]
fn start_registers_task() {
    let mut h = ThreadHandler::new();
    assert_eq!(h.task_count(), 0);
    assert!(!h.is_registered(ThreadType::GameOverlay));
    let id = h.start_thread(ThreadType::GameOverlay);
    assert!(id.is_some());
    assert_eq!(h.task_count(), 1);
    assert!(h.is_registered(ThreadType::GameOverlay));
}

#[test]
fn start_twice_keeps_single_instance() {
    let mut h = ThreadHandler::new();
    let first = h.start_thread(ThreadType::GameOverlay);
    let second = h.start_thread(ThreadType::GameOverlay);
    assert!(first.is_some());
    assert!(second.is_none());
    assert_eq!(h.task_count(), 1);
}

#[test]
fn start_twice_capture_keeps_single_instance() {
    let mut h = ThreadHandler::new();
    assert!(h.start_thread(ThreadType::Capture).is_some());
    assert!(h.start_thread(ThreadType::Capture).is_none());
    assert_eq!(h.task_count(), 1);
    assert!(h.is_capturing());
}

#[test]
fn independent_names_coexist() {
    let mut h = ThreadHandler::new();
    assert!(h.start_thread(ThreadType::GameOverlay).is_some());
    assert!(h.start_thread(ThreadType::Capture).is_some());
    assert_eq!(h.task_count(), 2);
}

#[test]
fn clean_stop_clears_flag_and_registry() {
    let mut h = ThreadHandler::new();
    let started = h.start_thread(ThreadType::Capture);
    assert!(started.is_some());
    assert!(h.is_capturing());
    let stopped = h.stop_thread(ThreadType::Capture);
    assert_eq!(stopped, started);
    assert!(!h.is_capturing());
    assert!(!h.is_registered(ThreadType::Capture));
    assert_eq!(h.task_count(), 0);
}

#[test]
fn stop_unknown_name_is_noop() {
    let mut h = ThreadHandler::new();
    assert!(h.stop_thread(ThreadType::GameOverlay).is_none());
    assert_eq!(h.task_count(), 0);
}

#[test]
fn stop_overlay_leaves_capture_running() {
    let mut h = ThreadHandler::new();
    h.start_thread(ThreadType::Capture);
    h.start_thread(ThreadType::GameOverlay);
    let stopped = h.stop_thread(ThreadType::GameOverlay);
    assert!(stopped.is_some());
    assert!(h.is_capturing());
    assert!(h.is_registered(ThreadType::Capture));
    assert!(!h.is_registered(ThreadType::GameOverlay));
    assert_eq!(h.task_count(), 1);
}
