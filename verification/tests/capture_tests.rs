use aim2go::capture::CandidateWindow;
use aim2go::capture::CaptureWorker;
use aim2go::capture::ResourceError;
use aim2go::capture::Timestamp;
use aim2go::capture::frame_budget_ms;
use aim2go::capture::frame_file_name;
use aim2go::capture::frame_path;
use aim2go::capture::should_capture;
use aim2go::capture::sleep_remainder_ms;
use aim2go::thread::ThreadHandler;
use aim2go::thread::ThreadType;

fn window(handle: usize, title: &str, minimized: bool) -> CandidateWindow {
    CandidateWindow { handle, title: title.to_string(), minimized }
}

fn ts(year: u16, month: u8, day: u8, hour: u8, minute: u8, second: u8, millis: u16) -> Timestamp {
    Timestamp { year, month, day, hour, minute, second, millis }
}

#[test]
fn filter_rejects_unrelated_titles() {
    assert!(should_capture("Untitled - Notepad", "Notepad", false));
    assert!(!should_capture("Calculator", "Notepad", false));
    assert!(!should_capture("", "Notepad", false));
    assert!(should_capture("Notepad", "", false));
}

#[test]
fn filter_rejects_minimized_windows() {
    assert!(!should_capture("Untitled - Notepad", "Notepad", true));
}

#[test]
fn cycle_picks_only_matching_unminimized_windows() {
    let worker =
        CaptureWorker::start("Notepad", 10, "notepad/dataset", true).expect("worker starts");
    let windows = vec![
        window(11, "Untitled - Notepad", false),
        window(12, "Calculator", false),
        window(13, "Notepad++", true),
        window(14, "steam", false),
        window(15, "notes - Notepad", false),
    ];
    let picks = worker.cycle(true, &windows);
    assert_eq!(picks, vec![0, 4]);
}

#[test]
fn cycle_when_not_capturing_picks_nothing() {
    let worker =
        CaptureWorker::start("Notepad", 10, "notepad/dataset", true).expect("worker starts");
    let windows = vec![window(11, "Untitled - Notepad", false)];
    let picks = worker.cycle(false, &windows);
    assert!(picks.is_empty());
}

#[test]
fn start_without_dataset_directory_fails() {
    let r = CaptureWorker::start("Notepad", 10, "notepad/dataset", false);
    assert_eq!(r.err(), Some(ResourceError));
}

#[test]
fn frame_budget_divides_one_second() {
    assert_eq!(frame_budget_ms(10), 100);
    assert_eq!(frame_budget_ms(1), 1000);
    assert_eq!(frame_budget_ms(3), 333);
    assert_eq!(frame_budget_ms(144), 6);
}

#[test]
fn sleep_remainder_floors_at_zero() {
    assert_eq!(sleep_remainder_ms(100, 30), 70);
    assert_eq!(sleep_remainder_ms(100, 100), 0);
    assert_eq!(sleep_remainder_ms(100, 250), 0);
    assert_eq!(sleep_remainder_ms(0, 0), 0);
}

#[test]
fn frame_file_name_encodes_title_and_timestamp() {
    let name = frame_file_name("Notepad", &ts(2026, 1, 2, 3, 4, 5, 6));
    assert_eq!(name, b"Notepad-20260102030405006.png".to_vec());
}

#[test]
fn frame_path_stays_under_dataset_directory() {
    let name = frame_file_name("Notepad", &ts(2026, 1, 2, 3, 4, 5, 6));
    let path = frame_path("notepad/dataset", &name);
    assert_eq!(path, b"notepad/dataset/Notepad-20260102030405006.png".to_vec());
    assert!(path.starts_with(b"notepad/dataset/"));
}

#[test]
fn frame_file_name_pads_small_fields_with_zeros() {
    let name = frame_file_name("X", &ts(0, 1, 1, 0, 0, 0, 0));
    assert_eq!(name, b"X-00000101000000000.png".to_vec());
}

#[test]
fn frame_file_name_fits_the_largest_timestamp() {
    let name = frame_file_name("X", &ts(9999, 12, 31, 23, 59, 59, 999));
    assert_eq!(name, b"X-99991231235959999.png".to_vec());
}

#[test]
fn frame_names_sort_by_time() {
    let earlier = frame_file_name("Notepad", &ts(2026, 1, 2, 3, 4, 5, 999));
    let later = frame_file_name("Notepad", &ts(2026, 1, 2, 3, 4, 6, 0));
    assert!(earlier < later);
}

#[test]
fn one_second_of_capture_at_ten_fps() {
    // Target substring "Notepad", ten frames per second, frames kept under
    // notepad/dataset.  The clock and the screenshots are simulated: each
    // cycle costs no simulated time, so the worker sleeps its full budget.
    let dataset_dir = "notepad/dataset";
    let worker = CaptureWorker::start("Notepad", 10, dataset_dir, true).expect("worker starts");
    assert_eq!(worker.budget_ms, 100);

    let mut supervisor = ThreadHandler::new();
    supervisor.start_thread(ThreadType::Capture);

    let windows = vec![window(11, "Untitled - Notepad", false), window(12, "steam", false)];

    let mut persisted: Vec<Vec<u8>> = Vec::new();
    let mut now_ms: u64 = 0;
    while now_ms < 1000 {
        let picks = worker.cycle(supervisor.is_capturing(), &windows);
        for i in picks {
            let stamp = ts(
                2026,
                1,
                2,
                3,
                4,
                (now_ms / 1000) as u8,
                (now_ms % 1000) as u16,
            );
            let name = frame_file_name(&windows[i].title, &stamp);
            persisted.push(frame_path(dataset_dir, &name));
        }
        let elapsed = 0;
        now_ms += worker.budget_ms.max(sleep_remainder_ms(worker.budget_ms, elapsed));
    }
    supervisor.stop_thread(ThreadType::Capture);

    assert!(persisted.len() >= 8 && persisted.len() <= 12);
    assert_eq!(persisted.len(), 10);
    for pair in persisted.windows(2) {
        assert!(pair[0] < pair[1]);
    }
    for path in &persisted {
        assert!(path.starts_with(b"notepad/dataset/"));
    }

    // After the stop the flag reads false and a further cycle selects
    // nothing, so no frame can be written.
    assert!(!supervisor.is_capturing());
    let after = worker.cycle(supervisor.is_capturing(), &windows);
    assert!(after.is_empty());
}
