//! Periodic screenshot worker: which windows a capture cycle selects, how
//! long it may sleep, and how persisted frames are named.
//!
//! The worker's outside work — taking the screenshot, encoding it, writing
//! the file, sleeping — happens beyond this crate.  Here live the decisions:
//! the per-cycle window filter, the frame budget arithmetic, and the frame
//! file naming scheme whose names grow lexicographically with time.

use vstd::prelude::*;
use vstd::string::StringSliceAdditionalSpecFns;

use crate::text::bytes_of;
use crate::text::contains_sub;
use crate::text::digits;
use crate::text::lemma_digits_len;
use crate::text::lemma_digits_lt;
use crate::text::lemma_lex_append;
use crate::text::lex_lt;
use crate::text::pow10;
use crate::text::push_digits;
use crate::text::starts_with;
use crate::text::str_contains;

verus! {

/// The dataset directory could not be set up; fatal to starting a capture
/// worker.
#[derive(Clone, Copy, Debug, PartialEq, Eq, Structural)]
pub struct ResourceError;

/// A wall-clock instant at millisecond resolution, split into calendar
/// fields as the frame-name encoder consumes them.
#[derive(Clone, Copy, Debug, PartialEq, Eq, Structural)]
pub struct Timestamp {
    pub year: u16,
    pub month: u8,
    pub day: u8,
    pub hour: u8,
    pub minute: u8,
    pub second: u8,
    pub millis: u16,
}

impl Timestamp {
    pub open spec fn wf(&self) -> bool {
        &&& self.year <= 9999
        &&& 1 <= self.month <= 12
        &&& 1 <= self.day <= 31
        &&& self.hour <= 23
        &&& self.minute <= 59
        &&& self.second <= 59
        &&& self.millis <= 999
    }

    /// The timestamp as one number whose seventeen decimal digits read
    /// `yyyyMMddHHmmssfff`.
    pub open spec fn spec_code(&self) -> nat {
        ((((((self.year as nat) * 100 + self.month as nat) * 100 + self.day as nat) * 100
            + self.hour as nat) * 100 + self.minute as nat) * 100 + self.second as nat) * 1000
            + self.millis as nat
    }

    pub fn code(&self) -> (r: u64)
        requires
            self.wf(),
        ensures
            r == self.spec_code(),
    {
        ((((((self.year as u64) * 100 + self.month as u64) * 100 + self.day as u64) * 100
            + self.hour as u64) * 100 + self.minute as u64) * 100 + self.second as u64) * 1000
            + self.millis as u64
    }
}

/// Ten to the seventeenth: the bound under which every well-formed
/// timestamp code stays.
pub proof fn lemma_pow10_17()
    ensures
        pow10(17) == 0x16345785D8A0000,
{
    reveal_with_fuel(pow10, 18);
    assert(pow10(17) == 100000000000000000) by {
        assert(pow10(0) == 1);
        assert(pow10(1) == 10);
        assert(pow10(2) == 100);
        assert(pow10(3) == 1000);
        assert(pow10(4) == 10000);
        assert(pow10(5) == 100000);
        assert(pow10(6) == 1000000);
        assert(pow10(7) == 10000000);
        assert(pow10(8) == 100000000);
        assert(pow10(9) == 1000000000);
        assert(pow10(10) == 10000000000);
        assert(pow10(11) == 100000000000);
        assert(pow10(12) == 1000000000000);
        assert(pow10(13) == 10000000000000);
        assert(pow10(14) == 100000000000000);
        assert(pow10(15) == 1000000000000000);
        assert(pow10(16) == 10000000000000000);
    }
}

pub proof fn lemma_code_bound(ts: Timestamp)
    requires
        ts.wf(),
    ensures
        ts.spec_code() < pow10(17),
{
    lemma_pow10_17();
}

/// The byte `-` separating title from timestamp in a frame name.
pub open spec fn name_separator() -> Seq<u8> {
    seq![45u8]
}

/// The bytes of the extension `.png`.
pub open spec fn png_suffix() -> Seq<u8> {
    seq![46u8, 112u8, 110u8, 103u8]
}

/// The name of a persisted frame: the window title, a separator, the
/// seventeen timestamp digits, and the `.png` extension.
pub open spec fn frame_name_spec(title: Seq<u8>, ts: Timestamp) -> Seq<u8> {
    title + name_separator() + digits(ts.spec_code(), 17) + png_suffix()
}

/// Builds the file name a frame of `title` captured at `ts` is stored
/// under.
pub fn frame_file_name(title: &str, ts: &Timestamp) -> (r: Vec<u8>)
    requires
        ts.wf(),
    ensures
        r@ == frame_name_spec(title.spec_bytes(), *ts),
{
    let mut v: Vec<u8> = Vec::new();
    v.extend_from_slice(title.as_bytes());
    v.push(45);
    proof {
        lemma_code_bound(*ts);
        assert(v@ =~= title.spec_bytes() + name_separator());
    }
    push_digits(&mut v, ts.code(), 17);
    v.push(46);
    v.push(112);
    v.push(110);
    v.push(103);
    proof {
        assert(v@ =~= frame_name_spec(title.spec_bytes(), *ts));
    }
    v
}

/// Joins a frame name onto the dataset directory.  Every path built here
/// starts with the dataset directory: frames are never written outside it.
pub fn frame_path(dataset_dir: &str, name: &Vec<u8>) -> (r: Vec<u8>)
    ensures
        r@ == dataset_dir.spec_bytes() + seq![47u8] + name@,
        starts_with(r@, dataset_dir.spec_bytes()),
{
    let mut v: Vec<u8> = Vec::new();
    v.extend_from_slice(dataset_dir.as_bytes());
    v.push(47);
    v.extend_from_slice(name.as_slice());
    proof {
        assert(v@ =~= dataset_dir.spec_bytes() + seq![47u8] + name@);
        assert(v@.subrange(0, dataset_dir.spec_bytes().len() as int) =~= dataset_dir.spec_bytes());
    }
    v
}

/// Frame names of one window are ordered like their timestamps: a later
/// well-formed timestamp gives a lexicographically larger name, so names
/// written in time order sort in time order.
pub proof fn lemma_frame_name_ordered(title: Seq<u8>, t1: Timestamp, t2: Timestamp)
    requires
        t1.wf(),
        t2.wf(),
        t1.spec_code() < t2.spec_code(),
    ensures
        lex_lt(frame_name_spec(title, t1), frame_name_spec(title, t2)),
{
    lemma_code_bound(t2);
    lemma_digits_lt(t1.spec_code(), t2.spec_code(), 17);
    lemma_digits_len(t1.spec_code(), 17);
    lemma_digits_len(t2.spec_code(), 17);
    lemma_lex_append(
        title + name_separator(),
        digits(t1.spec_code(), 17),
        digits(t2.spec_code(), 17),
        png_suffix(),
        png_suffix(),
    );
}

/// One enumerated window as a capture cycle inspects it.
#[derive(Debug, Clone)]
pub struct CandidateWindow {
    /// Identifier of the underlying window, opaque to this crate.
    pub handle: usize,
    pub title: String,
    pub minimized: bool,
}

/// A window is captured exactly when its title contains the target
/// substring and it is not minimized.
pub open spec fn spec_passes(title: Seq<u8>, target: Seq<u8>, minimized: bool) -> bool {
    contains_sub(title, target) && !minimized
}

/// The per-cycle filter on one window.
pub fn should_capture(title: &str, target: &str, minimized: bool) -> (r: bool)
    ensures
        r == spec_passes(title.spec_bytes(), target.spec_bytes(), minimized),
{
    if minimized {
        false
    } else {
        str_contains(title, target)
    }
}

/// Per-frame time budget, in milliseconds, for a worker running at `fps`
/// frames per second.
pub fn frame_budget_ms(fps: u64) -> (r: u64)
    requires
        fps >= 1,
    ensures
        r == 1000int / fps as int,
{
    1000 / fps
}

/// How long a cycle sleeps after its work took `elapsed_ms`: the remainder
/// of the budget, and nothing at all once the budget is exceeded — an
/// overrunning worker simply produces frames at a lower rate.
pub fn sleep_remainder_ms(budget_ms: u64, elapsed_ms: u64) -> (r: u64)
    ensures
        r as int == if elapsed_ms >= budget_ms {
            0int
        } else {
            budget_ms - elapsed_ms
        },
{
    if elapsed_ms >= budget_ms {
        0
    } else {
        budget_ms - elapsed_ms
    }
}

/// The capture worker's configuration, fixed at start: target title
/// substring, per-frame budget, and the dataset directory under which every
/// frame is stored.
#[derive(Debug, Clone)]
pub struct CaptureWorker {
    pub target: String,
    pub budget_ms: u64,
    pub dataset_dir: String,
}

impl CaptureWorker {
    /// Starts a worker.  The caller reports whether the dataset directory
    /// exists (creating it first if needed); without the directory the start
    /// is refused and no worker runs.
    pub fn start(target: &str, fps: u64, dataset_dir: &str, dataset_dir_ready: bool) -> (r: Result<
        CaptureWorker,
        ResourceError,
    >)
        requires
            fps >= 1,
        ensures
            r is Ok <==> dataset_dir_ready,
            r matches Ok(w) ==> w.target@ == target@ && w.budget_ms == 1000int / fps as int
                && w.dataset_dir@ == dataset_dir@,
    {
        if !dataset_dir_ready {
            return Err(ResourceError);
        }
        Ok(
            CaptureWorker {
                target: target.to_owned(),
                budget_ms: frame_budget_ms(fps),
                dataset_dir: dataset_dir.to_owned(),
            },
        )
    }

    /// Which of the currently enumerated windows this cycle captures, as
    /// indices into `windows`, in enumeration order.  While the shared
    /// capturing flag reads false the cycle captures nothing — this is what
    /// makes a stop request final: no frame is selected, so none is written.
    pub fn cycle(&self, capturing: bool, windows: &Vec<CandidateWindow>) -> (picks: Vec<usize>)
        ensures
            !capturing ==> picks@.len() == 0,
            forall|k: int|
                0 <= k < picks@.len() ==> picks@[k] < windows@.len(),
            forall|k: int|
                #![trigger picks@[k]]
                0 <= k < picks@.len() ==> spec_passes(
                    bytes_of(windows@[picks@[k] as int].title@),
                    bytes_of(self.target@),
                    windows@[picks@[k] as int].minimized,
                ),
            capturing ==> forall|i: int|
                0 <= i < windows@.len() && spec_passes(
                    bytes_of((#[trigger] windows@[i]).title@),
                    bytes_of(self.target@),
                    windows@[i].minimized,
                ) ==> exists|k: int| 0 <= k < picks@.len() && picks@[k] == i,
            forall|k1: int, k2: int|
                0 <= k1 < k2 < picks@.len() ==> picks@[k1] < picks@[k2],
    {
        let mut picks: Vec<usize> = Vec::new();
        if !capturing {
            return picks;
        }
        let n = windows.len();
        let mut i: usize = 0;
        while i < n
            invariant
                n == windows@.len(),
                0 <= i <= n,
                forall|k: int| 0 <= k < picks@.len() ==> picks@[k] < i,
                forall|k: int|
                    #![trigger picks@[k]]
                    0 <= k < picks@.len() ==> spec_passes(
                        bytes_of(windows@[picks@[k] as int].title@),
                        bytes_of(self.target@),
                        windows@[picks@[k] as int].minimized,
                    ),
                forall|j: int|
                    0 <= j < i && spec_passes(
                        bytes_of((#[trigger] windows@[j]).title@),
                        bytes_of(self.target@),
                        windows@[j].minimized,
                    ) ==> exists|k: int| 0 <= k < picks@.len() && picks@[k] == j,
                forall|k1: int, k2: int|
                    0 <= k1 < k2 < picks@.len() ==> picks@[k1] < picks@[k2],
            decreases n - i,
        {
            let ghost prev = picks@;
            let w = &windows[i];
            if should_capture(w.title.as_str(), self.target.as_str(), w.minimized) {
                picks.push(i);
            }
            proof {
                assert forall|j: int|
                    0 <= j < i + 1 && spec_passes(
                        bytes_of((#[trigger] windows@[j]).title@),
                        bytes_of(self.target@),
                        windows@[j].minimized,
                    ) implies exists|k: int| 0 <= k < picks@.len() && picks@[k] == j by {
                    if j < i {
                        let k = choose|k: int| 0 <= k < prev.len() && prev[k] == j;
                        assert(picks@[k] == j);
                    } else {
                        assert(picks@[picks@.len() - 1] == j);
                    }
                }
            }
            i += 1;
        }
        picks
    }
}

} // verus!
