//! Background-task supervisor: a registry of named tasks together with the
//! shared capturing flag that the capture worker polls.
//!
//! The supervisor itself never blocks: it only decides, under its caller's
//! lock, whether a task must be spawned or torn down, and hands the caller
//! the identifier of the execution context to spawn or to join.  Joining and
//! aborting happen outside this crate, so the registry lock is never held
//! across a blocking wait.

use vstd::prelude::*;

verus! {

broadcast use vstd::seq_lib::group_seq_lib_default;

/// Identity of a background activity.  Closed at any given version, but
/// written to be extended.
#[derive(Clone, Copy, Debug, PartialEq, Eq, Structural)]
pub enum ThreadType {
    /// The crosshair overlay's message loop.
    GameOverlay,
    /// The periodic screenshot worker.
    Capture,
}

/// One live background task: its name and the caller-side identifier of the
/// execution context that runs it.
#[derive(Clone, Copy, Debug, PartialEq, Eq, Structural)]
pub struct TaskEntry {
    pub name: ThreadType,
    pub task_id: u64,
}

/// Some entry in `s` carries the name `t`.
pub open spec fn has_name(s: Seq<TaskEntry>, t: ThreadType) -> bool {
    exists|i: int| 0 <= i < s.len() && (#[trigger] s[i]).name == t
}

/// How many entries in `s` carry the name `t`.
pub open spec fn count_of(s: Seq<TaskEntry>, t: ThreadType) -> nat
    decreases s.len(),
{
    if s.len() == 0 {
        0
    } else {
        count_of(s.drop_last(), t) + if s.last().name == t {
            1nat
        } else {
            0nat
        }
    }
}

/// No two entries share a name.
pub open spec fn unique_names(s: Seq<TaskEntry>) -> bool {
    forall|i: int, j: int| 0 <= i < j < s.len() ==> (#[trigger] s[i]).name != (#[trigger] s[j]).name
}

/// The registry after a start request for `t` that would receive task id
/// `id`: unchanged when `t` is already running, extended otherwise.
pub open spec fn spec_start(s: Seq<TaskEntry>, t: ThreadType, id: u64) -> Seq<TaskEntry> {
    if has_name(s, t) {
        s
    } else {
        s.push(TaskEntry { name: t, task_id: id })
    }
}

/// The registry after a stop request for `t`: every entry named `t` is gone,
/// all others keep their order.
pub open spec fn spec_stop(s: Seq<TaskEntry>, t: ThreadType) -> Seq<TaskEntry> {
    s.filter(|e: TaskEntry| e.name != t)
}

/// Supervisor state: the name-to-task registry and the capturing flag.
///
/// The flag is the single shared boolean that the capture worker reads at
/// the top of every iteration; here it is owned by the supervisor, and the
/// well-formedness invariant ties it to the registry: it is set exactly
/// while a `Capture` entry is registered.
#[derive(Debug)]
pub struct ThreadHandler {
    entries: Vec<TaskEntry>,
    next_id: u64,
    capturing: bool,
}

impl ThreadHandler {
    /// The registry contents, in insertion order.
    pub closed spec fn registry(&self) -> Seq<TaskEntry> {
        self.entries@
    }

    /// The shared capturing flag as last written by a start or stop call.
    pub closed spec fn capturing_flag(&self) -> bool {
        self.capturing
    }

    /// A task named `t` is currently registered.
    pub open spec fn has(&self, t: ThreadType) -> bool {
        has_name(self.registry(), t)
    }

    pub open spec fn wf(&self) -> bool {
        &&& unique_names(self.registry())
        &&& self.capturing_flag() <==> self.has(ThreadType::Capture)
    }

    pub fn new() -> (r: ThreadHandler)
        ensures
            r.wf(),
            r.registry() =~= Seq::<TaskEntry>::empty(),
            !r.capturing_flag(),
    {
        ThreadHandler { entries: Vec::new(), next_id: 0, capturing: false }
    }

    /// Reads the capturing flag; the capture worker polls this every cycle.
    pub fn is_capturing(&self) -> (r: bool)
        ensures
            r == self.capturing_flag(),
    {
        self.capturing
    }

    /// How many tasks are registered.
    pub fn task_count(&self) -> (r: usize)
        ensures
            r == self.registry().len(),
    {
        self.entries.len()
    }

    /// Whether a task named `t` is registered.
    pub fn is_registered(&self, t: ThreadType) -> (r: bool)
        ensures
            r == self.has(t),
    {
        match self.find(t) {
            Some(_) => true,
            None => false,
        }
    }

    /// Index of the first entry named `t`, if any.
    fn find(&self, t: ThreadType) -> (r: Option<usize>)
        ensures
            match r {
                Some(i) => i < self.registry().len() && self.registry()[i as int].name == t,
                None => !self.has(t),
            },
    {
        let n = self.entries.len();
        let mut i: usize = 0;
        while i < n
            invariant
                n == self.registry().len(),
                0 <= i <= n,
                forall|k: int| 0 <= k < i ==> (#[trigger] self.registry()[k]).name != t,
            decreases n - i,
        {
            if self.entries[i].name == t {
                return Some(i);
            }
            i += 1;
        }
        None
    }

    /// Start request: a no-op when a task of this name is already running
    /// (an idempotent, benign request), otherwise the task is registered and
    /// the caller receives the fresh task id to spawn under.
    pub fn start_thread(&mut self, thread_type: ThreadType) -> (r: Option<u64>)
        requires
            old(self).wf(),
        ensures
            final(self).wf(),
            r is Some <==> !old(self).has(thread_type),
            final(self).has(thread_type),
            r matches Some(id) ==> final(self).registry() == spec_start(
                old(self).registry(),
                thread_type,
                id,
            ),
            r is None ==> final(self).registry() == old(self).registry(),
            final(self).capturing_flag() == (old(self).capturing_flag() || thread_type
                == ThreadType::Capture),
    {
        match self.find(thread_type) {
            Some(_) => {
                proof {
                    assert(self.has(ThreadType::Capture) ==> self.capturing_flag());
                }
                None
            },
            None => {
                let id = self.next_id;
                self.next_id = if id == u64::MAX {
                    0
                } else {
                    id + 1
                };
                self.entries.push(TaskEntry { name: thread_type, task_id: id });
                if matches!(thread_type, ThreadType::Capture) {
                    self.capturing = true;
                }
                proof {
                    let s = old(self).registry();
                    let s2 = self.registry();
                    assert(s2 == s.push(TaskEntry { name: thread_type, task_id: id }));
                    assert(s2[s.len() as int].name == thread_type);
                    assert forall|i: int, j: int| 0 <= i < j < s2.len() implies (
                    #[trigger] s2[i]).name != (#[trigger] s2[j]).name by {
                        if j < s.len() {
                            assert(s[i].name != s[j].name);
                        } else {
                            assert(!has_name(s, thread_type));
                            assert(s2[i] == s[i]);
                        }
                    }
                    assert(self.has(ThreadType::Capture) <==> (old(self).has(ThreadType::Capture)
                        || thread_type == ThreadType::Capture)) by {
                        if self.has(ThreadType::Capture) {
                            let w = choose|i: int|
                                0 <= i < s2.len() && (#[trigger] s2[i]).name
                                    == ThreadType::Capture;
                            if w < s.len() {
                                assert(s[w].name == ThreadType::Capture);
                            }
                        }
                        if old(self).has(ThreadType::Capture) {
                            let w = choose|i: int|
                                0 <= i < s.len() && (#[trigger] s[i]).name == ThreadType::Capture;
                            assert(s2[w].name == ThreadType::Capture);
                        }
                    }
                }
                Some(id)
            },
        }
    }

    /// Stop request: removes the entry of this name if present and returns
    /// the task id the caller must now cancel and wait for; clears the
    /// capturing flag when the capture worker is being stopped.  The entry
    /// is removed whether or not the task later honours its termination
    /// signal, so a name is never left permanently stuck.
    pub fn stop_thread(&mut self, thread_type: ThreadType) -> (r: Option<u64>)
        requires
            old(self).wf(),
        ensures
            final(self).wf(),
            r is Some <==> old(self).has(thread_type),
            !final(self).has(thread_type),
            final(self).registry() == spec_stop(old(self).registry(), thread_type),
            r matches Some(id) ==> has_name(
                old(self).registry(),
                thread_type,
            ) && exists|i: int|
                0 <= i < old(self).registry().len() && old(self).registry()[i] == (TaskEntry {
                    name: thread_type,
                    task_id: id,
                }),
            final(self).capturing_flag() == (old(self).capturing_flag() && thread_type
                != ThreadType::Capture),
    {
        let found = self.find(thread_type);
        match found {
            None => {
                proof {
                    lemma_stop_absent(self.registry(), thread_type);
                }
                None
            },
            Some(i) => {
                let entry = self.entries[i];
                self.entries.remove(i);
                if matches!(thread_type, ThreadType::Capture) {
                    self.capturing = false;
                }
                proof {
                    lemma_remove_is_filter(old(self).registry(), thread_type, i as int);
                    let s2 = self.registry();
                    assert(unique_names(s2)) by {
                        assert forall|a: int, b: int| 0 <= a < b < s2.len() implies (
                        #[trigger] s2[a]).name != (#[trigger] s2[b]).name by {
                            let s = old(self).registry();
                            assert(s2 == s.remove(i as int));
                            if b < i {
                                assert(s2[a] == s[a] && s2[b] == s[b]);
                            } else if a < i {
                                assert(s2[a] == s[a] && s2[b] == s[b + 1]);
                            } else {
                                assert(s2[a] == s[a + 1] && s2[b] == s[b + 1]);
                            }
                        }
                    }
                    assert(!has_name(s2, thread_type)) by {
                        broadcast use vstd::seq_lib::group_filter_ensures;

                        if has_name(s2, thread_type) {
                            let w = choose|k: int|
                                0 <= k < s2.len() && (#[trigger] s2[k]).name == thread_type;
                        }
                    }
                    assert(thread_type != ThreadType::Capture && self.has(ThreadType::Capture)
                        ==> old(self).has(ThreadType::Capture)) by {
                        if thread_type != ThreadType::Capture && self.has(ThreadType::Capture) {
                            let w = choose|k: int|
                                0 <= k < s2.len() && (#[trigger] s2[k]).name
                                    == ThreadType::Capture;
                            let s = old(self).registry();
                            if w < i {
                                assert(s[w].name == ThreadType::Capture);
                            } else {
                                assert(s[w + 1].name == ThreadType::Capture);
                            }
                        }
                    }
                    assert(thread_type != ThreadType::Capture && old(self).has(ThreadType::Capture)
                        ==> self.has(ThreadType::Capture)) by {
                        if thread_type != ThreadType::Capture && old(self).has(
                            ThreadType::Capture,
                        ) {
                            let s = old(self).registry();
                            let w = choose|k: int|
                                0 <= k < s.len() && (#[trigger] s[k]).name == ThreadType::Capture;
                            if w < i {
                                assert(s2[w].name == ThreadType::Capture);
                            } else {
                                assert(s2[w - 1].name == ThreadType::Capture);
                            }
                        }
                    }
                }
                Some(entry.task_id)
            },
        }
    }
}

/// Removing nothing is exactly what filtering does when no entry matches.
proof fn lemma_stop_absent(s: Seq<TaskEntry>, t: ThreadType)
    requires
        !has_name(s, t),
    ensures
        spec_stop(s, t) == s,
    decreases s.len(),
{
    reveal(Seq::filter);
    if s.len() > 0 {
        assert(forall|i: int| 0 <= i < s.len() - 1 ==> s.drop_last()[i] == s[i]);
        assert(s.last().name != t) by {
            assert(s[s.len() - 1].name == t ==> has_name(s, t));
        }
        lemma_stop_absent(s.drop_last(), t);
        assert(spec_stop(s, t) == spec_stop(s.drop_last(), t).push(s.last()));
        assert(spec_stop(s, t) =~= s);
    } else {
        assert(spec_stop(s, t) =~= s);
    }
}

/// With unique names, removing the one entry named `t` is the same as
/// filtering every entry named `t` out.
proof fn lemma_remove_is_filter(s: Seq<TaskEntry>, t: ThreadType, i: int)
    requires
        unique_names(s),
        0 <= i < s.len(),
        s[i].name == t,
    ensures
        s.remove(i) == spec_stop(s, t),
    decreases s.len(),
{
    reveal(Seq::filter);
    if i == s.len() - 1 {
        assert(!has_name(s.drop_last(), t)) by {
            if has_name(s.drop_last(), t) {
                let w = choose|k: int|
                    0 <= k < s.drop_last().len() && (#[trigger] s.drop_last()[k]).name == t;
                assert(s[w].name == t && s[i].name == t && w < i);
            }
        }
        lemma_stop_absent(s.drop_last(), t);
        assert(spec_stop(s, t) == spec_stop(s.drop_last(), t));
        assert(s.remove(i) =~= s.drop_last());
    } else {
        assert(unique_names(s.drop_last())) by {
            assert(forall|k: int| 0 <= k < s.len() - 1 ==> s.drop_last()[k] == s[k]);
        }
        lemma_remove_is_filter(s.drop_last(), t, i);
        assert(s.last().name != t) by {
            assert(s[i].name == t && i < s.len() - 1);
        }
        assert(spec_stop(s, t) == spec_stop(s.drop_last(), t).push(s.last()));
        assert(s.remove(i) =~= s.drop_last().remove(i).push(s.last()));
        assert(s.remove(i) =~= spec_stop(s, t));
    }
}

/// With unique names a registered task is registered exactly once: the
/// single-instance invariant, stated by counting.
pub proof fn lemma_single_instance(s: Seq<TaskEntry>, t: ThreadType)
    requires
        unique_names(s),
    ensures
        count_of(s, t) <= 1,
        count_of(s, t) == 1 <==> has_name(s, t),
    decreases s.len(),
{
    if s.len() > 0 {
        assert(unique_names(s.drop_last())) by {
            assert(forall|k: int| 0 <= k < s.len() - 1 ==> s.drop_last()[k] == s[k]);
        }
        lemma_single_instance(s.drop_last(), t);
        if s.last().name == t {
            assert(!has_name(s.drop_last(), t)) by {
                if has_name(s.drop_last(), t) {
                    let w = choose|k: int|
                        0 <= k < s.drop_last().len() && (#[trigger] s.drop_last()[k]).name == t;
                    assert(s[w].name == t && s[s.len() - 1].name == t);
                }
            }
        } else {
            if has_name(s, t) {
                let w = choose|k: int| 0 <= k < s.len() && (#[trigger] s[k]).name == t;
                assert(s.drop_last()[w].name == t);
            }
            if has_name(s.drop_last(), t) {
                let w = choose|k: int|
                    0 <= k < s.drop_last().len() && (#[trigger] s.drop_last()[k]).name == t;
                assert(s[w].name == t);
            }
        }
    }
}

/// Starting a task twice in succession is the same as starting it once: the
/// second request finds the name registered and leaves the registry alone.
pub proof fn lemma_start_idempotent(s: Seq<TaskEntry>, t: ThreadType, id1: u64, id2: u64)
    ensures
        spec_start(spec_start(s, t, id1), t, id2) == spec_start(s, t, id1),
{
    let s1 = spec_start(s, t, id1);
    if !has_name(s, t) {
        assert(s1[s.len() as int].name == t);
        assert(has_name(s1, t));
    }
}

/// A started task stopped again leaves no trace: the registry holds no entry
/// of that name — and where the task was not running before, the registry is
/// exactly what it was.  For the capture worker the flag contract of
/// `stop_thread` guarantees the shared flag reads false afterwards.
pub proof fn lemma_clean_stop(s: Seq<TaskEntry>, t: ThreadType, id: u64)
    requires
        unique_names(s),
    ensures
        !has_name(spec_stop(spec_start(s, t, id), t), t),
        count_of(spec_stop(spec_start(s, t, id), t), t) == 0,
        !has_name(s, t) ==> spec_stop(spec_start(s, t, id), t) == s,
    decreases s.len(),
{
    let s1 = spec_start(s, t, id);
    let s2 = spec_stop(s1, t);
    broadcast use vstd::seq_lib::group_filter_ensures;

    if has_name(s2, t) {
        let w = choose|k: int| 0 <= k < s2.len() && (#[trigger] s2[k]).name == t;
    }
    lemma_count_zero_when_absent(s2, t);
    if !has_name(s, t) {
        reveal(Seq::filter);
        assert(s1.drop_last() =~= s);
        assert(s1.last().name == t);
        assert(spec_stop(s1, t) == spec_stop(s, t));
        lemma_stop_absent(s, t);
    }
}

/// A name that appears nowhere counts zero entries.
proof fn lemma_count_zero_when_absent(s: Seq<TaskEntry>, t: ThreadType)
    requires
        !has_name(s, t),
    ensures
        count_of(s, t) == 0,
    decreases s.len(),
{
    if s.len() > 0 {
        assert(!has_name(s.drop_last(), t)) by {
            if has_name(s.drop_last(), t) {
                let w = choose|k: int|
                    0 <= k < s.drop_last().len() && (#[trigger] s.drop_last()[k]).name == t;
                assert(s[w].name == t);
            }
        }
        lemma_count_zero_when_absent(s.drop_last(), t);
        assert(s.last().name != t) by {
            assert(s[s.len() - 1].name == t ==> has_name(s, t));
        }
    }
}

} // verus!
