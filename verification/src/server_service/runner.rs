//! The decisions of the task runner: one run per task at a time, which runs
//! take the maintenance gate, and what a finished run leaves in the history.
use vstd::prelude::*;
use crate::server_service::tasks::{TaskOutcome, TaskRunStatus};
use crate::text::{chars_eq, chars_of, extend_str, string_of};

verus! {

/// The ids of the tasks that are running.
pub struct RunningTasks {
    ids: Vec<String>,
}

/// Starting task `id` when `running` holds the running ids: whether it may
/// start, and the running ids afterwards.
pub open spec fn begin(running: Set<Seq<char>>, id: Seq<char>) -> (bool, Set<Seq<char>>) {
    if running.contains(id) {
        (false, running)
    } else {
        (true, running.insert(id))
    }
}

impl View for RunningTasks {
    type V = Set<Seq<char>>;

    closed spec fn view(&self) -> Set<Seq<char>> {
        self.ids@.map_values(|s: String| s@).to_set()
    }
}

impl RunningTasks {
    /// Each id is held once.
    pub closed spec fn wf(&self) -> bool {
        self.ids@.map_values(|s: String| s@).no_duplicates()
    }

    pub fn new() -> (r: Self)
        ensures
            r.wf(),
            r@ == Set::<Seq<char>>::empty(),
    {
        let r = RunningTasks { ids: Vec::new() };
        assert(r.ids@.map_values(|s: String| s@) =~= Seq::<Seq<char>>::empty());
        r
    }

    fn position(&self, id: &str) -> (r: Option<usize>)
        ensures
            match r {
                Some(i) => i < self.ids@.len() && self.ids@[i as int]@ == id@,
                None => !self@.contains(id@),
            },
    {
        let want = chars_of(id);
        let mut i: usize = 0;
        while i < self.ids.len()
            invariant
                i <= self.ids@.len(),
                want@ == id@,
                forall|k: int| 0 <= k < i ==> self.ids@[k]@ != id@,
            decreases self.ids@.len() - i,
        {
            if chars_eq(chars_of(self.ids[i].as_str()).as_slice(), want.as_slice()) {
                return Some(i);
            }
            i = i + 1;
        }
        proof {
            let vs = self.ids@.map_values(|s: String| s@);
            if vs.to_set().contains(id@) {
                assert(vs.contains(id@));
                let k = choose|k: int| 0 <= k < vs.len() && vs[k] == id@;
                assert(self.ids@[k]@ == id@);
            }
        }
        None
    }

    /// Whether task `id` is running.
    pub fn contains(&self, id: &str) -> (r: bool)
        ensures
            r == self@.contains(id@),
    {
        match self.position(id) {
            Some(i) => {
                proof {
                    let vs = self.ids@.map_values(|s: String| s@);
                    assert(vs[i as int] == id@);
                    assert(vs.contains(id@));
                }
                true
            },
            None => false,
        }
    }

    /// Marks task `id` as running, unless it already is.
    pub fn try_begin(&mut self, id: &str) -> (r: bool)
        requires
            old(self).wf(),
        ensures
            final(self).wf(),
            (r, final(self)@) == begin(old(self)@, id@),
    {
        if self.contains(id) {
            return false;
        }
        let ghost before = self.ids@.map_values(|s: String| s@);
        let s = id.to_owned();
        self.ids.push(s);
        proof {
            let after = self.ids@.map_values(|s: String| s@);
            assert(after =~= before.push(id@));
            assert(!before.contains(id@));
            assert forall|i: int, j: int| 0 <= i < after.len() && 0 <= j < after.len() && i != j implies after[i]
                != after[j] by {
                if i < before.len() && j < before.len() {
                } else if i == before.len() {
                    assert(before.contains(before[j]));
                } else {
                    assert(before.contains(before[i]));
                }
            }
            assert(after.to_set() =~= before.to_set().insert(id@)) by {
                assert forall|x: Seq<char>| after.to_set().contains(x) <==> before.to_set().insert(id@).contains(x) by {
                    if after.contains(x) {
                        let k = choose|k: int| 0 <= k < after.len() && after[k] == x;
                        if k < before.len() {
                            assert(before[k] == x);
                        }
                    }
                    if before.contains(x) {
                        let k = choose|k: int| 0 <= k < before.len() && before[k] == x;
                        assert(after[k] == x);
                    }
                    if x == id@ {
                        assert(after[before.len() as int] == x);
                    }
                }
            }
        }
        true
    }

    /// Marks task `id` as no longer running.
    pub fn finish(&mut self, id: &str)
        requires
            old(self).wf(),
        ensures
            final(self).wf(),
            final(self)@ == old(self)@.remove(id@),
    {
        match self.position(id) {
            None => {
                assert(old(self)@.remove(id@) =~= old(self)@);
            },
            Some(i) => {
                let ghost before = self.ids@.map_values(|s: String| s@);
                self.ids.remove(i);
                proof {
                    let after = self.ids@.map_values(|s: String| s@);
                    assert(after =~= before.remove(i as int));
                    assert forall|a: int, b: int| 0 <= a < after.len() && 0 <= b < after.len() && a != b implies after[a]
                        != after[b] by {
                        let a2 = if a < i { a } else { a + 1 };
                        let b2 = if b < i { b } else { b + 1 };
                        assert(after[a] == before[a2]);
                        assert(after[b] == before[b2]);
                    }
                    assert(after.to_set() =~= before.to_set().remove(id@)) by {
                        assert forall|x: Seq<char>| after.to_set().contains(x) <==> before.to_set().remove(id@).contains(
                            x,
                        ) by {
                            if after.contains(x) {
                                let k = choose|k: int| 0 <= k < after.len() && after[k] == x;
                                let k2 = if k < i { k } else { k + 1 };
                                assert(before[k2] == x);
                                assert(k2 != i);
                                assert(before[i as int] == id@);
                            }
                            if before.contains(x) && x != id@ {
                                let k = choose|k: int| 0 <= k < before.len() && before[k] == x;
                                assert(k != i);
                                if k < i {
                                    assert(after[k] == x);
                                } else {
                                    assert(after[k - 1] == x);
                                }
                            }
                        }
                    }
                }
            },
        }
    }
}

/// A task that is running cannot start again until it finishes; once it
/// finishes it can.
pub proof fn lemma_one_run_per_task(running: Set<Seq<char>>, id: Seq<char>)
    ensures
        begin(running, id).0 ==> !begin(begin(running, id).1, id).0,
        begin(begin(running, id).1.remove(id), id).0,
{
}

/// Only real runs of exclusive tasks take the maintenance gate.
pub fn uses_maintenance_gate(exclusive: bool, dry_run: bool) -> (r: bool)
    ensures
        r == (exclusive && !dry_run),
{
    exclusive && !dry_run
}

/// What a run says while it waits for the maintenance gate to be released.
pub open spec fn gate_wait_text(holder: Option<Seq<char>>, id: Seq<char>) -> Seq<char> {
    "waiting for "@ + (match holder {
        Some(h) => h,
        None => "another maintenance task"@,
    }) + " to finish before running "@ + id
}

pub fn gate_wait_message(holder: Option<&str>, id: &str) -> (r: String)
    ensures
        r@ == gate_wait_text(
            match holder {
                Some(h) => Some(h@),
                None => None,
            },
            id@,
        ),
{
    let mut m: Vec<char> = Vec::new();
    extend_str(&mut m, "waiting for ");
    match holder {
        Some(h) => extend_str(&mut m, h),
        None => extend_str(&mut m, "another maintenance task"),
    }
    extend_str(&mut m, " to finish before running ");
    extend_str(&mut m, id);
    assert(m@ =~= gate_wait_text(
        match holder {
            Some(h) => Some(h@),
            None => None,
        },
        id@,
    ));
    string_of(m.as_slice())
}

/// The log line of a run skipped because the task is still running.
pub fn overlap_message(id: &str) -> (r: String)
    ensures
        r@ == id@ + " is still running; skipping overlapping run."@,
{
    let mut m: Vec<char> = Vec::new();
    extend_str(&mut m, id);
    extend_str(&mut m, " is still running; skipping overlapping run.");
    string_of(m.as_slice())
}

/// What a finished run leaves in the history.
#[derive(Clone, Debug, PartialEq, Eq)]
pub enum RunDisposition {
    /// Keep the run with this status and error note.
    Finish { status: TaskRunStatus, note: Option<String> },
    /// Drop the run: it had nothing to do, and the history stays clean.
    Delete,
}

/// A completed run succeeded; a run with nothing to do is dropped from the
/// history; a failed run is kept with its (already redacted) error message.
pub fn run_disposition(result: &Result<TaskOutcome, String>) -> (r: RunDisposition)
    ensures
        match result {
            Ok(TaskOutcome::Done) => r == RunDisposition::Finish { status: TaskRunStatus::Success, note: None },
            Ok(TaskOutcome::Noop) => r == RunDisposition::Delete,
            Err(msg) => r == RunDisposition::Finish { status: TaskRunStatus::Failed, note: Some(*msg) },
        },
{
    match result {
        Ok(TaskOutcome::Done) => RunDisposition::Finish { status: TaskRunStatus::Success, note: None },
        Ok(TaskOutcome::Noop) => RunDisposition::Delete,
        Err(msg) => RunDisposition::Finish { status: TaskRunStatus::Failed, note: Some(msg.clone()) },
    }
}

/// How a requested run starts.
#[derive(Clone, Debug, PartialEq, Eq)]
pub enum RunStart {
    /// The task is still running: the task does not run again. A run is
    /// recorded with this warning, finished with `status` and error note
    /// `note`, and the request reports `outcome`.
    Overlap { warning: String, status: TaskRunStatus, note: String, outcome: TaskOutcome },
    /// The task runs; it takes the maintenance gate first when `gate` holds.
    Proceed { gate: bool },
}

/// Starts a run of task `id`: a task that is still running is not started
/// again, its request is recorded as skipped for `overlap` and reported done;
/// otherwise the task is marked running and runs, behind the maintenance gate
/// when it is exclusive and real.
pub fn begin_run(running: &mut RunningTasks, id: &str, exclusive: bool, dry_run: bool) -> (r: RunStart)
    requires
        old(running).wf(),
    ensures
        final(running).wf(),
        old(running)@.contains(id@) ==> final(running)@ == old(running)@ && r is Overlap && r->warning@ == id@
            + " is still running; skipping overlapping run."@ && r->status == TaskRunStatus::Skipped && r->note@
            == "overlap"@ && r->outcome == TaskOutcome::Done,
        !old(running)@.contains(id@) ==> final(running)@ == old(running)@.insert(id@) && r is Proceed && r->gate == (
        exclusive && !dry_run),
{
    if running.try_begin(id) {
        RunStart::Proceed { gate: uses_maintenance_gate(exclusive, dry_run) }
    } else {
        RunStart::Overlap {
            warning: overlap_message(id),
            status: TaskRunStatus::Skipped,
            note: "overlap".to_owned(),
            outcome: TaskOutcome::Done,
        }
    }
}

} // verus!
