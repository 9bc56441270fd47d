//! A backup run, decided step by step: look up the server volume to learn
//! where the vendor helper writes its dump, reuse a dump that is already
//! there, otherwise run the helper and check what it wrote, then look for the
//! spec file it leaves beside the dump. The caller runs each lookup, probe or
//! helper and hands back the result.
use vstd::prelude::*;
use crate::json::JsonValue;
use crate::server_service::backup::{
    backup_candidates, backup_not_found_message, check_backup_stat, comma_joined, companion_spec_path,
    dump_candidates, extract_pv_path, pv_path, pv_query_args, pvc_query, pvc_query_args, pvc_volume_name,
    pvc_volume_name_of, stat_check, valid_backup_name, validate_backup_name, BackupCheck,
};
use crate::sort::view_seq;
use crate::text::{decimal, extend_str, push_decimal, string_of};

verus! {

/// Where a backup run stands: the work whose result it waits for, or its end.
#[derive(Clone, Copy, Debug, PartialEq, Eq, Structural)]
pub enum BackupStep {
    /// Waiting for the server's volume claims.
    ReadClaims,
    /// Waiting for the claimed volume.
    ReadVolume,
    /// Waiting for `stat` of candidate `i`, before the helper ran.
    CheckExisting(usize),
    /// Waiting for the vendor helper.
    RunHelper,
    /// Waiting for `stat` of candidate `i`, after the helper ran.
    CheckWritten(usize),
    /// Waiting for the spec-file probe beside candidate `i`.
    CheckSpec(usize),
    Done,
    Failed,
}

/// The result of a piece of work.
#[derive(Debug)]
pub enum BackupEvent {
    /// A kubectl lookup's document, or why there is none.
    Lookup(Result<JsonValue, String>),
    /// A `sudo` probe's success and standard output, or why it could not run.
    Probe(Result<(bool, String), String>),
    /// The vendor helper finished, or why it failed.
    Helper(Result<(), String>),
}

/// A piece of work for the caller.
#[derive(Clone, Debug, PartialEq, Eq)]
pub enum BackupWork {
    /// Run `kubectl` with these arguments and parse its JSON output.
    Kubectl(Vec<String>),
    /// Run `sudo` with these arguments.
    Sudo(Vec<String>),
    /// Run the vendor backup helper for this dump name.
    Helper(String),
}

/// How loud a log line is.
#[derive(Clone, Copy, Debug, PartialEq, Eq, Structural)]
pub enum BackupLogLevel {
    Info,
    Warn,
}

/// A line for the run's log.
#[derive(Clone, Debug, PartialEq, Eq)]
pub struct BackupLog {
    pub level: BackupLogLevel,
    pub message: String,
}

/// What happens next.
#[derive(Clone, Debug, PartialEq, Eq)]
pub enum BackupNext {
    Work(BackupWork),
    /// The run is over; the dump is at this path.
    Finished(String),
    /// The run failed with this message.
    Failed(String),
}

/// Lines to log, then what happens next.
#[derive(Clone, Debug, PartialEq, Eq)]
pub struct BackupAction {
    pub logs: Vec<BackupLog>,
    pub next: BackupNext,
}

/// A backup run in progress.
pub struct BackupRun {
    pub bg_name: String,
    pub backup_name: String,
    /// The server volume's host path, once known.
    pub pvc_path: Option<String>,
    /// Where to look for the dump, best first.
    pub candidates: Vec<String>,
    /// The dump that was verified, once one was.
    pub verified: Option<String>,
    pub step: BackupStep,
}

/// What a result means at a step.
#[derive(Clone, Copy, Debug, PartialEq, Eq, Structural)]
pub enum BackupOutcome {
    /// The volume lookup gave nothing usable (an error, or no path).
    Unavailable,
    /// A claim names its volume.
    Claimed,
    /// The volume's host path is known.
    Located,
    /// No dump at the probed path.
    Missing,
    /// The dump at the probed path is empty.
    Empty,
    /// A non-empty dump at the probed path.
    Verified,
    /// The spec file is there.
    Present,
    /// The spec file is not there.
    Absent,
    /// The helper finished.
    Completed,
    /// The work could not be done, or the result does not fit the step.
    Broken,
}

/// What result `ev` means at `step`.
pub open spec fn outcome_of(step: BackupStep, ev: BackupEvent) -> BackupOutcome {
    match step {
        BackupStep::ReadClaims => match ev {
            BackupEvent::Lookup(Ok(doc)) => if pvc_volume_name_of(doc) is Some {
                BackupOutcome::Claimed
            } else {
                BackupOutcome::Unavailable
            },
            _ => BackupOutcome::Unavailable,
        },
        BackupStep::ReadVolume => match ev {
            BackupEvent::Lookup(Ok(doc)) => if pv_path(doc) is Some {
                BackupOutcome::Located
            } else {
                BackupOutcome::Unavailable
            },
            _ => BackupOutcome::Unavailable,
        },
        BackupStep::CheckExisting(_) => stat_outcome(ev),
        BackupStep::CheckWritten(_) => stat_outcome(ev),
        BackupStep::RunHelper => match ev {
            BackupEvent::Helper(Ok(())) => BackupOutcome::Completed,
            _ => BackupOutcome::Broken,
        },
        BackupStep::CheckSpec(_) => match ev {
            BackupEvent::Probe(Ok((ok, _))) => if ok {
                BackupOutcome::Present
            } else {
                BackupOutcome::Absent
            },
            _ => BackupOutcome::Broken,
        },
        _ => BackupOutcome::Broken,
    }
}

/// What a `stat` result says about a candidate dump.
pub open spec fn stat_outcome(ev: BackupEvent) -> BackupOutcome {
    match ev {
        BackupEvent::Probe(Ok((ok, out))) => match stat_check(ok, out@) {
            BackupCheck::Missing => BackupOutcome::Missing,
            BackupCheck::Empty => BackupOutcome::Empty,
            BackupCheck::Verified(_) => BackupOutcome::Verified,
        },
        _ => BackupOutcome::Broken,
    }
}

/// The step after `step` on outcome `o`, with `n` candidate paths.
pub open spec fn next_backup_step(step: BackupStep, o: BackupOutcome, n: nat) -> BackupStep {
    match step {
        BackupStep::ReadClaims => if o == BackupOutcome::Claimed {
            BackupStep::ReadVolume
        } else {
            BackupStep::CheckExisting(0)
        },
        BackupStep::ReadVolume => BackupStep::CheckExisting(0),
        BackupStep::CheckExisting(i) => if o == BackupOutcome::Missing {
            if i + 1 < n {
                BackupStep::CheckExisting((i + 1) as usize)
            } else {
                BackupStep::RunHelper
            }
        } else if o == BackupOutcome::Verified {
            BackupStep::Done
        } else {
            BackupStep::Failed
        },
        BackupStep::RunHelper => if o == BackupOutcome::Completed {
            BackupStep::CheckWritten(0)
        } else {
            BackupStep::Failed
        },
        BackupStep::CheckWritten(i) => if o == BackupOutcome::Missing {
            if i + 1 < n {
                BackupStep::CheckWritten((i + 1) as usize)
            } else {
                BackupStep::Failed
            }
        } else if o == BackupOutcome::Verified {
            BackupStep::CheckSpec(0)
        } else {
            BackupStep::Failed
        },
        BackupStep::CheckSpec(i) => if o == BackupOutcome::Present {
            BackupStep::Done
        } else if o == BackupOutcome::Absent {
            if i + 1 < n {
                BackupStep::CheckSpec((i + 1) as usize)
            } else {
                BackupStep::Done
            }
        } else {
            BackupStep::Failed
        },
        BackupStep::Done => BackupStep::Failed,
        BackupStep::Failed => BackupStep::Failed,
    }
}

/// `sudo` arguments that print the size of the file at `path`.
pub open spec fn stat_probe(path: Seq<char>) -> Seq<Seq<char>> {
    seq!["-n"@, "stat"@, "-c"@, "%s"@, path]
}

/// `sudo` arguments that test for the spec file beside the dump at `path`.
pub open spec fn spec_probe(path: Seq<char>) -> Seq<Seq<char>> {
    seq!["-n"@, "test"@, "-f"@, path + ".yaml"@]
}

/// The work fits the run's new state: the probe of the candidate it waits
/// on, the helper for its dump name, a volume lookup, or its outcome.
pub open spec fn work_fits(next: BackupNext, run: BackupRun) -> bool {
    let cs = view_seq(run.candidates@);
    match next {
        BackupNext::Work(BackupWork::Sudo(args)) => match run.step {
            BackupStep::CheckExisting(i) => view_seq(args@) == stat_probe(cs[i as int]),
            BackupStep::CheckWritten(i) => view_seq(args@) == stat_probe(cs[i as int]),
            BackupStep::CheckSpec(i) => view_seq(args@) == spec_probe(cs[i as int]),
            _ => false,
        },
        BackupNext::Work(BackupWork::Helper(name)) => run.step == BackupStep::RunHelper && name@ == run.backup_name@,
        BackupNext::Work(BackupWork::Kubectl(_)) => run.step == BackupStep::ReadClaims || run.step
            == BackupStep::ReadVolume,
        BackupNext::Finished(path) => run.step == BackupStep::Done && run.verified == Some(path) && cs.contains(path@),
        BackupNext::Failed(_) => run.step == BackupStep::Failed,
    }
}

/// The verified dump the run holds after outcome `o` at `step`: the candidate
/// whose size check succeeded, else what it held before.
pub open spec fn recorded_dump(step: BackupStep, o: BackupOutcome, cs: Seq<String>, before: Option<String>) -> Option<String> {
    match step {
        BackupStep::CheckExisting(i) => if o == BackupOutcome::Verified {
            Some(cs[i as int])
        } else {
            before
        },
        BackupStep::CheckWritten(i) => if o == BackupOutcome::Verified {
            Some(cs[i as int])
        } else {
            before
        },
        _ => before,
    }
}

/// A log line as a level and its text.
pub open spec fn log_lines(logs: Seq<BackupLog>) -> Seq<(BackupLogLevel, Seq<char>)> {
    logs.map_values(|l: BackupLog| (l.level, l.message@))
}

/// `backup verified path=<path> bytes=<size>`.
pub open spec fn verified_line(path: Seq<char>, size: u64) -> Seq<char> {
    "backup verified path="@ + path + " bytes="@ + decimal(size as nat)
}

/// What a failed or empty volume lookup logs before the legacy path is used.
pub open spec fn lookup_logs(ev: BackupEvent, found: bool) -> Seq<(BackupLogLevel, Seq<char>)> {
    match ev {
        BackupEvent::Lookup(Ok(_)) => if found {
            Seq::empty()
        } else {
            seq![(BackupLogLevel::Warn, "server PVC path unavailable; using legacy backup path"@)]
        },
        BackupEvent::Lookup(Err(t)) => seq![
            (BackupLogLevel::Warn, "server PVC path lookup failed; using legacy backup path: "@ + t@),
        ],
        _ => seq![(BackupLogLevel::Warn, "server PVC path lookup failed; using legacy backup path"@)],
    }
}

/// The lines a step logs on result `ev`, with candidate paths `cs`.
pub open spec fn backup_logs(step: BackupStep, ev: BackupEvent, cs: Seq<Seq<char>>) -> Seq<(BackupLogLevel, Seq<char>)> {
    match step {
        BackupStep::ReadClaims => lookup_logs(
            ev,
            match ev {
                BackupEvent::Lookup(Ok(doc)) => pvc_volume_name_of(doc) is Some,
                _ => false,
            },
        ),
        BackupStep::ReadVolume => lookup_logs(
            ev,
            match ev {
                BackupEvent::Lookup(Ok(doc)) => pv_path(doc) is Some,
                _ => false,
            },
        ),
        BackupStep::CheckExisting(i) => match ev {
            BackupEvent::Probe(Ok((ok, out))) => match stat_check(ok, out@) {
                BackupCheck::Verified(n) => seq![
                    (BackupLogLevel::Info, verified_line(cs[i as int], n)),
                    (BackupLogLevel::Info, "reusing existing verified backup path="@ + cs[i as int]),
                ],
                _ => Seq::empty(),
            },
            _ => Seq::empty(),
        },
        BackupStep::CheckWritten(i) => match ev {
            BackupEvent::Probe(Ok((ok, out))) => match stat_check(ok, out@) {
                BackupCheck::Verified(n) => seq![(BackupLogLevel::Info, verified_line(cs[i as int], n))],
                _ => Seq::empty(),
            },
            _ => Seq::empty(),
        },
        BackupStep::CheckSpec(i) => match ev {
            BackupEvent::Probe(Ok((true, _))) => seq![
                (BackupLogLevel::Info, "backup companion spec present path="@ + cs[i as int] + ".yaml"@),
            ],
            BackupEvent::Probe(Ok((false, _))) => if i + 1 < cs.len() {
                Seq::empty()
            } else {
                seq![(BackupLogLevel::Warn, "backup companion spec missing from all expected paths"@)]
            },
            _ => Seq::empty(),
        },
        _ => Seq::empty(),
    }
}

/// The message of a run whose probe or helper could not do its work.
pub open spec fn work_failure(step: BackupStep, ev: BackupEvent, cs: Seq<Seq<char>>) -> Option<Seq<char>> {
    match step {
        BackupStep::CheckExisting(i) => match ev {
            BackupEvent::Probe(Err(t)) => Some("checking backup output "@ + cs[i as int] + ": "@ + t@),
            _ => None,
        },
        BackupStep::CheckWritten(i) => match ev {
            BackupEvent::Probe(Err(t)) => Some("checking backup output "@ + cs[i as int] + ": "@ + t@),
            _ => None,
        },
        BackupStep::CheckSpec(i) => match ev {
            BackupEvent::Probe(Err(t)) => Some("checking backup companion spec "@ + cs[i as int] + ".yaml"@ + ": "@ + t@),
            _ => None,
        },
        BackupStep::RunHelper => match ev {
            BackupEvent::Helper(Err(t)) => Some(t@),
            _ => None,
        },
        _ => None,
    }
}

/// The message when the helper left no dump at any candidate path.
pub open spec fn not_found_text(cs: Seq<Seq<char>>) -> Seq<char> {
    "backup output not found in expected paths: "@ + comma_joined(cs)
}

fn stat_args(path: &str) -> (r: Vec<String>)
    ensures
        view_seq(r@) == stat_probe(path@),
{
    let r = vec!["-n".to_owned(), "stat".to_owned(), "-c".to_owned(), "%s".to_owned(), path.to_owned()];
    assert(view_seq(r@) =~= stat_probe(path@));
    r
}

fn spec_args(path: &str) -> (r: Vec<String>)
    ensures
        view_seq(r@) == spec_probe(path@),
{
    let r = vec!["-n".to_owned(), "test".to_owned(), "-f".to_owned(), companion_spec_path(path)];
    assert(view_seq(r@) =~= spec_probe(path@));
    r
}

fn text2(a: &str, b: &str) -> (r: String)
    ensures
        r@ == a@ + b@,
{
    let mut m: Vec<char> = Vec::new();
    extend_str(&mut m, a);
    extend_str(&mut m, b);
    string_of(m.as_slice())
}

fn log(level: BackupLogLevel, message: String) -> (r: BackupLog)
    ensures
        r.level == level && r.message == message,
{
    BackupLog { level, message }
}

impl BackupRun {
    /// The candidates are those of the known volume path, and the step's
    /// index and verified dump are among them.
    pub open spec fn wf(self) -> bool {
        let cs = view_seq(self.candidates@);
        &&& cs == dump_candidates(
            self.bg_name@,
            self.backup_name@,
            match self.pvc_path {
                Some(p) => Some(p@),
                None => None,
            },
        )
        &&& match self.step {
            BackupStep::CheckExisting(i) => i < cs.len(),
            BackupStep::CheckWritten(i) => i < cs.len(),
            BackupStep::CheckSpec(i) => i < cs.len() && (self.verified matches Some(v) && cs.contains(v@)),
            BackupStep::Done => self.verified matches Some(v) && cs.contains(v@),
            _ => true,
        }
    }

    /// Moves to `step` and asks for the probe it waits on.
    fn probe(&mut self, step: BackupStep, logs: Vec<BackupLog>) -> (a: BackupAction)
        requires
            view_seq(old(self).candidates@) == dump_candidates(
                old(self).bg_name@,
                old(self).backup_name@,
                match old(self).pvc_path {
                    Some(p) => Some(p@),
                    None => None,
                },
            ),
            match step {
                BackupStep::CheckExisting(i) => i < old(self).candidates@.len(),
                BackupStep::CheckWritten(i) => i < old(self).candidates@.len(),
                BackupStep::CheckSpec(i) => i < old(self).candidates@.len() && (old(self).verified matches Some(v)
                    && view_seq(old(self).candidates@).contains(v@)),
                _ => false,
            },
        ensures
            final(self).step == step,
            final(self).bg_name == old(self).bg_name,
            final(self).backup_name == old(self).backup_name,
            final(self).pvc_path == old(self).pvc_path,
            final(self).candidates == old(self).candidates,
            final(self).verified == old(self).verified,
            final(self).wf(),
            work_fits(a.next, *final(self)),
            a.logs == logs,
    {
        self.step = step;
        let args = match step {
            BackupStep::CheckSpec(i) => spec_args(self.candidates[i].as_str()),
            BackupStep::CheckWritten(i) => stat_args(self.candidates[i].as_str()),
            BackupStep::CheckExisting(i) => stat_args(self.candidates[i].as_str()),
            _ => Vec::new(),
        };
        BackupAction { logs, next: BackupNext::Work(BackupWork::Sudo(args)) }
    }

    /// Ends the run with `message`.
    fn fail(&mut self, logs: Vec<BackupLog>, message: String) -> (a: BackupAction)
        requires
            old(self).wf(),
        ensures
            final(self).step == BackupStep::Failed,
            final(self).bg_name == old(self).bg_name,
            final(self).backup_name == old(self).backup_name,
            final(self).pvc_path == old(self).pvc_path,
            final(self).candidates == old(self).candidates,
            final(self).verified == old(self).verified,
            final(self).wf(),
            work_fits(a.next, *final(self)),
            a.next == BackupNext::Failed(message),
            a.logs == logs,
    {
        self.step = BackupStep::Failed;
        BackupAction { logs, next: BackupNext::Failed(message) }
    }

    /// Takes the result of the requested work and decides what happens next.
    pub fn advance(&mut self, ev: BackupEvent) -> (a: BackupAction)
        requires
            old(self).wf(),
        ensures
            final(self).wf(),
            final(self).bg_name == old(self).bg_name,
            final(self).backup_name == old(self).backup_name,
            final(self).step == next_backup_step(
                old(self).step,
                outcome_of(old(self).step, ev),
                old(self).candidates@.len() as nat,
            ),
            work_fits(a.next, *final(self)),
            final(self).verified == recorded_dump(old(self).step, outcome_of(old(self).step, ev), old(self).candidates@, old(self).verified),
            log_lines(a.logs@) == backup_logs(old(self).step, ev, view_seq(old(self).candidates@)),
            work_failure(old(self).step, ev, view_seq(old(self).candidates@)) matches Some(m) ==> (a.next matches BackupNext::Failed(f) && f@ == m),
            old(self).step == BackupStep::ReadClaims ==> match ev {
                BackupEvent::Lookup(Ok(doc)) => match pvc_volume_name_of(doc) {
                    Some(v) => a.next matches BackupNext::Work(BackupWork::Kubectl(args)) && view_seq(args@) == seq![
                        "get"@,
                        "pv"@,
                        v,
                        "-o"@,
                        "json"@,
                    ],
                    None => true,
                },
                _ => true,
            },
            old(self).step == BackupStep::ReadVolume ==> match ev {
                BackupEvent::Lookup(Ok(doc)) => match pv_path(doc) {
                    Some(p) => final(self).pvc_path matches Some(q) && q@ == p,
                    None => final(self).pvc_path == old(self).pvc_path,
                },
                _ => final(self).pvc_path == old(self).pvc_path,
            },
            old(self).step != BackupStep::ReadVolume ==> final(self).pvc_path == old(self).pvc_path,
            ({
                let cs = view_seq(old(self).candidates@);
                let o = outcome_of(old(self).step, ev);
                match old(self).step {
                    BackupStep::CheckExisting(i) => {
                        &&& o == BackupOutcome::Empty ==> (a.next matches BackupNext::Failed(m) && m@
                            == "backup output is empty: "@ + cs[i as int])
                        &&& o == BackupOutcome::Verified ==> a.next == BackupNext::Finished(old(self).candidates@[i as int])
                    },
                    BackupStep::CheckWritten(i) => {
                        &&& o == BackupOutcome::Empty ==> (a.next matches BackupNext::Failed(m) && m@
                            == "backup output is empty: "@ + cs[i as int])
                        &&& o == BackupOutcome::Missing && i + 1 == cs.len() ==> (a.next matches BackupNext::Failed(m)
                            && m@ == not_found_text(cs))
                    },
                    _ => true,
                }
            }),
    {
        let ghost expected = backup_logs(self.step, ev, view_seq(self.candidates@));
        let ghost cs = view_seq(self.candidates@);
        let mut logs: Vec<BackupLog> = Vec::new();
        match self.step {
            BackupStep::ReadClaims => {
                match ev {
                    BackupEvent::Lookup(Ok(doc)) => match pvc_volume_name(&doc) {
                        Some(v) => {
                            self.step = BackupStep::ReadVolume;
                            let args = pv_query_args(v.as_str());
                            return BackupAction { logs, next: BackupNext::Work(BackupWork::Kubectl(args)) };
                        },
                        None => {
                            logs.push(log(BackupLogLevel::Warn, "server PVC path unavailable; using legacy backup path".to_owned()));
                        },
                    },
                    BackupEvent::Lookup(Err(t)) => {
                        logs.push(log(BackupLogLevel::Warn, text2("server PVC path lookup failed; using legacy backup path: ", t.as_str())));
                    },
                    _ => {
                        logs.push(log(BackupLogLevel::Warn, "server PVC path lookup failed; using legacy backup path".to_owned()));
                    },
                }
                assert(log_lines(logs@) =~= expected);
                self.probe(BackupStep::CheckExisting(0), logs)
            },
            BackupStep::ReadVolume => {
                match ev {
                    BackupEvent::Lookup(Ok(doc)) => match extract_pv_path(&doc) {
                        Some(p) => {
                            self.candidates = backup_candidates(self.bg_name.as_str(), self.backup_name.as_str(), Some(p.as_str()));
                            self.pvc_path = Some(p);
                        },
                        None => {
                            logs.push(log(BackupLogLevel::Warn, "server PVC path unavailable; using legacy backup path".to_owned()));
                        },
                    },
                    BackupEvent::Lookup(Err(t)) => {
                        logs.push(log(BackupLogLevel::Warn, text2("server PVC path lookup failed; using legacy backup path: ", t.as_str())));
                    },
                    _ => {
                        logs.push(log(BackupLogLevel::Warn, "server PVC path lookup failed; using legacy backup path".to_owned()));
                    },
                }
                assert(view_seq(self.candidates@).len() == self.candidates@.len());
                assert(log_lines(logs@) =~= expected);
                self.probe(BackupStep::CheckExisting(0), logs)
            },
            BackupStep::CheckExisting(i) => self.after_stat(i, false, ev),
            BackupStep::CheckWritten(i) => self.after_stat(i, true, ev),
            BackupStep::RunHelper => match ev {
                BackupEvent::Helper(Ok(())) => self.probe(BackupStep::CheckWritten(0), logs),
                BackupEvent::Helper(Err(t)) => self.fail(logs, t),
                _ => self.fail(logs, "unexpected result while the backup helper ran".to_owned()),
            },
            BackupStep::CheckSpec(i) => {
                let spec = companion_spec_path(self.candidates[i].as_str());
                match ev {
                    BackupEvent::Probe(Ok((true, _))) => {
                        logs.push(log(BackupLogLevel::Info, text2("backup companion spec present path=", spec.as_str())));
                        assert(cs[i as int] == self.candidates@[i as int]@);
                        assert("backup companion spec present path="@ + spec@ =~= "backup companion spec present path="@
                            + cs[i as int] + ".yaml"@);
                        assert(log_lines(logs@) =~= expected);
                        self.finish(logs)
                    },
                    BackupEvent::Probe(Ok((false, _))) => {
                        if i + 1 < self.candidates.len() {
                            assert(log_lines(logs@) =~= expected);
                            self.probe(BackupStep::CheckSpec(i + 1), logs)
                        } else {
                            logs.push(log(BackupLogLevel::Warn, "backup companion spec missing from all expected paths".to_owned()));
                            assert(log_lines(logs@) =~= expected);
                            self.finish(logs)
                        }
                    },
                    BackupEvent::Probe(Err(t)) => {
                        let head = text2("checking backup companion spec ", spec.as_str());
                        let m = text2(head.as_str(), text2(": ", t.as_str()).as_str());
                        assert(cs[i as int] == self.candidates@[i as int]@);
                        assert(m@ =~= "checking backup companion spec "@ + cs[i as int] + ".yaml"@ + ": "@ + t@);
                        self.fail(logs, m)
                    },
                    _ => self.fail(logs, "unexpected result while checking the backup companion spec".to_owned()),
                }
            },
            _ => self.fail(logs, "the backup run is already over".to_owned()),
        }
    }

    /// Ends the run with the verified dump.
    fn finish(&mut self, logs: Vec<BackupLog>) -> (a: BackupAction)
        requires
            old(self).wf(),
            old(self).step is CheckSpec,
        ensures
            final(self).step == BackupStep::Done,
            final(self).bg_name == old(self).bg_name,
            final(self).backup_name == old(self).backup_name,
            final(self).pvc_path == old(self).pvc_path,
            final(self).candidates == old(self).candidates,
            final(self).verified == old(self).verified,
            final(self).wf(),
            work_fits(a.next, *final(self)),
            a.logs == logs,
    {
        self.step = BackupStep::Done;
        let path = self.verified.as_ref().unwrap().clone();
        BackupAction { logs, next: BackupNext::Finished(path) }
    }

    /// Decides after `stat` of candidate `i`, before (`written` false) or after the helper ran.
    fn after_stat(&mut self, i: usize, written: bool, ev: BackupEvent) -> (a: BackupAction)
        requires
            old(self).wf(),
            old(self).step == (if written {
                BackupStep::CheckWritten(i)
            } else {
                BackupStep::CheckExisting(i)
            }),
        ensures
            final(self).wf(),
            final(self).bg_name == old(self).bg_name,
            final(self).backup_name == old(self).backup_name,
            final(self).pvc_path == old(self).pvc_path,
            final(self).step == next_backup_step(
                old(self).step,
                outcome_of(old(self).step, ev),
                old(self).candidates@.len() as nat,
            ),
            work_fits(a.next, *final(self)),
            final(self).verified == recorded_dump(old(self).step, outcome_of(old(self).step, ev), old(self).candidates@, old(self).verified),
            ({
                let cs = view_seq(old(self).candidates@);
                &&& outcome_of(old(self).step, ev) == BackupOutcome::Empty ==> (a.next matches BackupNext::Failed(m)
                    && m@ == "backup output is empty: "@ + cs[i as int])
                &&& written && outcome_of(old(self).step, ev) == BackupOutcome::Missing && i + 1 == cs.len() ==> (
                a.next matches BackupNext::Failed(m) && m@ == not_found_text(cs))
                &&& !written && outcome_of(old(self).step, ev) == BackupOutcome::Verified ==> a.next
                    == BackupNext::Finished(old(self).candidates@[i as int])
            }),
            log_lines(a.logs@) == backup_logs(old(self).step, ev, view_seq(old(self).candidates@)),
            work_failure(old(self).step, ev, view_seq(old(self).candidates@)) matches Some(m) ==> (a.next matches BackupNext::Failed(f) && f@ == m),
    {
        let mut logs: Vec<BackupLog> = Vec::new();
        let path = self.candidates[i].clone();
        let (ok, out) = match ev {
            BackupEvent::Probe(Ok(r)) => r,
            BackupEvent::Probe(Err(t)) => {
                let head = text2("checking backup output ", path.as_str());
                let m = text2(head.as_str(), text2(": ", t.as_str()).as_str());
                assert(view_seq(self.candidates@)[i as int] == path@);
                assert(m@ =~= "checking backup output "@ + path@ + ": "@ + t@);
                return self.fail(logs, m);
            },
            _ => {
                return self.fail(logs, "unexpected result while checking the backup output".to_owned());
            },
        };
        match check_backup_stat(ok, out.as_str()) {
            BackupCheck::Missing => {
                if i + 1 < self.candidates.len() {
                    let next = if written {
                        BackupStep::CheckWritten(i + 1)
                    } else {
                        BackupStep::CheckExisting(i + 1)
                    };
                    self.probe(next, logs)
                } else if written {
                    let m = backup_not_found_message(&self.candidates);
                    self.fail(logs, m)
                } else {
                    self.step = BackupStep::RunHelper;
                    let name = self.backup_name.clone();
                    BackupAction { logs, next: BackupNext::Work(BackupWork::Helper(name)) }
                }
            },
            BackupCheck::Empty => {
                let m = text2("backup output is empty: ", path.as_str());
                self.fail(logs, m)
            },
            BackupCheck::Verified(size) => {
                let mut line: Vec<char> = Vec::new();
                extend_str(&mut line, "backup verified path=");
                extend_str(&mut line, path.as_str());
                extend_str(&mut line, " bytes=");
                push_decimal(&mut line, size);
                logs.push(log(BackupLogLevel::Info, string_of(line.as_slice())));
                proof {
                    assert(view_seq(self.candidates@)[i as int] == path@);
                    assert(view_seq(self.candidates@).contains(path@));
                }
                self.verified = Some(path.clone());
                if written {
                    self.probe(BackupStep::CheckSpec(0), logs)
                } else {
                    logs.push(log(BackupLogLevel::Info, text2("reusing existing verified backup path=", path.as_str())));
                    self.step = BackupStep::Done;
                    BackupAction { logs, next: BackupNext::Finished(path) }
                }
            },
        }
    }

    /// Starts a run of the dump `backup_name` of BattleGroup `bg_name` in
    /// `namespace`: refuses a name that is not a single file name, else asks
    /// for the server's volume claims.
    pub fn start(bg_name: String, backup_name: String, namespace: &str) -> (r: (BackupRun, BackupAction))
        ensures
            r.0.wf(),
            r.0.bg_name == bg_name && r.0.backup_name == backup_name && r.0.pvc_path is None,
            valid_backup_name(backup_name@) ==> r.0.step == BackupStep::ReadClaims && (r.1.next matches BackupNext::Work(
                BackupWork::Kubectl(args)) && view_seq(args@) == pvc_query(namespace@)),
            !valid_backup_name(backup_name@) ==> r.0.step == BackupStep::Failed && (r.1.next matches BackupNext::Failed(m)
                && m@ == "backup name must be a single file name"@),
            work_fits(r.1.next, r.0),
    {
        let checked = validate_backup_name(backup_name.as_str());
        let candidates = backup_candidates(bg_name.as_str(), backup_name.as_str(), None);
        let mut run = BackupRun { bg_name, backup_name, pvc_path: None, candidates, verified: None, step: BackupStep::ReadClaims };
        match checked {
            Err(m) => {
                run.step = BackupStep::Failed;
                (run, BackupAction { logs: Vec::new(), next: BackupNext::Failed(m) })
            },
            Ok(()) => {
                let args = pvc_query_args(namespace);
                (run, BackupAction { logs: Vec::new(), next: BackupNext::Work(BackupWork::Kubectl(args)) })
            },
        }
    }
}


/// A dump that is already there and verified is reused: the helper does not run.
pub proof fn lemma_existing_dump_is_reused(i: usize, n: nat)
    ensures
        next_backup_step(BackupStep::CheckExisting(i), BackupOutcome::Verified, n) == BackupStep::Done,
{
}

/// The helper runs only after every candidate path was found without a dump.
pub proof fn lemma_helper_runs_only_when_no_dump_exists(step: BackupStep, o: BackupOutcome, n: nat)
    ensures
        next_backup_step(step, o, n) == BackupStep::RunHelper ==> (step matches BackupStep::CheckExisting(i) && i + 1
            >= n && o == BackupOutcome::Missing),
{
}

/// The dump a run reports is the candidate whose size check succeeded; a
/// missing candidate leaves the run holding no dump and moves on to the next.
pub proof fn lemma_reported_dump_is_the_checked_candidate(i: usize, cs: Seq<String>, before: Option<String>)
    requires
        i < cs.len(),
    ensures
        recorded_dump(BackupStep::CheckExisting(i), BackupOutcome::Verified, cs, before) == Some(cs[i as int]),
        recorded_dump(BackupStep::CheckWritten(i), BackupOutcome::Verified, cs, before) == Some(cs[i as int]),
        recorded_dump(BackupStep::CheckWritten(i), BackupOutcome::Missing, cs, before) == before,
        i + 1 < cs.len() ==> next_backup_step(BackupStep::CheckWritten(i), BackupOutcome::Missing, cs.len())
            == BackupStep::CheckWritten((i + 1) as usize),
{
}

/// An empty dump fails the run, before and after the helper ran.
pub proof fn lemma_empty_dump_fails(i: usize, n: nat)
    ensures
        next_backup_step(BackupStep::CheckExisting(i), BackupOutcome::Empty, n) == BackupStep::Failed,
        next_backup_step(BackupStep::CheckWritten(i), BackupOutcome::Empty, n) == BackupStep::Failed,
{
}

/// A failed or empty volume lookup only means the legacy path is used.
pub proof fn lemma_volume_lookup_failures_fall_back(n: nat)
    ensures
        next_backup_step(BackupStep::ReadClaims, BackupOutcome::Unavailable, n) == BackupStep::CheckExisting(0),
        next_backup_step(BackupStep::ReadVolume, BackupOutcome::Unavailable, n) == BackupStep::CheckExisting(0),
{
}

/// A missing spec file beside the dump is no failure: the run still ends with the dump.
pub proof fn lemma_missing_spec_file_is_not_fatal(i: usize, n: nat)
    requires
        i + 1 >= n,
    ensures
        next_backup_step(BackupStep::CheckSpec(i), BackupOutcome::Absent, n) == BackupStep::Done,
{
}

} // verus!
