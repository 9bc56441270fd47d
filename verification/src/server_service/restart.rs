//! Whether a scheduled restart should run: a restart queued behind an update
//! that already restarted every server would kick players a second time.
use vstd::prelude::*;
use chrono::{DateTime, Utc};
use crate::server_service::tasks::{TaskOutcome, TaskRun, TaskRunStatus, TaskTrigger};
use crate::text::{chars_eq, chars_of};

verus! {

/// A scheduled restart is skipped within this many seconds after an applied update.
pub const RECENT_UPDATE_WINDOW_SECS: i64 = 1800;

/// An instant in UTC: seconds since the Unix epoch and the nanoseconds past that second.
#[derive(Clone, Copy, Debug, PartialEq, Eq)]
pub struct UtcInstant {
    pub seconds: i64,
    pub nanos: u32,
}

/// The whole seconds from the RFC 3339 timestamp `finished` to the instant
/// (`now_seconds`, `now_nanos`), as chrono counts them; `None` when
/// `finished` is not RFC 3339 or the instant is outside chrono's range.
pub uninterp spec fn rfc3339_age_seconds(now_seconds: i64, now_nanos: u32, finished: Seq<char>) -> Option<i64>;

/// Age of an RFC 3339 timestamp at `now` in whole seconds: chrono's
/// `DateTime::parse_from_rfc3339`, converted to UTC, subtracted from `now`
/// with `signed_duration_since` and counted with `num_seconds` (which rounds
/// toward zero). Only that the result is a function of the arguments is
/// claimed; what chrono computes is not restated.
#[verifier::external_body]
fn age_seconds(now: UtcInstant, finished: &str) -> (r: Option<i64>)
    ensures
        r == rfc3339_age_seconds(now.seconds, now.nanos, finished@),
{
    let now = DateTime::<Utc>::from_timestamp(now.seconds, now.nanos)?;
    match DateTime::parse_from_rfc3339(finished) {
        Ok(finished) => Some(now.signed_duration_since(finished.with_timezone(&Utc)).num_seconds()),
        Err(_) => None,
    }
}

/// An age (in whole seconds) within the recent-update window: known, not
/// negative, and at most `RECENT_UPDATE_WINDOW_SECS`.
pub open spec fn in_recent_window(age: Option<i64>) -> bool {
    match age {
        Some(a) => 0 <= a <= RECENT_UPDATE_WINDOW_SECS,
        None => false,
    }
}

/// Whether an update that finished `age` seconds ago counts as recent.
pub fn within_recent_window(age: Option<i64>) -> (r: bool)
    ensures
        r == in_recent_window(age),
{
    match age {
        Some(a) => 0 <= a && a <= RECENT_UPDATE_WINDOW_SECS,
        None => false,
    }
}

/// A real (non dry-run) update-apply run that succeeded and finished within
/// the recent-update window before `now`.
pub open spec fn applied_within_window(run: TaskRun, now: UtcInstant) -> bool {
    &&& run.task_id@ == "update-apply"@
    &&& run.status == TaskRunStatus::Success
    &&& !run.dry_run
    &&& match run.finished_at {
        Some(ts) => in_recent_window(rfc3339_age_seconds(now.seconds, now.nanos, ts@)),
        None => false,
    }
}

/// True when a real (non dry-run) update-apply run succeeded within the
/// recent-update window.
pub fn update_applied_recently(runs: &[TaskRun], now: UtcInstant) -> (r: bool)
    ensures
        r == exists|i: int| 0 <= i < runs@.len() && applied_within_window(#[trigger] runs@[i], now),
{
    let update_apply = chars_of("update-apply");
    let mut i: usize = 0;
    while i < runs.len()
        invariant
            i <= runs@.len(),
            update_apply@ == "update-apply"@,
            forall|k: int| 0 <= k < i ==> !applied_within_window(#[trigger] runs@[k], now),
        decreases runs@.len() - i,
    {
        let run = &runs[i];
        let status_ok = match run.status {
            TaskRunStatus::Success => true,
            _ => false,
        };
        let is_update = chars_eq(chars_of(run.task_id.as_str()).as_slice(), update_apply.as_slice());
        if is_update && status_ok && !run.dry_run {
            match &run.finished_at {
                Some(ts) => {
                    if within_recent_window(age_seconds(now, ts.as_str())) {
                        assert(applied_within_window(runs@[i as int], now));
                        return true;
                    }
                },
                None => {},
            }
        }
        i = i + 1;
    }
    false
}

/// What a restart run does.
#[derive(Clone, Copy, Debug, PartialEq, Eq, Structural)]
pub enum RestartDecision {
    /// The BattleGroup is stopped: nothing to do.
    SkipStopped,
    /// An update restarted every server moments ago: skip.
    SkipRecentUpdate,
    /// Restart the BattleGroup.
    Restart,
}

/// Scheduled restarts are skipped while the BattleGroup is stopped
/// (`spec.stop` reads `true`) or right after an applied update; manual and
/// startup runs always restart.
pub fn restart_decision(trigger: TaskTrigger, stop_value: &str, updated_recently: bool) -> (r: RestartDecision)
    ensures
        r == (if trigger == TaskTrigger::Scheduled {
            if stop_value@ == "true"@ {
                RestartDecision::SkipStopped
            } else if updated_recently {
                RestartDecision::SkipRecentUpdate
            } else {
                RestartDecision::Restart
            }
        } else {
            RestartDecision::Restart
        }),
{
    match trigger {
        TaskTrigger::Scheduled => {
            if chars_eq(chars_of(stop_value).as_slice(), chars_of("true").as_slice()) {
                RestartDecision::SkipStopped
            } else if updated_recently {
                RestartDecision::SkipRecentUpdate
            } else {
                RestartDecision::Restart
            }
        },
        _ => RestartDecision::Restart,
    }
}

/// What a restart run ends with.
#[derive(Clone, Copy, Debug, PartialEq, Eq, Structural)]
pub enum RestartAction {
    /// End the run with this outcome; the restart helper is not invoked.
    Finish(TaskOutcome),
    /// Invoke the restart helper and wait for the BattleGroup to run again.
    InvokeRestart,
}

/// A stopped BattleGroup ends the run with nothing done, a recent update ends
/// it done, a dry run ends it done without restarting; otherwise restart.
pub fn restart_action(decision: RestartDecision, dry_run: bool) -> (r: RestartAction)
    ensures
        r == (match decision {
            RestartDecision::SkipStopped => RestartAction::Finish(TaskOutcome::Noop),
            RestartDecision::SkipRecentUpdate => RestartAction::Finish(TaskOutcome::Done),
            RestartDecision::Restart => if dry_run {
                RestartAction::Finish(TaskOutcome::Done)
            } else {
                RestartAction::InvokeRestart
            },
        }),
{
    match decision {
        RestartDecision::SkipStopped => RestartAction::Finish(TaskOutcome::Noop),
        RestartDecision::SkipRecentUpdate => RestartAction::Finish(TaskOutcome::Done),
        RestartDecision::Restart => if dry_run {
            RestartAction::Finish(TaskOutcome::Done)
        } else {
            RestartAction::InvokeRestart
        },
    }
}

} // verus!
