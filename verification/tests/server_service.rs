use std::sync::Arc;

use chrono::Utc;
use dune_manager::json::JsonValue;
use dune_manager::server_service::backup::{
    backup_candidates, backup_file_name, backup_not_found_message, check_backup_stat, companion_spec_path,
    extract_pv_path, pv_query_args, pvc_query_args, pvc_volume_name, validate_backup_name, BackupCheck,
};
use dune_manager::server_service::restart::{
    restart_action, restart_decision, update_applied_recently, within_recent_window, RestartAction, RestartDecision,
    UtcInstant,
};
use dune_manager::server_service::runner::{
    begin_run, gate_wait_message, overlap_message, run_disposition, uses_maintenance_gate, RunDisposition, RunStart,
    RunningTasks,
};
use dune_manager::server_service::tasks::{
    BackupTask, RestartTask, Schedule, TaskEnv, TaskOutcome, TaskRun, TaskRunStatus, TaskTrigger,
};

fn obj(members: Vec<(&str, JsonValue)>) -> JsonValue {
    JsonValue::Object(members.into_iter().map(|(k, v)| (k.to_string(), v)).collect())
}

fn s(v: &str) -> JsonValue {
    JsonValue::String(v.to_string())
}

#[test]
fn extracts_local_or_host_path_from_pv() {
    let local = obj(vec![("spec", obj(vec![("local", obj(vec![("path", s("/var/lib/data"))]))]))]);
    let host = obj(vec![("spec", obj(vec![("hostPath", obj(vec![("path", s("/srv/data"))]))]))]);
    assert_eq!(extract_pv_path(&local), Some("/var/lib/data".to_string()));
    assert_eq!(extract_pv_path(&host), Some("/srv/data".to_string()));
}

#[test]
fn empty_local_path_falls_back_to_host_path() {
    let doc = obj(vec![(
        "spec",
        obj(vec![
            ("local", obj(vec![("path", s(""))])),
            ("hostPath", obj(vec![("path", s("/srv/data"))])),
        ]),
    )]);
    assert_eq!(extract_pv_path(&doc), Some("/srv/data".to_string()));
    assert_eq!(extract_pv_path(&obj(vec![])), None);
}

#[test]
fn prefers_pvc_dump_path_and_keeps_legacy_fallback() {
    let paths = backup_candidates("world", "snapshot.backup", Some("/var/lib/pvc"));
    assert_eq!(
        paths,
        [
            "/var/lib/pvc/Saved/DatabaseDumps/snapshot.backup".to_string(),
            "/funcom/artifacts/database-dumps/world/snapshot.backup".to_string(),
        ]
    );
}

#[test]
fn candidate_paths_join_like_path_join() {
    assert_eq!(
        backup_candidates("world", "b.backup", Some("/pvc/")),
        ["/pvc/Saved/DatabaseDumps/b.backup".to_string(), "/funcom/artifacts/database-dumps/world/b.backup".to_string()]
    );
    assert_eq!(backup_candidates("world", "b.backup", None), ["/funcom/artifacts/database-dumps/world/b.backup".to_string()]);
}

#[test]
fn rejects_backup_path_traversal() {
    assert!(validate_backup_name("snapshot.backup").is_ok());
    assert!(validate_backup_name("../snapshot.backup").is_err());
    assert!(validate_backup_name("nested/snapshot.backup").is_err());
}

#[test]
fn rejects_dot_names_and_backslashes() {
    assert!(validate_backup_name("").is_err());
    assert!(validate_backup_name(".").is_err());
    assert!(validate_backup_name("..").is_err());
    assert!(validate_backup_name("a\\b").is_err());
    assert_eq!(validate_backup_name("..").unwrap_err(), "backup name must be a single file name");
    assert!(validate_backup_name("...").is_ok());
}

#[test]
fn backup_stat_outcomes() {
    assert_eq!(check_backup_stat(false, "123"), BackupCheck::Missing);
    assert_eq!(check_backup_stat(true, " 123\n"), BackupCheck::Verified(123));
    assert_eq!(check_backup_stat(true, "0"), BackupCheck::Empty);
    assert_eq!(check_backup_stat(true, "garbage"), BackupCheck::Empty);
    assert_eq!(backup_file_name("bg", "20260601-020000"), "bg-20260601-020000.backup");
    assert_eq!(
        backup_not_found_message(&vec!["/a".to_string(), "/b".to_string()]),
        "backup output not found in expected paths: /a, /b"
    );
}

fn now_instant() -> UtcInstant {
    let now = Utc::now();
    UtcInstant { seconds: now.timestamp(), nanos: now.timestamp_subsec_nanos() }
}

fn run(status: TaskRunStatus, dry_run: bool, finished_mins_ago: Option<i64>) -> TaskRun {
    let now = Utc::now();
    TaskRun {
        id: 1,
        task_id: "update-apply".to_string(),
        trigger: TaskTrigger::Scheduled,
        dry_run,
        status,
        started_at: now.to_rfc3339(),
        finished_at: finished_mins_ago.map(|mins| (now - chrono::Duration::minutes(mins)).to_rfc3339()),
        duration_ms: None,
        error: None,
    }
}

#[test]
fn recent_successful_update_skips_restart() {
    let runs = [run(TaskRunStatus::Success, false, Some(10))];
    assert!(update_applied_recently(&runs, now_instant()));
}

#[test]
fn old_failed_dry_or_unfinished_updates_do_not_skip_restart() {
    let now = now_instant();
    assert!(!update_applied_recently(&[run(TaskRunStatus::Success, false, Some(45))], now));
    assert!(!update_applied_recently(&[run(TaskRunStatus::Failed, false, Some(5))], now));
    assert!(!update_applied_recently(&[run(TaskRunStatus::Success, true, Some(5))], now));
    assert!(!update_applied_recently(&[run(TaskRunStatus::Running, false, None)], now));
    assert!(!update_applied_recently(&[], now));
}

#[test]
fn future_or_unparsable_finish_times_do_not_skip_restart() {
    let now = now_instant();
    assert!(!update_applied_recently(&[run(TaskRunStatus::Success, false, Some(-10))], now));
    let mut bad = run(TaskRunStatus::Success, false, Some(1));
    bad.finished_at = Some("yesterday".to_string());
    assert!(!update_applied_recently(&[bad], now));
    let fixed = UtcInstant { seconds: 1_780_316_000, nanos: 0 };
    let mut edge = run(TaskRunStatus::Success, false, None);
    edge.finished_at = Some("2026-06-01T11:43:20Z".to_string());
    assert!(update_applied_recently(&[edge.clone()], fixed));
    edge.finished_at = Some("2026-06-01T11:13:19Z".to_string());
    assert!(!update_applied_recently(&[edge], fixed));
}

#[test]
fn restart_decisions() {
    assert_eq!(restart_decision(TaskTrigger::Scheduled, "true", false), RestartDecision::SkipStopped);
    assert_eq!(restart_decision(TaskTrigger::Scheduled, "false", true), RestartDecision::SkipRecentUpdate);
    assert_eq!(restart_decision(TaskTrigger::Scheduled, "", false), RestartDecision::Restart);
    assert_eq!(restart_decision(TaskTrigger::Manual, "true", true), RestartDecision::Restart);
}

#[test]
fn schedules_follow_the_settings() {
    let env = Arc::new(TaskEnv {
        restart_enabled: true,
        restart_hour: 5,
        restart_minute: 0,
        backup_enabled: true,
        backup_cron: Some("0 0 3 * * *".to_string()),
    });
    let restart = RestartTask::new(env.clone());
    let backup = BackupTask::new(env.clone());
    assert_eq!(restart.id(), "restart");
    assert_eq!(backup.id(), "backup");
    assert!(restart.exclusive() && backup.exclusive());
    assert_eq!(restart.schedule(), Schedule::Daily { hour: 5, minute: 0 });
    assert_eq!(backup.schedule(), Schedule::Cron("0 0 3 * * *".to_string()));
    let off = Arc::new(TaskEnv {
        restart_enabled: false,
        restart_hour: 5,
        restart_minute: 0,
        backup_enabled: false,
        backup_cron: Some("0 0 3 * * *".to_string()),
    });
    assert_eq!(RestartTask::new(off.clone()).schedule(), Schedule::Disabled);
    assert_eq!(BackupTask::new(off).schedule(), Schedule::Disabled);
}

#[test]
fn a_task_runs_once_at_a_time() {
    let mut running = RunningTasks::new();
    assert!(running.try_begin("backup"));
    assert!(!running.try_begin("backup"));
    assert!(running.try_begin("restart"));
    assert!(running.contains("backup"));
    running.finish("backup");
    assert!(!running.contains("backup"));
    assert!(running.try_begin("backup"));
}

#[test]
fn run_history_dispositions() {
    assert_eq!(
        run_disposition(&Ok(TaskOutcome::Done)),
        RunDisposition::Finish { status: TaskRunStatus::Success, note: None }
    );
    assert_eq!(run_disposition(&Ok(TaskOutcome::Noop)), RunDisposition::Delete);
    assert_eq!(
        run_disposition(&Err("boom".to_string())),
        RunDisposition::Finish { status: TaskRunStatus::Failed, note: Some("boom".to_string()) }
    );
    assert!(uses_maintenance_gate(true, false));
    assert!(!uses_maintenance_gate(true, true));
    assert_eq!(gate_wait_message(Some("update-apply"), "restart"), "waiting for update-apply to finish before running restart");
    assert_eq!(gate_wait_message(None, "backup"), "waiting for another maintenance task to finish before running backup");
    assert_eq!(overlap_message("backup"), "backup is still running; skipping overlapping run.");
}

#[test]
fn server_claim_names_its_volume() {
    let claim = |name: &str| obj(vec![("spec", obj(vec![("volumeName", s(name))]))]);
    let doc = obj(vec![("items", JsonValue::Array(vec![claim("pvc-123"), claim("pvc-456")]))]);
    assert_eq!(pvc_volume_name(&doc), Some("pvc-123".to_string()));
    let empty_name = obj(vec![("items", JsonValue::Array(vec![claim("")]))]);
    assert_eq!(pvc_volume_name(&empty_name), None);
    let no_items = obj(vec![("items", JsonValue::Array(vec![]))]);
    assert_eq!(pvc_volume_name(&no_items), None);
    assert_eq!(pvc_volume_name(&obj(vec![])), None);
    let keyed = obj(vec![("items", obj(vec![("0", claim("pvc-obj"))]))]);
    assert_eq!(pvc_volume_name(&keyed), Some("pvc-obj".to_string()));
}

#[test]
fn volume_lookups_and_companion_spec() {
    assert_eq!(
        pvc_query_args("funcom-seabass-x"),
        vec!["get", "pvc", "-n", "funcom-seabass-x", "-l", "role=igw-server", "-o", "json"]
    );
    assert_eq!(pv_query_args("pvc-123"), vec!["get", "pv", "pvc-123", "-o", "json"]);
    assert_eq!(
        companion_spec_path("/var/lib/pvc/Saved/DatabaseDumps/a.backup"),
        "/var/lib/pvc/Saved/DatabaseDumps/a.backup.yaml"
    );
}

#[test]
fn only_update_apply_runs_count_as_recent_updates() {
    let mut backup = run(TaskRunStatus::Success, false, Some(5));
    backup.task_id = "backup".to_string();
    assert!(!update_applied_recently(&[backup.clone()], now_instant()));
    assert!(update_applied_recently(&[backup, run(TaskRunStatus::Success, false, Some(5))], now_instant()));
    assert!(within_recent_window(Some(0)));
    assert!(within_recent_window(Some(1800)));
    assert!(!within_recent_window(Some(1801)));
    assert!(!within_recent_window(Some(-1)));
    assert!(!within_recent_window(None));
}

#[test]
fn restart_outcomes_follow_the_decision() {
    assert_eq!(restart_action(RestartDecision::SkipStopped, false), RestartAction::Finish(TaskOutcome::Noop));
    assert_eq!(restart_action(RestartDecision::SkipRecentUpdate, false), RestartAction::Finish(TaskOutcome::Done));
    assert_eq!(restart_action(RestartDecision::Restart, true), RestartAction::Finish(TaskOutcome::Done));
    assert_eq!(restart_action(RestartDecision::Restart, false), RestartAction::InvokeRestart);
}

#[test]
fn overlapping_start_is_recorded_as_skipped() {
    let mut running = RunningTasks::new();
    assert_eq!(begin_run(&mut running, "backup", true, false), RunStart::Proceed { gate: true });
    assert_eq!(
        begin_run(&mut running, "backup", true, false),
        RunStart::Overlap {
            warning: "backup is still running; skipping overlapping run.".to_string(),
            status: TaskRunStatus::Skipped,
            note: "overlap".to_string(),
            outcome: TaskOutcome::Done,
        }
    );
    assert_eq!(begin_run(&mut running, "restart", true, true), RunStart::Proceed { gate: false });
    assert!(running.contains("backup") && running.contains("restart"));
}
