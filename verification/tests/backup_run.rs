use dune_manager::json::JsonValue;
use dune_manager::server_service::backup_run::{
    BackupAction, BackupEvent, BackupLogLevel, BackupNext, BackupRun, BackupStep, BackupWork,
};

fn obj(members: Vec<(&str, JsonValue)>) -> JsonValue {
    JsonValue::Object(members.into_iter().map(|(k, v)| (k.to_string(), v)).collect())
}

fn s(v: &str) -> JsonValue {
    JsonValue::String(v.to_string())
}

fn claims(volume: &str) -> JsonValue {
    obj(vec![("items", JsonValue::Array(vec![obj(vec![("spec", obj(vec![("volumeName", s(volume))]))])]))])
}

fn volume(path: &str) -> JsonValue {
    obj(vec![("spec", obj(vec![("local", obj(vec![("path", s(path))]))]))])
}

fn sudo_args(action: &BackupAction) -> Vec<String> {
    match &action.next {
        BackupNext::Work(BackupWork::Sudo(args)) => args.clone(),
        other => panic!("expected a sudo probe, got {other:?}"),
    }
}

const PVC_DUMP: &str = "/var/lib/pvc/Saved/DatabaseDumps/world-1.backup";
const LEGACY_DUMP: &str = "/funcom/artifacts/database-dumps/world/world-1.backup";

#[test]
fn fresh_backup_runs_helper_then_verifies_dump_and_spec() {
    let (mut run, action) = BackupRun::start("world".to_string(), "world-1.backup".to_string(), "funcom-seabass-w");
    assert_eq!(
        action.next,
        BackupNext::Work(BackupWork::Kubectl(
            ["get", "pvc", "-n", "funcom-seabass-w", "-l", "role=igw-server", "-o", "json"].map(String::from).to_vec()
        ))
    );
    let action = run.advance(BackupEvent::Lookup(Ok(claims("pvc-9"))));
    assert_eq!(
        action.next,
        BackupNext::Work(BackupWork::Kubectl(["get", "pv", "pvc-9", "-o", "json"].map(String::from).to_vec()))
    );
    let action = run.advance(BackupEvent::Lookup(Ok(volume("/var/lib/pvc"))));
    assert_eq!(run.candidates, vec![PVC_DUMP.to_string(), LEGACY_DUMP.to_string()]);
    assert_eq!(sudo_args(&action), ["-n", "stat", "-c", "%s", PVC_DUMP].map(String::from).to_vec());
    let action = run.advance(BackupEvent::Probe(Ok((false, String::new()))));
    assert_eq!(sudo_args(&action)[4], LEGACY_DUMP);
    let action = run.advance(BackupEvent::Probe(Ok((false, String::new()))));
    assert_eq!(action.next, BackupNext::Work(BackupWork::Helper("world-1.backup".to_string())));
    let action = run.advance(BackupEvent::Helper(Ok(())));
    assert_eq!(run.step, BackupStep::CheckWritten(0));
    assert_eq!(sudo_args(&action)[4], PVC_DUMP);
    let action = run.advance(BackupEvent::Probe(Ok((true, "4096\n".to_string()))));
    assert_eq!(action.logs[0].message, format!("backup verified path={PVC_DUMP} bytes=4096"));
    assert_eq!(sudo_args(&action), ["-n", "test", "-f", &format!("{PVC_DUMP}.yaml")].map(String::from).to_vec());
    let action = run.advance(BackupEvent::Probe(Ok((true, String::new()))));
    assert_eq!(action.next, BackupNext::Finished(PVC_DUMP.to_string()));
    assert_eq!(action.logs[0].level, BackupLogLevel::Info);
}

#[test]
fn existing_dump_is_reused_without_running_the_helper() {
    let (mut run, _) = BackupRun::start("world".to_string(), "world-1.backup".to_string(), "ns");
    let action = run.advance(BackupEvent::Lookup(Err("connection refused".to_string())));
    assert_eq!(action.logs[0].level, BackupLogLevel::Warn);
    assert_eq!(
        action.logs[0].message,
        "server PVC path lookup failed; using legacy backup path: connection refused"
    );
    assert_eq!(sudo_args(&action)[4], LEGACY_DUMP);
    let action = run.advance(BackupEvent::Probe(Ok((true, "77".to_string()))));
    assert_eq!(action.next, BackupNext::Finished(LEGACY_DUMP.to_string()));
    assert_eq!(action.logs[1].message, format!("reusing existing verified backup path={LEGACY_DUMP}"));
}

#[test]
fn empty_or_missing_dumps_fail_the_run() {
    let (mut run, _) = BackupRun::start("world".to_string(), "world-1.backup".to_string(), "ns");
    run.advance(BackupEvent::Lookup(Ok(obj(vec![]))));
    let action = run.advance(BackupEvent::Probe(Ok((true, "0".to_string()))));
    assert_eq!(action.next, BackupNext::Failed(format!("backup output is empty: {LEGACY_DUMP}")));

    let (mut run, _) = BackupRun::start("world".to_string(), "world-1.backup".to_string(), "ns");
    run.advance(BackupEvent::Lookup(Ok(obj(vec![]))));
    run.advance(BackupEvent::Probe(Ok((false, String::new()))));
    run.advance(BackupEvent::Helper(Ok(())));
    let action = run.advance(BackupEvent::Probe(Ok((false, String::new()))));
    assert_eq!(
        action.next,
        BackupNext::Failed(format!("backup output not found in expected paths: {LEGACY_DUMP}"))
    );
}

#[test]
fn missing_spec_file_only_warns() {
    let (mut run, _) = BackupRun::start("world".to_string(), "world-1.backup".to_string(), "ns");
    run.advance(BackupEvent::Lookup(Ok(obj(vec![]))));
    run.advance(BackupEvent::Probe(Ok((false, String::new()))));
    run.advance(BackupEvent::Helper(Ok(())));
    run.advance(BackupEvent::Probe(Ok((true, "12".to_string()))));
    let action = run.advance(BackupEvent::Probe(Ok((false, String::new()))));
    assert_eq!(action.next, BackupNext::Finished(LEGACY_DUMP.to_string()));
    assert_eq!(action.logs[0].level, BackupLogLevel::Warn);
    assert_eq!(action.logs[0].message, "backup companion spec missing from all expected paths");
}

#[test]
fn bad_names_and_helper_failures_end_the_run() {
    let (run, action) = BackupRun::start("world".to_string(), "../x.backup".to_string(), "ns");
    assert_eq!(run.step, BackupStep::Failed);
    assert_eq!(action.next, BackupNext::Failed("backup name must be a single file name".to_string()));

    let (mut run, _) = BackupRun::start("world".to_string(), "w.backup".to_string(), "ns");
    run.advance(BackupEvent::Lookup(Ok(obj(vec![]))));
    run.advance(BackupEvent::Probe(Ok((false, String::new()))));
    let action = run.advance(BackupEvent::Helper(Err("helper exited 1".to_string())));
    assert_eq!(action.next, BackupNext::Failed("helper exited 1".to_string()));
}

#[test]
fn probes_that_cannot_run_end_the_run() {
    let (mut run, _) = BackupRun::start("world".to_string(), "world-1.backup".to_string(), "ns");
    run.advance(BackupEvent::Lookup(Ok(obj(vec![]))));
    let action = run.advance(BackupEvent::Probe(Err("sudo: a password is required".to_string())));
    assert_eq!(
        action.next,
        BackupNext::Failed(format!("checking backup output {LEGACY_DUMP}: sudo: a password is required"))
    );

    let (mut run, _) = BackupRun::start("world".to_string(), "world-1.backup".to_string(), "ns");
    run.advance(BackupEvent::Lookup(Ok(obj(vec![]))));
    run.advance(BackupEvent::Probe(Ok((false, String::new()))));
    run.advance(BackupEvent::Helper(Ok(())));
    run.advance(BackupEvent::Probe(Ok((true, "5".to_string()))));
    let action = run.advance(BackupEvent::Probe(Err("timeout".to_string())));
    assert_eq!(
        action.next,
        BackupNext::Failed(format!("checking backup companion spec {LEGACY_DUMP}.yaml: timeout"))
    );
}

#[test]
fn reported_dump_is_the_candidate_whose_size_was_checked() {
    let (mut run, _) = BackupRun::start("world".to_string(), "world-1.backup".to_string(), "ns");
    run.advance(BackupEvent::Lookup(Ok(claims("pvc-9"))));
    run.advance(BackupEvent::Lookup(Ok(volume("/var/lib/pvc"))));
    run.advance(BackupEvent::Probe(Ok((false, String::new()))));
    run.advance(BackupEvent::Probe(Ok((false, String::new()))));
    run.advance(BackupEvent::Helper(Ok(())));
    assert_eq!(run.verified, None);
    let action = run.advance(BackupEvent::Probe(Ok((false, String::new()))));
    assert_eq!(run.step, BackupStep::CheckWritten(1));
    assert_eq!(run.verified, None);
    assert_eq!(sudo_args(&action)[4], LEGACY_DUMP);
    let action = run.advance(BackupEvent::Probe(Ok((true, "12".to_string()))));
    assert_eq!(run.verified, Some(LEGACY_DUMP.to_string()));
    assert_eq!(action.logs[0].message, format!("backup verified path={LEGACY_DUMP} bytes=12"));
    let action = run.advance(BackupEvent::Probe(Ok((false, String::new()))));
    assert_eq!(sudo_args(&action), ["-n", "test", "-f", &format!("{LEGACY_DUMP}.yaml")].map(String::from).to_vec());
    let action = run.advance(BackupEvent::Probe(Ok((false, String::new()))));
    assert_eq!(action.next, BackupNext::Finished(LEGACY_DUMP.to_string()));
}
