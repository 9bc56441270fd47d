use dune_manager::command::CommandFailure;
use dune_manager::desktop::battlegroup_update::{
    accept_finished_update, live_matches_downloaded, update_output_note, vendor_update_reported_finish,
    RemoteServerPackageStatus,
};
use dune_manager::desktop::shell::{powershell_script_args, ps_single_quoted};
use dune_manager::desktop::status::{disk_usage_from, parse_df_output, parse_server_pod_starts, pod_starts_from};

fn failure(stdout: &str, stderr: &str) -> CommandFailure {
    CommandFailure {
        message: "ssh remote command exited with status 1".to_string(),
        stdout: stdout.to_string(),
        stderr: stderr.to_string(),
        code: Some(1),
    }
}

fn package(downloaded: Option<&str>, live: Option<&str>) -> RemoteServerPackageStatus {
    RemoteServerPackageStatus {
        installed_build_id: None,
        battlegroup_version: downloaded.map(str::to_string),
        live_battlegroup_version: live.map(str::to_string),
        operator_version: None,
    }
}

#[test]
fn finish_marker_detected_in_stdout_or_stderr() {
    let out = "Finished updating battlegroup to version 1979201-0-shipping";
    let err = "ln: /home/dune/.dune/bin/battlegroup: File exists";
    assert!(vendor_update_reported_finish(&failure(out, err)));
    assert!(vendor_update_reported_finish(&failure("", out)));
}

#[test]
fn missing_finish_marker_is_a_real_failure() {
    let err = "ERROR! Failed to install app '4754530' (Missing configuration)";
    assert!(!vendor_update_reported_finish(&failure("", err)));
}

#[test]
fn live_must_match_downloaded_version() {
    let v = Some("1979201-0-shipping");
    assert!(live_matches_downloaded(&package(v, v)));
    assert!(!live_matches_downloaded(&package(
        Some("1979201-0-shipping"),
        Some("1973075-0-shipping")
    )));
    assert!(!live_matches_downloaded(&package(None, v)));
    assert!(!live_matches_downloaded(&package(v, None)));
    assert!(!live_matches_downloaded(&package(Some(" "), Some(" "))));
}

#[test]
fn live_version_comparison_ignores_surrounding_whitespace() {
    assert!(live_matches_downloaded(&package(Some(" 1979201-0-shipping\n"), Some("1979201-0-shipping"))));
}

#[test]
fn finished_update_is_accepted_only_when_live_matches() {
    let out = "Finished updating battlegroup to version 1979201-0-shipping";
    let v = Some("1979201-0-shipping");
    let accepted = accept_finished_update(failure(out, "ln: exists"), Some(&package(v, v))).unwrap();
    assert_eq!(accepted.stdout, out);
    assert_eq!(
        accepted.warning,
        "Vendor update exited with status 1 after finishing; the live BattleGroup runs the downloaded version, so the update is treated as applied."
    );
    let refused = accept_finished_update(failure(out, ""), Some(&package(v, Some("1973075-0-shipping"))));
    assert_eq!(refused.unwrap_err(), "ssh remote command exited with status 1");
    let unread = accept_finished_update(failure(out, ""), None);
    assert!(unread.is_err());
    let unfinished = accept_finished_update(failure("", "boom"), Some(&package(v, v)));
    assert!(unfinished.is_err());
}

#[test]
fn accepted_update_warning_names_unknown_and_negative_status() {
    let out = "Finished updating battlegroup to version 1";
    let v = Some("1");
    let mut f = failure(out, "");
    f.code = None;
    let a = accept_finished_update(f, Some(&package(v, v))).unwrap();
    assert!(a.warning.starts_with("Vendor update exited with status unknown after"));
    let mut g = failure(out, "");
    g.code = Some(-15);
    let b = accept_finished_update(g, Some(&package(v, v))).unwrap();
    assert!(b.warning.starts_with("Vendor update exited with status -15 after"));
}

#[test]
fn update_output_note_is_trimmed_or_absent() {
    assert_eq!(update_output_note("  done\n"), Some("done".to_string()));
    assert_eq!(update_output_note(" \n\t"), None);
}

#[test]
fn parses_root_and_separate_k3s_mount() {
    let text = "/dev/sda1 102687672 46341296 51087596 48% /\n\
                /dev/sdb1 515928320 120000000 369684992 25% /var/lib/rancher\n";
    let disks = parse_df_output(text);
    assert_eq!(disks.len(), 2);
    assert_eq!(disks[0].mount, "/");
    assert_eq!(disks[0].total_kb, 102_687_672);
    assert_eq!(disks[0].used_kb, 46_341_296);
    assert_eq!(disks[0].available_kb, 51_087_596);
    assert_eq!(disks[1].mount, "/var/lib/rancher");
}

#[test]
fn same_filesystem_is_reported_once() {
    let text = "/dev/sda1 102687672 46341296 51087596 48% /\n\
                /dev/sda1 102687672 46341296 51087596 48% /\n";
    assert_eq!(parse_df_output(text).len(), 1);
}

#[test]
fn skips_headers_and_malformed_lines() {
    let text = "Filesystem 1024-blocks Used Available Capacity Mounted on\n\
                overlay broken\n\
                tmpfs 0 0 0 - /dev/shm\n";
    assert!(parse_df_output(text).is_empty());
}

#[test]
fn mount_points_with_spaces_are_joined() {
    let text = "/dev/sdc1 100 10 90 10% /mnt/game  data\r\n";
    let disks = parse_df_output(text);
    assert_eq!(disks.len(), 1);
    assert_eq!(disks[0].mount, "/mnt/game data");
    assert_eq!(disks[0].total_kb, 100);
}

#[test]
fn sizes_that_overflow_or_carry_signs_are_rejected() {
    assert!(parse_df_output("/dev/x 18446744073709551616 1 1 1% /a\n").is_empty());
    assert!(parse_df_output("/dev/x -5 1 1 1% /a\n").is_empty());
    assert_eq!(parse_df_output("/dev/x +5 1 1 1% /a").len(), 1);
    assert_eq!(parse_df_output("/dev/x 18446744073709551615 1 1 1% /a")[0].total_kb, u64::MAX);
}

#[test]
fn maps_partition_suffix_to_start_time() {
    let text = "sh-x-rcpxhh-sg-survival-1-pod-1\t2026-06-01T10:00:00Z\n\
                sh-x-rcpxhh-sg-survival-1-pod-31\t2026-06-01T12:30:00Z\n\
                sh-x-rcpxhh-sg-deepdesert-1-pod-8\t2026-06-01T11:00:00Z\n";
    let starts = parse_server_pod_starts(text);
    assert_eq!(starts.len(), 3);
    assert_eq!(
        starts.get(&31).map(String::as_str),
        Some("2026-06-01T12:30:00Z")
    );
    assert_eq!(
        starts.get(&8).map(String::as_str),
        Some("2026-06-01T11:00:00Z")
    );
}

#[test]
fn ignores_non_server_pods_and_pending_pods() {
    let text = "sh-x-rcpxhh-db-dbdepl-sts-0\t2026-06-01T10:00:00Z\n\
                sh-x-rcpxhh-sgw-deploy-577498fc65-pmkfb\t2026-06-01T10:00:00Z\n\
                sh-x-rcpxhh-dump-20260601-020000-pod\t2026-06-01T02:00:00Z\n\
                sh-x-rcpxhh-sg-overmap-pod-2\t\n\
                garbage line without tab\n";
    assert!(parse_server_pod_starts(text).is_empty());
}

#[test]
fn later_line_for_a_partition_wins() {
    let text = "a-sg-m-pod-4\t2026-06-01T10:00:00Z\na-sg-m-pod-4\t 2026-06-01T11:00:00Z \n";
    let starts = parse_server_pod_starts(text);
    assert_eq!(starts.len(), 1);
    assert_eq!(starts.get(&4).map(String::as_str), Some("2026-06-01T11:00:00Z"));
}

#[test]
fn powershell_quoting_doubles_single_quotes() {
    assert_eq!(ps_single_quoted("C:\\Dune's Server"), "'C:\\Dune''s Server'");
    assert_eq!(ps_single_quoted(""), "''");
}

#[test]
fn disk_usage_answer_is_parsed_or_empty() {
    let text = "/dev/sda1 102687672 46341296 51087596 48% /\n";
    let disks = disk_usage_from(Ok(text.to_string()));
    assert_eq!(disks.len(), 1);
    assert_eq!(disks[0].mount, "/");
    assert_eq!(disks[0].available_kb, 51_087_596);
    assert!(disk_usage_from(Err(failure("", "ssh: connection refused"))).is_empty());
}

#[test]
fn pod_start_answer_is_parsed_or_empty() {
    let text = "sh-x-rcpxhh-sg-survival-1-pod-7\t2026-06-01T10:00:00Z\n";
    let starts = pod_starts_from(Ok(text.to_string()));
    assert_eq!(starts.len(), 1);
    assert_eq!(starts.get(&7).map(String::as_str), Some("2026-06-01T10:00:00Z"));
    assert!(pod_starts_from(Err(failure("", "kubectl: not found"))).is_empty());
}

#[test]
fn powershell_scripts_run_without_profile() {
    assert_eq!(
        powershell_script_args("Get-VM | ConvertTo-Json"),
        vec!["-NoProfile", "-ExecutionPolicy", "Bypass", "-Command", "Get-VM | ConvertTo-Json"]
    );
}
