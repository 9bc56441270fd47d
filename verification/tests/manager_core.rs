use dune_manager::command::{validate_kube_arg, validate_plain_value};
use dune_manager::manager_core::database::{DuneDatabase, DuneDatabaseConfig, DuneDatabaseSummary};
use dune_manager::manager_core::strict_command::{powershell_json_command, HostBridge, StrictCommandSpec};

fn summary_json(summary: &DuneDatabaseSummary) -> String {
    let mut map = serde_json::Map::new();
    map.insert("host".to_string(), serde_json::Value::String(summary.host.clone()));
    map.insert("port".to_string(), serde_json::Value::from(summary.port));
    map.insert("database".to_string(), serde_json::Value::String(summary.database.clone()));
    map.insert("user".to_string(), serde_json::Value::String(summary.user.clone()));
    serde_json::to_string(&serde_json::Value::Object(map)).unwrap()
}

#[test]
fn redacted_summary_does_not_include_password() {
    let config = DuneDatabaseConfig::local_vendor_defaults("192.0.2.10".to_string(), "secret-password".to_string());
    let summary = summary_json(&config.redacted_summary());

    assert!(summary.contains("192.0.2.10"));
    assert!(!summary.contains("secret-password"));
}

#[test]
fn vendor_defaults_and_health_report() {
    let config = DuneDatabaseConfig::local_vendor_defaults("db".to_string(), "pw".to_string());
    assert_eq!(config.port, 15432);
    assert_eq!(config.database, "dune");
    assert_eq!(config.user, "dune");
    let db = DuneDatabase::new(config);
    let health = db.health("PostgreSQL 16".to_string());
    assert!(health.ok);
    assert_eq!(health.server_version, "PostgreSQL 16");
    assert_eq!(health.connection.host, "db");
}

#[test]
fn world_partition_queries() {
    let all = DuneDatabase::world_partitions_query(None);
    assert!(all.sql.ends_with("from world_partition order by map, partition_id"));
    assert_eq!(all.map, None);
    let one = DuneDatabase::world_partitions_query(Some("DeepDesert_1"));
    assert!(one.sql.ends_with("from world_partition where map = $1 order by partition_id"));
    assert_eq!(one.map.as_deref(), Some("DeepDesert_1"));
}

#[test]
fn powershell_commands_are_non_interactive() {
    let spec = powershell_json_command("host.readiness", "Get-VM");
    assert_eq!(spec.program, "powershell");
    assert_eq!(spec.args, vec!["-NoProfile", "-NonInteractive", "-ExecutionPolicy", "Bypass", "-Command", "Get-VM"]);
    let custom = StrictCommandSpec::new("x", "pwsh", vec!["-c".to_string()]);
    assert_eq!(custom.id, "x");
    assert_eq!(HostBridge::Native.display_name(), "native");
    assert_eq!(HostBridge::StrictJsonPowerShell.display_name(), "strict-json-powershell");
}

#[test]
fn argument_checks() {
    assert!(validate_kube_arg("funcom-seabass-sh-host-abcdef", "namespace").is_ok());
    assert!(validate_kube_arg("a.b-c", "pod").is_ok());
    assert!(validate_kube_arg("", "pod").is_err());
    assert!(validate_kube_arg("UPPER", "pod").is_err());
    assert!(validate_kube_arg(&"a".repeat(254), "pod").is_err());
    assert!(validate_plain_value("/opt/api bin", "x").is_ok());
    assert!(validate_plain_value("a$b", "x").is_err());
    assert!(validate_plain_value("line\nbreak", "x").is_err());
    assert!(validate_plain_value("", "x").is_err());
}
