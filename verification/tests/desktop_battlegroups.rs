use dune_manager::desktop::battlegroups::{
    battlegroup_stop_patch_command, battlegroup_summary, detail_from_battlegroup, live_battlegroup_command,
    namespace_list_command, parse_guest_identity, snapshot_file_name, summarize_server_sets, unique_strings,
};
use dune_manager::desktop::host_vm::{choose_vm_ip, host_status_script, vm_script, VmScriptKind};
use dune_manager::desktop::manager_api::ManagerApiInstallInput;
use dune_manager::json::{JsonNumber, JsonValue};

fn convert(v: serde_json::Value) -> JsonValue {
    match v {
        serde_json::Value::Null => JsonValue::Null,
        serde_json::Value::Bool(b) => JsonValue::Bool(b),
        serde_json::Value::Number(n) => JsonValue::Number(JsonNumber { as_u64: n.as_u64(), as_i64: n.as_i64() }),
        serde_json::Value::String(s) => JsonValue::String(s),
        serde_json::Value::Array(items) => JsonValue::Array(items.into_iter().map(convert).collect()),
        serde_json::Value::Object(members) => {
            JsonValue::Object(members.into_iter().map(|(k, v)| (k, convert(v))).collect())
        }
    }
}

fn json(text: &str) -> JsonValue {
    convert(serde_json::from_str(text).unwrap())
}

const BATTLEGROUP: &str = r#"{
  "metadata": {"namespace": "funcom-seabass-x", "name": "bg-x"},
  "spec": {
    "title": "My World",
    "stop": true,
    "serverGroup": {"template": {"spec": {"sets": [
      {"map": "Survival_1", "replicas": 2, "resources": {"limits": {"memory": "12Gi"}}, "dedicatedScaling": true, "image": "server:1"},
      {"map": "DeepDesert_1", "image": "server:2"}
    ]}}},
    "utilities": {
      "director": {"spec": {"image": "director:1"}},
      "serverGateway": {"spec": {"image": "gateway:1"}},
      "textRouter": {"spec": {"image": ""}},
      "fileBrowser": {"spec": {"image": "director:1"}},
      "messageQueues": {"templates": [{"spec": {"image": "rmq:1"}}, {"spec": {}}, {"spec": {"image": "gateway:1"}}]}
    }
  },
  "status": {"phase": "Healthy", "database": {"phase": "Ready"}, "serverGroup": {"phase": "Running"},
             "serverGateway": {"phase": "Up"}, "director": {"phase": "Ok"}}
}"#;

#[test]
fn server_sets_default_missing_fields() {
    let sets = summarize_server_sets(&json(BATTLEGROUP));
    assert_eq!(sets.len(), 2);
    assert_eq!(sets[0].map, "Survival_1");
    assert_eq!(sets[0].replicas, 2);
    assert_eq!(sets[0].memory_limit, "12Gi");
    assert!(sets[0].dedicated_scaling);
    assert_eq!(sets[1].replicas, 0);
    assert_eq!(sets[1].memory_limit, "");
    assert!(!sets[1].dedicated_scaling);
}

#[test]
fn detail_collects_phases_and_unique_utility_images() {
    let d = detail_from_battlegroup(&json(BATTLEGROUP));
    assert_eq!(d.namespace, "funcom-seabass-x");
    assert_eq!(d.name, "bg-x");
    assert_eq!(d.title, "My World");
    assert!(d.stop);
    assert_eq!(d.phase, "Healthy");
    assert_eq!(d.database_phase, "Ready");
    assert_eq!(d.server_group_phase, "Running");
    assert_eq!(d.gateway_phase, "Up");
    assert_eq!(d.director_phase, "Ok");
    assert_eq!(d.server_image, "server:1");
    assert_eq!(d.utility_images, vec!["director:1", "gateway:1", "rmq:1"]);
}

#[test]
fn detail_of_an_empty_resource_is_blank() {
    let d = detail_from_battlegroup(&json("{}"));
    assert_eq!(d.name, "");
    assert!(!d.stop);
    assert_eq!(d.server_image, "");
    assert!(d.utility_images.is_empty());
    assert!(d.server_sets.is_empty());
}

#[test]
fn unique_strings_keeps_first_occurrence_of_non_empty_values() {
    let values = vec!["b".to_string(), String::new(), "a".to_string(), "b".to_string()];
    assert_eq!(unique_strings(values), vec!["b".to_string(), "a".to_string()]);
}

#[test]
fn summary_links_file_browser_and_director() {
    let services = json(
        r#"{"items":[
          {"metadata":{"name":"bg-x-fb-svc"},"spec":{"ports":[{"port":80}]}},
          {"metadata":{"name":"director"},"spec":{"ports":[{"port":11717,"nodePort":30117}]}}
        ]}"#,
    );
    let s = battlegroup_summary(&json(BATTLEGROUP), &services, "10.0.0.5");
    assert_eq!(s.server_sets, 2);
    assert_eq!(s.server_image, "server:1");
    assert_eq!(s.file_browser_url.as_deref(), Some("http://10.0.0.5:18888/"));
    assert_eq!(s.director_url.as_deref(), Some("http://10.0.0.5:30117/"));
    let none = battlegroup_summary(&json(BATTLEGROUP), &json(r#"{"items":[]}"#), "h");
    assert_eq!(none.file_browser_url, None);
    assert_eq!(none.director_url, None);
}

#[test]
fn guest_identity_reads_lines_and_markers() {
    let g = parse_guest_identity("dune-vm\n6.6.1-alpine\nSUDO_OK\n");
    assert_eq!(g.hostname, "dune-vm");
    assert_eq!(g.kernel, "6.6.1-alpine");
    assert!(g.sudo);
    assert!(!g.kubectl);
    let empty = parse_guest_identity("");
    assert_eq!(empty.hostname, "");
    assert_eq!(empty.kernel, "");
}

#[test]
fn battlegroup_commands_are_built_after_validation() {
    assert_eq!(
        battlegroup_stop_patch_command("funcom-seabass-x", "bg", true).unwrap(),
        "sudo kubectl patch battlegroup bg -n funcom-seabass-x --type=merge -p '{\"spec\":{\"stop\":true}}'"
    );
    assert!(battlegroup_stop_patch_command("ns", "bad name", false).is_err());
    assert_eq!(
        live_battlegroup_command("ns", "bg").unwrap(),
        "sudo kubectl get battlegroup bg -n ns -o json"
    );
    assert_eq!(namespace_list_command("svc", "ns").unwrap(), "sudo kubectl get svc -n ns -o json");
    assert_eq!(snapshot_file_name("bg", 1700000000), "bg-live-1700000000.json");
}

#[test]
fn manager_api_install_input_is_trimmed_and_checked() {
    let input = ManagerApiInstallInput::prepare(" funcom-seabass-x ", " /tmp/api ", " tok ", " http://d:1// ").unwrap();
    assert_eq!(input.namespace, "funcom-seabass-x");
    assert_eq!(input.binary_path, "/tmp/api");
    assert_eq!(input.token, "tok");
    assert_eq!(input.director_base_url, "http://d:1");
    let script = input.install_script("dune");
    assert!(script.starts_with("set -eu\ninstall -d -m 0755 /opt/dune-manager\ninstall -m 0755 /home/dune/dune-manager-api "));
    assert!(script.contains("MANAGER_API_TOKEN=tok\nDUNE_NAMESPACE=funcom-seabass-x\n"));
    assert!(script.contains("DIRECTOR_BASE_URL=http://d:1\nPORT=8787\n"));
    assert!(script.ends_with("rc-service dune-manager-api restart\n"));
    let result = input.install_result("10.0.0.5");
    assert_eq!(result.url, "http://10.0.0.5:8787");
    assert_eq!(result.service, "openrc");
    let err = ManagerApiInstallInput::prepare("ns", "/tmp/api", "to'k", "").unwrap_err();
    assert!(err.message.starts_with("Manager API token must be"));
    assert!(ManagerApiInstallInput::prepare("ns", "/tmp/api", "tok", "").is_ok());
}

#[test]
fn host_scripts_quote_paths_and_names() {
    let s = host_status_script("C:\\ssh.exe", "D:\\Dune's");
    assert!(s.contains("sshAvailable = Test-Path 'C:\\ssh.exe'\n"));
    assert!(s.contains("defaultInstallPath = 'D:\\Dune''s'\n"));
    let start = vm_script(VmScriptKind::Start, "dune");
    assert_eq!(start, "\n$ErrorActionPreference = 'Stop'\n$vmName = 'dune'\nStart-VM -Name $vmName -AsJob | Out-Null\n");
    assert!(vm_script(VmScriptKind::Status, "dune").ends_with("} | ConvertTo-Json -Compress\n"));
}

#[test]
fn vm_ip_prefers_explicit_then_discovered_then_configured() {
    assert_eq!(choose_vm_ip(Some(" 10.0.0.1 ".to_string()), Some("x".to_string()), "y").unwrap(), "10.0.0.1");
    assert_eq!(choose_vm_ip(None, Some("10.0.0.2".to_string()), "y").unwrap(), "10.0.0.2");
    assert_eq!(choose_vm_ip(None, None, "10.0.0.3").unwrap(), "10.0.0.3");
    assert_eq!(choose_vm_ip(None, None, "  ").unwrap_err().message, "VM IP is not configured");
}
