use std::cell::RefCell;
use std::collections::VecDeque;
use std::rc::Rc;

use dune_manager::command::{BattlegroupRef, CommandFailure, CommandResult, RemoteCommandRunner};
use dune_manager::json::{JsonNumber, JsonValue};
use dune_manager::manager_core::battlegroup_kubernetes::{
    battlegroup_refs, log_file, pod_container_refs, sh_single_quoted, shell_value, validate_region, StructuredBattlegroupOps,
};

fn convert(v: serde_json::Value) -> JsonValue {
    match v {
        serde_json::Value::Null => JsonValue::Null,
        serde_json::Value::Bool(b) => JsonValue::Bool(b),
        serde_json::Value::Number(n) => JsonValue::Number(JsonNumber { as_u64: n.as_u64(), as_i64: n.as_i64() }),
        serde_json::Value::String(s) => JsonValue::String(s),
        serde_json::Value::Array(items) => JsonValue::Array(items.into_iter().map(convert).collect()),
        serde_json::Value::Object(members) => {
            JsonValue::Object(members.into_iter().map(|(k, v)| (k, convert(v))).collect())
        }
    }
}

fn json(text: &str) -> JsonValue {
    convert(serde_json::from_str(text).unwrap())
}

fn fail(message: &str) -> CommandFailure {
    CommandFailure { message: message.to_string(), stdout: String::new(), stderr: String::new(), code: None }
}

#[derive(Clone, Default)]
struct MockRemote {
    outputs: Rc<RefCell<VecDeque<String>>>,
    commands: Rc<RefCell<Vec<String>>>,
}

impl MockRemote {
    fn with_outputs(outputs: &[&str]) -> Self {
        Self {
            outputs: Rc::new(RefCell::new(outputs.iter().map(|s| s.to_string()).collect())),
            commands: Rc::new(RefCell::new(Vec::new())),
        }
    }
}

impl RemoteCommandRunner for MockRemote {
    fn run(&self, command: &str) -> CommandResult<String> {
        self.commands.borrow_mut().push(command.to_string());
        self.outputs.borrow_mut().pop_front().ok_or_else(|| fail("no mock output queued"))
    }

    fn run_script(&self, script: &str) -> CommandResult<String> {
        self.run(script)
    }

    fn parse_json(&self, text: &str, label: &str) -> CommandResult<JsonValue> {
        serde_json::from_str(text)
            .map(convert)
            .map_err(|err| fail(&format!("Failed to parse {label} JSON: {err}")))
    }
}

#[test]
fn lists_battlegroups_from_cluster_json() {
    let remote = MockRemote::with_outputs(&[r#"{
      "items": [
        {"metadata":{"namespace":"default","name":"ignored"}},
        {"metadata":{"namespace":"funcom-seabass-sh-host-bbbbbb","name":"sh-host-bbbbbb"}},
        {"metadata":{"namespace":"funcom-seabass-sh-host-aaaaaa","name":"sh-host-aaaaaa"}}
      ]
    }"#]);
    let ops = StructuredBattlegroupOps::new(remote);
    assert_eq!(
        ops.list().unwrap(),
        vec![
            BattlegroupRef {
                namespace: "funcom-seabass-sh-host-aaaaaa".to_string(),
                name: "sh-host-aaaaaa".to_string(),
            },
            BattlegroupRef {
                namespace: "funcom-seabass-sh-host-bbbbbb".to_string(),
                name: "sh-host-bbbbbb".to_string(),
            }
        ]
    );
}

#[test]
fn region_patch_uses_structured_jq_transform_not_sed() {
    let remote = MockRemote::with_outputs(&[r#"{"metadata":{"name":"sh-host-abcdef"}}"#]);
    let commands = remote.commands.clone();
    let ops = StructuredBattlegroupOps::new(remote);
    ops.patch_region(
        &BattlegroupRef {
            namespace: "funcom-seabass-sh-host-abcdef".to_string(),
            name: "sh-host-abcdef".to_string(),
        },
        "Europe Test",
    )
    .unwrap();
    let script = commands.borrow().first().cloned().unwrap();
    assert!(script.contains("jq --arg region"));
    assert!(script.contains("BATTLEGROUP_REGION_NAME"));
    assert!(script.contains("dataCenter"));
    assert!(script.contains("startsWith") || script.contains("startswith"));
    assert!(!script.contains(" sed "));
    assert!(script.contains("kubectl replace -f - -o json"));
}

#[test]
fn region_patch_refuses_other_regions_and_wrong_result() {
    let bg = BattlegroupRef { namespace: "funcom-seabass-x".to_string(), name: "x".to_string() };
    let ops = StructuredBattlegroupOps::new(MockRemote::default());
    let err = ops.patch_region(&bg, "Mars").unwrap_err();
    assert_eq!(err.message, "Region must be Europe Test or North America Test");
    let ops = StructuredBattlegroupOps::new(MockRemote::with_outputs(&[r#"{"metadata":{"name":"other"}}"#]));
    let err = ops.patch_region(&bg, "North America Test").unwrap_err();
    assert_eq!(err.message, "Region patch did not return the expected battlegroup");
}

#[test]
fn exports_logs_by_enumerating_pods_and_containers() {
    let remote = MockRemote::with_outputs(&[
        r#"{
          "items": [{
            "metadata":{"name":"pod-a","labels":{"role":"gateway"}},
            "spec":{"containers":[{"name":"main"},{"name":"sidecar"}]}
          }]
        }"#,
        "main log",
        "sidecar log",
    ]);
    let commands = remote.commands.clone();
    let ops = StructuredBattlegroupOps::new(remote);
    let files = ops.export_namespace_logs("funcom-seabass-sh-host-abcdef").unwrap();
    assert_eq!(files.len(), 2);
    assert_eq!(files[0].relative_path, "pod-a/main.log");
    let commands = commands.borrow();
    assert!(commands[0].contains("kubectl get pods"));
    assert!(commands[1].contains("kubectl logs"));
    assert!(commands[1].contains("--timestamps"));
}

#[test]
fn log_commands_quote_every_argument() {
    let remote = MockRemote::with_outputs(&[
        r#"{"items":[{"metadata":{"name":"pod-a"},"spec":{"containers":[{"name":"main"}]}}]}"#,
        "log",
    ]);
    let commands = remote.commands.clone();
    let ops = StructuredBattlegroupOps::new(remote);
    let files = ops.export_operator_logs().unwrap();
    assert_eq!(files[0].contents, "log");
    assert_eq!(commands.borrow()[0], "sudo kubectl get pods -n 'funcom-operators' -o json");
    assert_eq!(
        commands.borrow()[1],
        "sudo kubectl logs -n 'funcom-operators' 'pod-a' -c 'main' --timestamps --tail=-1"
    );
}

#[test]
fn builds_pod_shell_command_candidates() {
    let ops = StructuredBattlegroupOps::new(MockRemote::default());
    let spec = ops.pod_shell_spec("funcom-seabass-sh-host-abcdef", "pod-a").unwrap();
    assert_eq!(spec.commands[0].last().unwrap(), "/bin/bash");
    assert_eq!(spec.commands[1].last().unwrap(), "/bin/sh");
}

#[test]
fn rejects_arguments_that_are_not_kubernetes_names() {
    let ops = StructuredBattlegroupOps::new(MockRemote::default());
    let err = ops.pod_shell_spec("ns; rm -rf /", "pod-a").unwrap_err();
    assert!(err.message.starts_with("namespace must be a Kubernetes name"));
    let err = ops.pod_shell_spec("ns", "Pod_A").unwrap_err();
    assert!(err.message.starts_with("pod must be a Kubernetes name"));
    assert!(ops.list_pods("").is_err());
}

#[test]
fn pods_are_sorted_by_pod_then_container_and_unnamed_ones_skipped() {
    let doc = json(
        r#"{"items":[
          {"metadata":{"name":"pod-b","labels":{"role":"db"}},"spec":{"containers":[{"name":"z"},{"name":"a"}]}},
          {"metadata":{"name":""},"spec":{"containers":[{"name":"hidden"}]}},
          {"metadata":{"name":"pod-a"},"spec":{"containers":[{"name":""},{"name":"m"}]}}
        ]}"#,
    );
    let pods = pod_container_refs(&doc);
    let keys: Vec<(String, String, String)> =
        pods.into_iter().map(|p| (p.pod, p.container, p.role)).collect();
    assert_eq!(
        keys,
        vec![
            ("pod-a".to_string(), "m".to_string(), String::new()),
            ("pod-b".to_string(), "a".to_string(), "db".to_string()),
            ("pod-b".to_string(), "z".to_string(), "db".to_string()),
        ]
    );
}

#[test]
fn sorting_keeps_listing_order_for_equal_namespaces() {
    let doc = json(
        r#"{"items":[
          {"metadata":{"namespace":"funcom-seabass-b","name":"second"}},
          {"metadata":{"namespace":"funcom-seabass-a","name":"only"}},
          {"metadata":{"namespace":"funcom-seabass-b","name":"first-listed-later"}},
          {"metadata":{"namespace":"funcom-seabass-c"}}
        ]}"#,
    );
    let names: Vec<String> = battlegroup_refs(&doc).into_iter().map(|r| r.name).collect();
    assert_eq!(names, vec!["only", "second", "first-listed-later"]);
}

#[test]
fn director_node_port_is_read_from_the_11717_service() {
    let remote = MockRemote::with_outputs(&[
        r#"{"items":[{"spec":{"ports":[{"port":80,"nodePort":30080}]}},{"spec":{"ports":[{"port":11717,"nodePort":31717}]}}]}"#,
        r#"{"items":[{"spec":{"ports":[{"port":11717,"nodePort":70000}]}}]}"#,
    ]);
    let ops = StructuredBattlegroupOps::new(remote);
    assert_eq!(ops.director_node_port("ns").unwrap(), Some(31717));
    assert_eq!(ops.director_node_port("ns").unwrap(), None);
}

#[test]
fn status_reads_resource_pods_and_director_port() {
    let remote = MockRemote::with_outputs(&[
        r#"{"metadata":{"name":"bg"}}"#,
        r#"{"items":[]}"#,
        r#"{"items":[]}"#,
    ]);
    let commands = remote.commands.clone();
    let ops = StructuredBattlegroupOps::new(remote);
    let s = ops
        .status(&BattlegroupRef { namespace: "funcom-seabass-x".to_string(), name: "bg".to_string() })
        .unwrap();
    assert!(s.pods.is_empty());
    assert_eq!(s.director_node_port, None);
    assert_eq!(commands.borrow()[0], "sudo kubectl get battlegroup 'bg' -n 'funcom-seabass-x' -o json");
}

#[test]
fn shell_quoting_and_here_documents() {
    assert_eq!(sh_single_quoted("it's"), "'it'\"'\"'s'");
    assert_eq!(shell_value("NS", "a b"), "NS=$(cat <<'__DUNE_MANAGER_NS__'\na b\n__DUNE_MANAGER_NS__\n)\n");
    assert!(validate_region("Europe Test").is_ok());
    assert!(validate_region("europe test").is_err());
}

#[test]
fn log_file_is_named_by_pod_and_container() {
    let file = log_file("pod-a", "main", "line 1\nline 2".to_string());
    assert_eq!(file.relative_path, "pod-a/main.log");
    assert_eq!(file.contents, "line 1\nline 2");
}

#[test]
fn operator_logs_are_the_operator_namespace_export() {
    let remote = MockRemote::with_outputs(&[
        r#"{"items": [{"metadata":{"name":"op-0"},"spec":{"containers":[{"name":"manager"}]}}]}"#,
        "operator log",
    ]);
    let commands = remote.commands.clone();
    let ops = StructuredBattlegroupOps::new(remote);
    let files = ops.export_operator_logs().unwrap();
    assert_eq!(files.len(), 1);
    assert_eq!(files[0].relative_path, "op-0/manager.log");
    assert_eq!(files[0].contents, "operator log");
    let commands = commands.borrow();
    assert_eq!(commands[0], "sudo kubectl get pods -n 'funcom-operators' -o json");
    assert!(commands[1].contains("'funcom-operators'"));
    assert!(commands[1].contains("'op-0'"));
}
