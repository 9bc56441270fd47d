use std::cell::RefCell;
use std::collections::VecDeque;
use std::rc::Rc;

use dune_manager::command::{CommandFailure, CommandResult, RemoteCommandRunner};
use dune_manager::desktop::commands::{
    battlegroup_namespaces, battlegroup_summaries, connect_guest, get_battlegroup_detail, get_battlegroups,
    get_workloads, patch_battlegroup_stop,
};
use dune_manager::desktop::status::server_pod_starts_command;
use dune_manager::manager_core::battlegroup_kubernetes::{
    battlegroup_status_command, container_logs_command, pods_list_command, services_list_command,
};
use dune_manager::json::{JsonNumber, JsonValue};

fn to_value(v: serde_json::Value) -> JsonValue {
    match v {
        serde_json::Value::Null => JsonValue::Null,
        serde_json::Value::Bool(b) => JsonValue::Bool(b),
        serde_json::Value::Number(n) => JsonValue::Number(JsonNumber { as_u64: n.as_u64(), as_i64: n.as_i64() }),
        serde_json::Value::String(s) => JsonValue::String(s),
        serde_json::Value::Array(items) => JsonValue::Array(items.into_iter().map(to_value).collect()),
        serde_json::Value::Object(members) => {
            JsonValue::Object(members.into_iter().map(|(k, v)| (k, to_value(v))).collect())
        }
    }
}

fn failed(message: &str) -> CommandFailure {
    CommandFailure { message: message.to_string(), stdout: String::new(), stderr: String::new(), code: None }
}

/// Answers each command with the next queued output and records the commands.
#[derive(Clone, Default)]
struct Guest {
    outputs: Rc<RefCell<VecDeque<String>>>,
    commands: Rc<RefCell<Vec<String>>>,
}

impl Guest {
    fn answering(outputs: &[&str]) -> Self {
        Self {
            outputs: Rc::new(RefCell::new(outputs.iter().map(|s| s.to_string()).collect())),
            commands: Rc::new(RefCell::new(Vec::new())),
        }
    }
}

impl RemoteCommandRunner for Guest {
    fn run(&self, command: &str) -> CommandResult<String> {
        self.commands.borrow_mut().push(command.to_string());
        self.outputs.borrow_mut().pop_front().ok_or_else(|| failed("no output queued"))
    }

    fn run_script(&self, script: &str) -> CommandResult<String> {
        self.run(script)
    }

    fn parse_json(&self, text: &str, label: &str) -> CommandResult<JsonValue> {
        serde_json::from_str(text)
            .map(to_value)
            .map_err(|err| failed(&format!("Failed to parse {label} JSON: {err}")))
    }
}

#[test]
fn battlegroup_list_reads_each_namespaces_services() {
    let guest = Guest::answering(&[
        r#"{"items":[
            {"metadata":{"namespace":"funcom-seabass-a","name":"a"},"spec":{"title":"A","stop":false},
             "status":{"phase":"Healthy"}},
            {"metadata":{"namespace":"funcom-seabass-b","name":"b"}}
        ]}"#,
        r#"{"items":[{"metadata":{"name":"a-fb-svc"},"spec":{"ports":[{"port":80}]}},
                     {"metadata":{"name":"director"},"spec":{"ports":[{"port":11717,"nodePort":30123}]}}]}"#,
        r#"{"items":[]}"#,
    ]);
    let groups = get_battlegroups(&guest, "10.0.0.5").unwrap();
    assert_eq!(groups.len(), 2);
    assert_eq!(groups[0].namespace, "funcom-seabass-a");
    assert_eq!(groups[0].title, "A");
    assert_eq!(groups[0].phase, "Healthy");
    assert_eq!(groups[0].file_browser_url.as_deref(), Some("http://10.0.0.5:18888/"));
    assert_eq!(groups[0].director_url.as_deref(), Some("http://10.0.0.5:30123/"));
    assert_eq!(groups[1].name, "b");
    assert_eq!(groups[1].file_browser_url, None);
    assert_eq!(
        guest.commands.borrow().as_slice(),
        &[
            "sudo kubectl get battlegroup -A -o json".to_string(),
            "sudo kubectl get svc -n funcom-seabass-a -o json".to_string(),
            "sudo kubectl get svc -n funcom-seabass-b -o json".to_string(),
        ]
    );
}

#[test]
fn battlegroup_list_refuses_a_bad_namespace() {
    let guest = Guest::answering(&[r#"{"items":[{"metadata":{"namespace":"Bad Name","name":"x"}}]}"#]);
    let err = get_battlegroups(&guest, "10.0.0.5").unwrap_err();
    assert!(err.message.contains("namespace"));
    assert_eq!(guest.commands.borrow().len(), 1);
    let empty = Guest::answering(&[r#"{"kind":"List"}"#]);
    assert!(get_battlegroups(&empty, "10.0.0.5").unwrap().is_empty());
}

#[test]
fn detail_workloads_and_stop_go_through_the_runner() {
    let guest = Guest::answering(&[r#"{"metadata":{"namespace":"funcom-seabass-a","name":"a"},"status":{"phase":"Up"}}"#]);
    let detail = get_battlegroup_detail(&guest, "funcom-seabass-a", "a").unwrap();
    assert_eq!(detail.phase, "Up");
    assert_eq!(guest.commands.borrow()[0], "sudo kubectl get battlegroup a -n funcom-seabass-a -o json");
    assert!(get_battlegroup_detail(&guest, "funcom-seabass-a", "A!").is_err());

    let guest = Guest::answering(&[r#"{"items":[1]}"#, r#"{"items":[]}"#]);
    let (pods, services) = get_workloads(&guest, "funcom-seabass-a").unwrap();
    assert!(matches!(pods, JsonValue::Object(_)));
    assert!(matches!(services, JsonValue::Object(_)));
    assert_eq!(guest.commands.borrow()[0], "sudo kubectl get pods -n funcom-seabass-a -o json");

    let guest = Guest::answering(&[""]);
    patch_battlegroup_stop(&guest, "funcom-seabass-a", "a", true).unwrap();
    assert!(guest.commands.borrow()[0].contains("\"stop\":true"));
    assert!(patch_battlegroup_stop(&guest, "", "a", false).is_err());
}

#[test]
fn guest_probe_fills_the_connection() {
    let guest = Guest::answering(&["dune-host\n6.1.0\nSUDO_OK\n"]);
    let c = connect_guest(&guest, "10.0.0.5".to_string(), "dune".to_string(), "/keys/id".to_string()).unwrap();
    assert!(c.connected && c.sudo && !c.kubectl);
    assert_eq!((c.hostname.as_str(), c.kernel.as_str()), ("dune-host", "6.1.0"));
    assert_eq!(c.key_path, "/keys/id");
    assert!(guest.commands.borrow()[0].contains("echo SUDO_OK"));
}

fn doc(text: &str) -> JsonValue {
    to_value(serde_json::from_str(text).unwrap())
}

#[test]
fn namespaces_and_summaries_of_a_listing() {
    let listing = doc(r#"{"items":[
        {"metadata":{"namespace":"funcom-seabass-a","name":"a"}},
        {"metadata":{"namespace":"funcom-seabass-b","name":"b"}}
    ]}"#);
    assert_eq!(
        battlegroup_namespaces(&listing).unwrap(),
        vec!["funcom-seabass-a".to_string(), "funcom-seabass-b".to_string()]
    );
    let bad = doc(r#"{"items":[{"metadata":{"namespace":"ok-ns"}},{"metadata":{}}]}"#);
    assert!(battlegroup_namespaces(&bad).unwrap_err().message.contains("namespace"));
    let services = vec![
        doc(r#"{"items":[{"metadata":{"name":"x"},"spec":{"ports":[{"port":18888}]}}]}"#),
        doc(r#"{"items":[]}"#),
    ];
    let groups = battlegroup_summaries(&listing, &services, "10.1.1.1");
    assert_eq!(groups.len(), 2);
    assert_eq!(groups[0].file_browser_url.as_deref(), Some("http://10.1.1.1:18888/"));
    assert_eq!(groups[1].file_browser_url, None);
    assert_eq!(groups[1].name, "b");
}

#[test]
fn command_builders_quote_every_name() {
    assert_eq!(pods_list_command("ns"), "sudo kubectl get pods -n 'ns' -o json");
    assert_eq!(services_list_command("ns"), "sudo kubectl get svc -n 'ns' -o json");
    assert_eq!(battlegroup_status_command("ns", "bg"), "sudo kubectl get battlegroup 'bg' -n 'ns' -o json");
    assert_eq!(container_logs_command("ns", "p", "c"), "sudo kubectl logs -n 'ns' 'p' -c 'c' --timestamps --tail=-1");
    let starts = server_pod_starts_command("ns");
    assert!(starts.starts_with("sudo kubectl get pods -n 'ns' -o jsonpath="));
    assert!(starts.contains("{.metadata.name}") && starts.contains("{.status.startTime}"));
}
