//! The desktop's guest and BattleGroup commands, run through a
//! [`RemoteCommandRunner`]: which commands go to the guest and what is made
//! of their output.
use vstd::prelude::*;
use crate::command::{
    json_reply, kube_arg_message, ran_successfully, valid_kube_arg, validate_kube_arg, CommandResult,
    RemoteCommandRunner,
};
use crate::desktop::battlegroups::{
    battlegroup_stop_patch_command, battlegroup_summary, detail_from_battlegroup, details, kube_pair_error,
    live_battlegroup_command, live_battlegroup_get, namespace_list_command, namespaced_get, stop_patch_command, parse_guest_identity, summarizes, BattleGroupDetail,
    BattleGroupSummary, BATTLEGROUP_LIST_COMMAND, GUEST_IDENTITY_PROBE, line_or_empty,
};
use crate::desktop::host_vm::GuestConnection;
use crate::json::{at, get, index, items_of, path_view, str_chars_at, str_or_empty, JsonValue};
use crate::text::{contains_seq, string_of};

verus! {

/// The items of a `kubectl get ... -o json` list document.
pub open spec fn list_items(doc: JsonValue) -> Seq<JsonValue> {
    items_of(index(doc, "items"@))
}

/// The namespace of a resource.
pub open spec fn namespace_of(item: JsonValue) -> Seq<char> {
    str_or_empty(at(item, seq!["metadata"@, "namespace"@]))
}

/// Every listed resource's namespace is a Kubernetes name.
pub open spec fn namespaces_valid(doc: JsonValue) -> bool {
    forall|i: int| 0 <= i < list_items(doc).len() ==> valid_kube_arg(namespace_of(#[trigger] list_items(doc)[i]))
}

/// `groups` lists the resources of `doc` in order, each with the links found
/// in the services document of the same position in `services`, on host `ip`.
pub open spec fn summaries_of(groups: Seq<BattleGroupSummary>, doc: JsonValue, services: Seq<JsonValue>, ip: Seq<char>) -> bool {
    &&& groups.len() == list_items(doc).len()
    &&& forall|i: int| 0 <= i < groups.len() ==> summarizes(#[trigger] groups[i], list_items(doc)[i], services[i], ip)
}

/// The namespaces of the listed resources, in order; an error when one is
/// not a Kubernetes name.
pub fn battlegroup_namespaces(doc: &JsonValue) -> (r: CommandResult<Vec<String>>)
    ensures
        r is Ok <==> namespaces_valid(*doc),
        r matches Ok(ns) ==> ns@.len() == list_items(*doc).len() && forall|i: int| 0 <= i < ns@.len() ==> (
        #[trigger] ns@[i])@ == namespace_of(list_items(*doc)[i]),
        r matches Err(e) ==> e.message@ == kube_arg_message("namespace"@),
{
    let empty: Vec<JsonValue> = Vec::new();
    let items: &Vec<JsonValue> = match get(doc, "items") {
        Some(JsonValue::Array(items)) => items,
        _ => &empty,
    };
    assert(items@ == list_items(*doc));
    let namespace_p = ["metadata", "namespace"];
    assert(path_view(namespace_p@) =~= seq!["metadata"@, "namespace"@]);
    let mut ns: Vec<String> = Vec::new();
    let mut i: usize = 0;
    while i < items.len()
        invariant
            items@ == list_items(*doc),
            path_view(namespace_p@) == seq!["metadata"@, "namespace"@],
            i <= items@.len(),
            ns@.len() == i,
            forall|k: int| 0 <= k < i ==> valid_kube_arg(namespace_of(#[trigger] items@[k])),
            forall|k: int| 0 <= k < i ==> (#[trigger] ns@[k])@ == namespace_of(items@[k]),
        decreases items@.len() - i,
    {
        let namespace = string_of(str_chars_at(&items[i], &namespace_p).as_slice());
        assert(namespace@ == namespace_of(items@[i as int]));
        match validate_kube_arg(namespace.as_str(), "namespace") {
            Ok(()) => {},
            Err(e) => {
                assert(!namespaces_valid(*doc)) by {
                    assert(!valid_kube_arg(namespace_of(list_items(*doc)[i as int])));
                }
                return Err(e);
            },
        }
        ns.push(namespace);
        i = i + 1;
    }
    Ok(ns)
}

/// The list entries of the resources of `doc`, in order, each with the links
/// found in the services document at the same position of `services`.
pub fn battlegroup_summaries(doc: &JsonValue, services: &[JsonValue], ip: &str) -> (r: Vec<BattleGroupSummary>)
    requires
        services@.len() == list_items(*doc).len(),
    ensures
        summaries_of(r@, *doc, services@, ip@),
{
    let empty: Vec<JsonValue> = Vec::new();
    let items: &Vec<JsonValue> = match get(doc, "items") {
        Some(JsonValue::Array(items)) => items,
        _ => &empty,
    };
    assert(items@ == list_items(*doc));
    let mut groups: Vec<BattleGroupSummary> = Vec::new();
    let mut i: usize = 0;
    while i < items.len()
        invariant
            items@ == list_items(*doc),
            services@.len() == items@.len(),
            i <= items@.len(),
            groups@.len() == i,
            forall|k: int| 0 <= k < i ==> summarizes(#[trigger] groups@[k], items@[k], services@[k], ip@),
        decreases items@.len() - i,
    {
        let summary = battlegroup_summary(&items[i], &services[i], ip);
        let ghost before = groups@;
        groups.push(summary);
        assert forall|k: int| 0 <= k < i + 1 implies summarizes(#[trigger] groups@[k], items@[k], services@[k], ip@) by {
            if k < i {
                assert(groups@[k] == before[k]);
            }
        }
        i = i + 1;
    }
    groups
}

/// `groups` are the entries of a listing `doc` whose namespaces are all
/// Kubernetes names, with one services document per listed resource.
pub open spec fn summarizes_some_listing(groups: Seq<BattleGroupSummary>, ip: Seq<char>) -> bool {
    exists|doc: JsonValue, services: Seq<JsonValue>| {
        &&& namespaces_valid(doc)
        &&& services.len() == list_items(doc).len()
        &&& #[trigger] summaries_of(groups, doc, services, ip)
    }
}

/// `groups` are the entries of the listing that `runner` answered to
/// [`BATTLEGROUP_LIST_COMMAND`], whose namespaces are all Kubernetes names,
/// each with the links of the services document that `runner` answered for
/// its namespace.
pub open spec fn summarizes_answered_listing<R: RemoteCommandRunner>(runner: &R, groups: Seq<BattleGroupSummary>, ip: Seq<char>) -> bool {
    exists|doc: JsonValue, services: Seq<JsonValue>| {
        &&& json_reply(runner, BATTLEGROUP_LIST_COMMAND@, "battlegroup list"@, doc)
        &&& namespaces_valid(doc)
        &&& services.len() == list_items(doc).len()
        &&& forall|i: int| 0 <= i < services.len() ==> json_reply(
            runner,
            namespaced_get("svc"@, namespace_of(list_items(doc)[i])),
            "services"@,
            #[trigger] services[i],
        )
        &&& #[trigger] summaries_of(groups, doc, services, ip)
    }
}

/// The BattleGroups of the cluster, in listing order, each with the file
/// browser and Director links found among the services of its namespace on
/// host `ip`. The list comes from [`BATTLEGROUP_LIST_COMMAND`]; each
/// namespace is checked before its services are listed with
/// `namespace_list_command("svc", ..)`, and the entries are those of
/// [`battlegroup_summaries`] for the documents the runner returned.
pub fn get_battlegroups<R: RemoteCommandRunner>(runner: &R, ip: &str) -> (r: CommandResult<Vec<BattleGroupSummary>>)
    ensures
        r matches Ok(groups) ==> summarizes_some_listing(groups@, ip@) && summarizes_answered_listing(runner, groups@, ip@),
{
    let doc = match runner.run_json(BATTLEGROUP_LIST_COMMAND, "battlegroup list") {
        Ok(d) => d,
        Err(e) => return Err(e),
    };
    assert(json_reply(runner, BATTLEGROUP_LIST_COMMAND@, "battlegroup list"@, doc));
    let empty: Vec<JsonValue> = Vec::new();
    let items: &Vec<JsonValue> = match get(&doc, "items") {
        Some(JsonValue::Array(items)) => items,
        _ => &empty,
    };
    assert(items@ == list_items(doc));
    let namespace_p = ["metadata", "namespace"];
    assert(path_view(namespace_p@) =~= seq!["metadata"@, "namespace"@]);
    let mut services: Vec<JsonValue> = Vec::new();
    let mut i: usize = 0;
    while i < items.len()
        invariant
            items@ == list_items(doc),
            path_view(namespace_p@) == seq!["metadata"@, "namespace"@],
            i <= items@.len(),
            services@.len() == i,
            forall|k: int| 0 <= k < i ==> valid_kube_arg(namespace_of(#[trigger] items@[k])),
            forall|k: int| 0 <= k < i ==> json_reply(
                runner,
                namespaced_get("svc"@, namespace_of(items@[k])),
                "services"@,
                #[trigger] services@[k],
            ),
        decreases items@.len() - i,
    {
        let namespace = string_of(str_chars_at(&items[i], &namespace_p).as_slice());
        let command = match namespace_list_command("svc", namespace.as_str()) {
            Ok(c) => c,
            Err(e) => return Err(e),
        };
        assert(namespace@ == namespace_of(items@[i as int]));
        let listed = match runner.run_json(command.as_str(), "services") {
            Ok(s) => s,
            Err(e) => return Err(e),
        };
        assert(json_reply(runner, namespaced_get("svc"@, namespace_of(items@[i as int])), "services"@, listed));
        services.push(listed);
        i = i + 1;
    }
    let groups = battlegroup_summaries(&doc, services.as_slice(), ip);
    assert(namespaces_valid(doc));
    assert(summaries_of(groups@, doc, services@, ip@));
    assert(summarizes_some_listing(groups@, ip@));
    assert(summarizes_answered_listing(runner, groups@, ip@));
    Ok(groups)
}

/// `d` is the detail view of some BattleGroup resource.
pub open spec fn detail_of_some(d: BattleGroupDetail) -> bool {
    exists|doc: JsonValue| #[trigger] details(d, doc)
}

/// `d` is the detail view of the resource that `runner` answered to the live
/// read of BattleGroup `name` in `namespace`.
pub open spec fn detail_answered<R: RemoteCommandRunner>(runner: &R, namespace: Seq<char>, name: Seq<char>, d: BattleGroupDetail) -> bool {
    exists|doc: JsonValue| #[trigger] json_reply(runner, live_battlegroup_get(namespace, name), "live BattleGroup"@, doc)
        && details(d, doc)
}

/// The live resource of one BattleGroup, as the detail view shows it.
pub fn get_battlegroup_detail<R: RemoteCommandRunner>(runner: &R, namespace: &str, name: &str) -> (r: CommandResult<BattleGroupDetail>)
    ensures
        !valid_kube_arg(namespace@) || !valid_kube_arg(name@) ==> (r matches Err(e) && e.message@ == kube_pair_error(
            namespace@,
            name@,
        )),
        r matches Ok(d) ==> valid_kube_arg(namespace@) && valid_kube_arg(name@) && detail_of_some(d)
            && detail_answered(runner, namespace@, name@, d),
{
    let command = match live_battlegroup_command(namespace, name) {
        Ok(c) => c,
        Err(e) => return Err(e),
    };
    match runner.run_json(command.as_str(), "live BattleGroup") {
        Ok(doc) => {
            assert(json_reply(runner, live_battlegroup_get(namespace@, name@), "live BattleGroup"@, doc));
            let d = detail_from_battlegroup(&doc);
            assert(details(d, doc));
            assert(detail_of_some(d));
            Ok(d)
        },
        Err(e) => Err(e),
    }
}

/// The pods and the services of a namespace, as kubectl lists them.
pub fn get_workloads<R: RemoteCommandRunner>(runner: &R, namespace: &str) -> (r: CommandResult<(JsonValue, JsonValue)>)
    ensures
        !valid_kube_arg(namespace@) ==> (r matches Err(e) && e.message@ == kube_arg_message("namespace"@)),
        r is Ok ==> valid_kube_arg(namespace@),
        r matches Ok(w) ==> json_reply(runner, namespaced_get("pods"@, namespace@), "pods"@, w.0)
            && json_reply(runner, namespaced_get("svc"@, namespace@), "services"@, w.1),
{
    let pods_command = match namespace_list_command("pods", namespace) {
        Ok(c) => c,
        Err(e) => return Err(e),
    };
    let services_command = match namespace_list_command("svc", namespace) {
        Ok(c) => c,
        Err(e) => return Err(e),
    };
    let pods = match runner.run(pods_command.as_str()) {
        Ok(p) => p,
        Err(e) => return Err(e),
    };
    let services = match runner.run(services_command.as_str()) {
        Ok(s) => s,
        Err(e) => return Err(e),
    };
    let ghost pods_text = pods;
    let ghost services_text = services;
    let pods = match runner.parse_json(pods.as_str(), "pods") {
        Ok(p) => p,
        Err(e) => return Err(e),
    };
    assert(json_reply(runner, namespaced_get("pods"@, namespace@), "pods"@, pods)) by {
        assert(runner.command_answer(pods_command@, Ok(pods_text)));
    }
    match runner.parse_json(services.as_str(), "services") {
        Ok(s) => {
            assert(runner.command_answer(services_command@, Ok(services_text)));
            Ok((pods, s))
        },
        Err(e) => Err(e),
    }
}

/// Sets `spec.stop` of a BattleGroup: `true` stops it, `false` starts it.
pub fn patch_battlegroup_stop<R: RemoteCommandRunner>(runner: &R, namespace: &str, name: &str, stop: bool) -> (r: CommandResult<()>)
    ensures
        !valid_kube_arg(namespace@) || !valid_kube_arg(name@) ==> (r matches Err(e) && e.message@ == kube_pair_error(
            namespace@,
            name@,
        )),
        r is Ok ==> valid_kube_arg(namespace@) && valid_kube_arg(name@),
        r is Ok ==> ran_successfully(runner, stop_patch_command(namespace@, name@, stop)),
        valid_kube_arg(namespace@) && valid_kube_arg(name@) ==> match r {
            Ok(_) => true,
            Err(e) => runner.command_answer(stop_patch_command(namespace@, name@, stop), Err(e)),
        },
{
    let command = match battlegroup_stop_patch_command(namespace, name, stop) {
        Ok(c) => c,
        Err(e) => return Err(e),
    };
    match runner.run(command.as_str()) {
        Ok(out) => {
            assert(runner.command_answer(command@, Ok(out)));
            Ok(())
        },
        Err(e) => Err(e),
    }
}

/// `c` describes the output that `runner` gave to the guest identity probe:
/// its first line is the host name, its second the kernel, and the markers
/// tell whether passwordless sudo and kubectl work.
pub open spec fn identified_by<R: RemoteCommandRunner>(runner: &R, c: GuestConnection) -> bool {
    exists|identity: String| {
        &&& #[trigger] runner.command_answer(GUEST_IDENTITY_PROBE@, Ok(identity))
        &&& c.hostname@ == line_or_empty(identity@, 0)
        &&& c.kernel@ == line_or_empty(identity@, 1)
        &&& c.sudo == contains_seq(identity@, "SUDO_OK"@)
        &&& c.kubectl == contains_seq(identity@, "KUBECTL_OK"@)
    }
}

/// Probes the guest at `ip` as `ssh_user`, whose key is at `key_path`.
pub fn connect_guest<R: RemoteCommandRunner>(runner: &R, ip: String, ssh_user: String, key_path: String) -> (r: CommandResult<GuestConnection>)
    ensures
        r matches Ok(c) ==> {
            &&& c.ip == ip && c.ssh_user == ssh_user && c.key_path == key_path && c.connected
            &&& exists|identity: Seq<char>| {
                &&& c.hostname@ == line_or_empty(identity, 0)
                &&& c.kernel@ == line_or_empty(identity, 1)
                &&& c.sudo == contains_seq(identity, "SUDO_OK"@)
                &&& c.kubectl == contains_seq(identity, "KUBECTL_OK"@)
            }
            &&& identified_by(runner, c)
        },
{
    let identity = match runner.run(GUEST_IDENTITY_PROBE) {
        Ok(text) => text,
        Err(e) => return Err(e),
    };
    let parsed = parse_guest_identity(identity.as_str());
    Ok(GuestConnection {
        ip,
        ssh_user,
        key_path,
        connected: true,
        sudo: parsed.sudo,
        hostname: parsed.hostname,
        kernel: parsed.kernel,
        kubectl: parsed.kubectl,
    })
}

/// A start and a stop of one BattleGroup send different patches: each sets
/// `spec.stop` to its own flag, so the patch a successful start ran ends in
/// `"stop":false}}'` and is never the stop patch.
pub proof fn lemma_patch_sends_the_requested_flag(namespace: Seq<char>, name: Seq<char>, stop: bool)
    ensures
        ({
            let c = stop_patch_command(namespace, name, stop);
            let tail = if stop {
                "true}}'"@
            } else {
                "false}}'"@
            };
            c.len() >= tail.len() && c.subrange(c.len() - tail.len(), c.len() as int) == tail
        }),
        stop_patch_command(namespace, name, true) != stop_patch_command(namespace, name, false),
{
    reveal_strlit("true");
    reveal_strlit("false");
    reveal_strlit("}}'");
    reveal_strlit("true}}'");
    reveal_strlit("false}}'");
    let head = "sudo kubectl patch battlegroup "@ + name + " -n "@ + namespace + " --type=merge -p '{\"spec\":{\"stop\":"@;
    let c = stop_patch_command(namespace, name, stop);
    let flag = if stop {
        "true"@
    } else {
        "false"@
    };
    assert(c == head + flag + "}}'"@);
    let tail = flag + "}}'"@;
    assert(c =~= head + tail);
    assert(c.subrange(head.len() as int, c.len() as int) =~= tail);
    assert(tail =~= (if stop {
        "true}}'"@
    } else {
        "false}}'"@
    }));
    assert(stop_patch_command(namespace, name, true).len() != stop_patch_command(namespace, name, false).len());
}

} // verus!
