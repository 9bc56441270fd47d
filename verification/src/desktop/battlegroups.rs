//! BattleGroup summaries and details read from live kubectl JSON, and the
//! kubectl command lines of the desktop's BattleGroup actions.
use vstd::prelude::*;
use crate::command::{kube_arg_message, valid_kube_arg, validate_kube_arg, CommandResult};
use crate::json::{
    array_at, as_array, as_bool, as_str, as_u64, at, bool_at, items_of, path_view, str_at, str_chars_at,
    str_or_empty, u64_at, JsonValue,
};
use crate::sort::view_seq;
use crate::text::{
    chars_eq, chars_of, contains_chars, contains_seq, decimal, ends_with, ends_with_chars, extend_str,
    lines, lines_of, push_decimal, string_of, views,
};

verus! {

/// One server set of a BattleGroup.
#[derive(Clone, Debug, PartialEq, Eq)]
pub struct ServerSetSummary {
    pub map: String,
    pub replicas: u64,
    pub memory_limit: String,
    pub dedicated_scaling: bool,
    pub image: String,
}

impl View for ServerSetSummary {
    type V = (Seq<char>, u64, Seq<char>, bool, Seq<char>);

    open spec fn view(&self) -> (Seq<char>, u64, Seq<char>, bool, Seq<char>) {
        (self.map@, self.replicas, self.memory_limit@, self.dedicated_scaling, self.image@)
    }
}

/// A BattleGroup as the dashboard lists it.
#[derive(Clone, Debug, PartialEq, Eq)]
pub struct BattleGroupSummary {
    pub namespace: String,
    pub name: String,
    pub title: String,
    pub phase: String,
    pub stop: bool,
    pub server_image: String,
    pub file_browser_url: Option<String>,
    pub director_url: Option<String>,
    pub server_sets: usize,
}

/// A BattleGroup with the phases of its parts, its images and server sets.
#[derive(Clone, Debug, PartialEq, Eq)]
pub struct BattleGroupDetail {
    pub namespace: String,
    pub name: String,
    pub title: String,
    pub phase: String,
    pub stop: bool,
    pub database_phase: String,
    pub server_group_phase: String,
    pub gateway_phase: String,
    pub director_phase: String,
    pub server_image: String,
    pub utility_images: Vec<String>,
    pub server_sets: Vec<ServerSetSummary>,
}

/// What the guest identity probe reported.
#[derive(Clone, Debug, PartialEq, Eq)]
pub struct GuestIdentity {
    pub hostname: String,
    pub kernel: String,
    pub sudo: bool,
    pub kubectl: bool,
}

pub open spec fn u64_or_zero(v: JsonValue) -> u64 {
    match as_u64(v) {
        Some(n) => n,
        None => 0,
    }
}

pub open spec fn bool_or_false(v: JsonValue) -> bool {
    match as_bool(v) {
        Some(b) => b,
        None => false,
    }
}

/// The path of the server sets in a BattleGroup resource.
pub open spec fn sets_path() -> Seq<Seq<char>> {
    seq!["spec"@, "serverGroup"@, "template"@, "spec"@, "sets"@]
}

/// The summary of one server set.
pub open spec fn set_summary(set: JsonValue) -> (Seq<char>, u64, Seq<char>, bool, Seq<char>) {
    (
        str_or_empty(at(set, seq!["map"@])),
        u64_or_zero(at(set, seq!["replicas"@])),
        str_or_empty(at(set, seq!["resources"@, "limits"@, "memory"@])),
        bool_or_false(at(set, seq!["dedicatedScaling"@])),
        str_or_empty(at(set, seq!["image"@])),
    )
}

/// The summaries of the server sets of a BattleGroup resource, in order.
pub open spec fn server_sets_of(item: JsonValue) -> Seq<(Seq<char>, u64, Seq<char>, bool, Seq<char>)> {
    items_of(at(item, sets_path())).map_values(|set: JsonValue| set_summary(set))
}

/// The server sets of a BattleGroup resource.
pub fn summarize_server_sets(item: &JsonValue) -> (r: Vec<ServerSetSummary>)
    ensures
        view_seq(r@) == server_sets_of(*item),
{
    let sets_p = ["spec", "serverGroup", "template", "spec", "sets"];
    let map_p = ["map"];
    let replicas_p = ["replicas"];
    let memory_p = ["resources", "limits", "memory"];
    let scaling_p = ["dedicatedScaling"];
    let image_p = ["image"];
    assert(path_view(sets_p@) =~= sets_path());
    assert(path_view(map_p@) =~= seq!["map"@]);
    assert(path_view(replicas_p@) =~= seq!["replicas"@]);
    assert(path_view(memory_p@) =~= seq!["resources"@, "limits"@, "memory"@]);
    assert(path_view(scaling_p@) =~= seq!["dedicatedScaling"@]);
    assert(path_view(image_p@) =~= seq!["image"@]);
    let mut out: Vec<ServerSetSummary> = Vec::new();
    match array_at(item, &sets_p) {
        Some(sets) => {
            let mut i: usize = 0;
            while i < sets.len()
                invariant
                    i <= sets@.len(),
                    items_of(at(*item, sets_path())) == sets@,
                    path_view(map_p@) == seq!["map"@],
                    path_view(replicas_p@) == seq!["replicas"@],
                    path_view(memory_p@) == seq!["resources"@, "limits"@, "memory"@],
                    path_view(scaling_p@) == seq!["dedicatedScaling"@],
                    path_view(image_p@) == seq!["image"@],
                    view_seq(out@) == sets@.take(i as int).map_values(|set: JsonValue| set_summary(set)),
                decreases sets@.len() - i,
            {
                let set = &sets[i];
                let s = ServerSetSummary {
                    map: string_of(str_chars_at(set, &map_p).as_slice()),
                    replicas: match u64_at(set, &replicas_p) {
                        Some(n) => n,
                        None => 0,
                    },
                    memory_limit: string_of(str_chars_at(set, &memory_p).as_slice()),
                    dedicated_scaling: match bool_at(set, &scaling_p) {
                        Some(b) => b,
                        None => false,
                    },
                    image: string_of(str_chars_at(set, &image_p).as_slice()),
                };
                proof {
                    assert(view_seq(out@.push(s)) =~= view_seq(out@).push(s@));
                    assert(sets@.take(i + 1).map_values(|set: JsonValue| set_summary(set)) =~= sets@.take(
                        i as int,
                    ).map_values(|set: JsonValue| set_summary(set)).push(set_summary(sets@[i as int])));
                }
                out.push(s);
                i = i + 1;
            }
            assert(sets@.take(sets@.len() as int) =~= sets@);
        },
        None => {
            assert(view_seq(out@) =~= server_sets_of(*item));
        },
    }
    out
}

/// The non-empty values of `vs`, each kept at its first occurrence.
pub open spec fn unique_nonempty(vs: Seq<Seq<char>>) -> Seq<Seq<char>>
    decreases vs.len(),
{
    if vs.len() == 0 {
        Seq::empty()
    } else {
        let out = unique_nonempty(vs.drop_last());
        let v = vs.last();
        if v.len() > 0 && !out.contains(v) {
            out.push(v)
        } else {
            out
        }
    }
}

/// No value is kept twice, and the kept values are exactly the non-empty ones
/// among the inputs.
pub proof fn lemma_unique_nonempty(vs: Seq<Seq<char>>)
    ensures
        unique_nonempty(vs).no_duplicates(),
        forall|w: Seq<char>| #[trigger] unique_nonempty(vs).contains(w) <==> (w.len() > 0 && vs.contains(w)),
    decreases vs.len(),
{
    if vs.len() > 0 {
        let d = vs.drop_last();
        let v = vs.last();
        let out = unique_nonempty(d);
        lemma_unique_nonempty(d);
        assert forall|w: Seq<char>| vs.contains(w) <==> (d.contains(w) || w == v) by {
            if vs.contains(w) {
                let i = choose|i: int| 0 <= i < vs.len() && vs[i] == w;
                if i < vs.len() - 1 {
                    assert(d[i] == w);
                }
            }
            if d.contains(w) {
                let i = choose|i: int| 0 <= i < d.len() && d[i] == w;
                assert(vs[i] == w);
            }
            if w == v {
                assert(vs[vs.len() - 1] == w);
            }
        }
        if v.len() > 0 && !out.contains(v) {
            let r = out.push(v);
            assert forall|i: int, j: int| 0 <= i < r.len() && 0 <= j < r.len() && i != j implies r[i] != r[j] by {
                if i == out.len() {
                    assert(out.contains(r[j]));
                } else if j == out.len() {
                    assert(out.contains(r[i]));
                } else {
                    assert(r[i] == out[i] && r[j] == out[j]);
                }
            }
            assert forall|w: Seq<char>| r.contains(w) <==> (out.contains(w) || w == v) by {
                if r.contains(w) {
                    let i = choose|i: int| 0 <= i < r.len() && r[i] == w;
                    if i < out.len() {
                        assert(out[i] == w);
                    }
                }
                if out.contains(w) {
                    let i = choose|i: int| 0 <= i < out.len() && out[i] == w;
                    assert(r[i] == w);
                }
                if w == v {
                    assert(r[out.len() as int] == w);
                }
            }
        }
    }
}

fn contains_string(out: &Vec<String>, v: &Vec<char>) -> (r: bool)
    ensures
        r == view_seq(out@).contains(v@),
{
    let mut i: usize = 0;
    while i < out.len()
        invariant
            i <= out@.len(),
            forall|k: int| 0 <= k < i ==> view_seq(out@)[k] != v@,
        decreases out@.len() - i,
    {
        let c = chars_of(out[i].as_str());
        assert(view_seq(out@)[i as int] == out@[i as int]@);
        if chars_eq(c.as_slice(), v.as_slice()) {
            return true;
        }
        i = i + 1;
    }
    false
}

/// The non-empty strings of `values`, without repeats, in first-seen order.
pub fn unique_strings(values: Vec<String>) -> (r: Vec<String>)
    ensures
        view_seq(r@) == unique_nonempty(view_seq(values@)),
{
    let ghost vs = view_seq(values@);
    let mut out: Vec<String> = Vec::new();
    let mut i: usize = 0;
    while i < values.len()
        invariant
            vs == view_seq(values@),
            i <= values@.len(),
            view_seq(out@) == unique_nonempty(vs.take(i as int)),
        decreases values@.len() - i,
    {
        assert(vs.take(i + 1).drop_last() =~= vs.take(i as int));
        assert(vs.take(i + 1).last() == values@[i as int]@);
        let v = chars_of(values[i].as_str());
        if v.len() > 0 && !contains_string(&out, &v) {
            let s = string_of(v.as_slice());
            proof {
                assert(view_seq(out@.push(s)) =~= view_seq(out@).push(s@));
            }
            out.push(s);
        }
        i = i + 1;
    }
    assert(vs.take(values@.len() as int) =~= vs);
    out
}

/// `[s]` when `v` is a string, else nothing.
pub open spec fn opt_str(v: JsonValue) -> Seq<Seq<char>> {
    match as_str(v) {
        Some(s) => seq![s],
        None => Seq::empty(),
    }
}

/// The images of message queue templates, in order.
pub open spec fn template_images(ts: Seq<JsonValue>) -> Seq<Seq<char>>
    decreases ts.len(),
{
    if ts.len() == 0 {
        Seq::empty()
    } else {
        template_images(ts.drop_last()) + opt_str(at(ts.last(), seq!["spec"@, "image"@]))
    }
}

/// The utility images named by a BattleGroup resource, before de-duplication:
/// Director, server gateway, text router and file browser, then message queues.
pub open spec fn utility_image_candidates(item: JsonValue) -> Seq<Seq<char>> {
    opt_str(at(item, seq!["spec"@, "utilities"@, "director"@, "spec"@, "image"@]))
        + opt_str(at(item, seq!["spec"@, "utilities"@, "serverGateway"@, "spec"@, "image"@]))
        + opt_str(at(item, seq!["spec"@, "utilities"@, "textRouter"@, "spec"@, "image"@]))
        + opt_str(at(item, seq!["spec"@, "utilities"@, "fileBrowser"@, "spec"@, "image"@]))
        + template_images(items_of(at(item, seq!["spec"@, "utilities"@, "messageQueues"@, "templates"@])))
}

fn push_opt_str(out: &mut Vec<String>, v: &JsonValue, path: &[&str])
    ensures
        view_seq(final(out)@) == view_seq(old(out)@) + opt_str(at(*v, path_view(path@))),
{
    match str_at(v, path) {
        Some(s) => {
            proof {
                assert(view_seq(out@.push(s)) =~= view_seq(out@).push(s@));
            }
            out.push(s);
            assert(view_seq(out@) =~= view_seq(old(out)@) + opt_str(at(*v, path_view(path@))));
        },
        None => {
            assert(view_seq(out@) =~= view_seq(old(out)@) + opt_str(at(*v, path_view(path@))));
        },
    }
}

fn utility_images_of(item: &JsonValue) -> (r: Vec<String>)
    ensures
        view_seq(r@) == utility_image_candidates(*item),
{
    let mut out: Vec<String> = Vec::new();
    let director_p = ["spec", "utilities", "director", "spec", "image"];
    let gateway_p = ["spec", "utilities", "serverGateway", "spec", "image"];
    let router_p = ["spec", "utilities", "textRouter", "spec", "image"];
    let browser_p = ["spec", "utilities", "fileBrowser", "spec", "image"];
    let templates_p = ["spec", "utilities", "messageQueues", "templates"];
    let image_p = ["spec", "image"];
    assert(path_view(director_p@) =~= seq!["spec"@, "utilities"@, "director"@, "spec"@, "image"@]);
    assert(path_view(gateway_p@) =~= seq!["spec"@, "utilities"@, "serverGateway"@, "spec"@, "image"@]);
    assert(path_view(router_p@) =~= seq!["spec"@, "utilities"@, "textRouter"@, "spec"@, "image"@]);
    assert(path_view(browser_p@) =~= seq!["spec"@, "utilities"@, "fileBrowser"@, "spec"@, "image"@]);
    assert(path_view(templates_p@) =~= seq!["spec"@, "utilities"@, "messageQueues"@, "templates"@]);
    assert(path_view(image_p@) =~= seq!["spec"@, "image"@]);
    push_opt_str(&mut out, item, &director_p);
    push_opt_str(&mut out, item, &gateway_p);
    push_opt_str(&mut out, item, &router_p);
    push_opt_str(&mut out, item, &browser_p);
    let ghost head = view_seq(out@);
    match array_at(item, &templates_p) {
        Some(ts) => {
            let mut i: usize = 0;
            while i < ts.len()
                invariant
                    i <= ts@.len(),
                    path_view(image_p@) == seq!["spec"@, "image"@],
                    view_seq(out@) == head + template_images(ts@.take(i as int)),
                decreases ts@.len() - i,
            {
                assert(ts@.take(i + 1).drop_last() =~= ts@.take(i as int));
                push_opt_str(&mut out, &ts[i], &image_p);
                assert(view_seq(out@) =~= head + template_images(ts@.take(i + 1)));
                i = i + 1;
            }
            assert(ts@.take(ts@.len() as int) =~= ts@);
        },
        None => {},
    }
    assert(view_seq(out@) =~= utility_image_candidates(*item));
    out
}

/// The image of the first server set, or nothing.
pub open spec fn first_set_image(item: JsonValue) -> Seq<char> {
    if items_of(at(item, sets_path())).len() > 0 {
        str_or_empty(at(items_of(at(item, sets_path()))[0], seq!["image"@]))
    } else {
        Seq::empty()
    }
}

/// `r` is the detail view of the BattleGroup resource `item`.
pub open spec fn details(r: BattleGroupDetail, item: JsonValue) -> bool {
    &&& r.namespace@ == str_or_empty(at(item, seq!["metadata"@, "namespace"@]))
    &&& r.name@ == str_or_empty(at(item, seq!["metadata"@, "name"@]))
    &&& r.title@ == str_or_empty(at(item, seq!["spec"@, "title"@]))
    &&& r.phase@ == str_or_empty(at(item, seq!["status"@, "phase"@]))
    &&& r.stop == bool_or_false(at(item, seq!["spec"@, "stop"@]))
    &&& r.database_phase@ == str_or_empty(at(item, seq!["status"@, "database"@, "phase"@]))
    &&& r.server_group_phase@ == str_or_empty(at(item, seq!["status"@, "serverGroup"@, "phase"@]))
    &&& r.gateway_phase@ == str_or_empty(at(item, seq!["status"@, "serverGateway"@, "phase"@]))
    &&& r.director_phase@ == str_or_empty(at(item, seq!["status"@, "director"@, "phase"@]))
    &&& r.server_image@ == first_set_image(item)
    &&& view_seq(r.utility_images@) == unique_nonempty(utility_image_candidates(item))
    &&& view_seq(r.server_sets@) == server_sets_of(item)
}

/// A BattleGroup resource as the detail view shows it.
pub fn detail_from_battlegroup(item: &JsonValue) -> (r: BattleGroupDetail)
    ensures
        details(r, *item),
{
    let namespace_p = ["metadata", "namespace"];
    let name_p = ["metadata", "name"];
    let title_p = ["spec", "title"];
    let phase_p = ["status", "phase"];
    let stop_p = ["spec", "stop"];
    let db_p = ["status", "database", "phase"];
    let sg_p = ["status", "serverGroup", "phase"];
    let gw_p = ["status", "serverGateway", "phase"];
    let dir_p = ["status", "director", "phase"];
    assert(path_view(namespace_p@) =~= seq!["metadata"@, "namespace"@]);
    assert(path_view(name_p@) =~= seq!["metadata"@, "name"@]);
    assert(path_view(title_p@) =~= seq!["spec"@, "title"@]);
    assert(path_view(phase_p@) =~= seq!["status"@, "phase"@]);
    assert(path_view(stop_p@) =~= seq!["spec"@, "stop"@]);
    assert(path_view(db_p@) =~= seq!["status"@, "database"@, "phase"@]);
    assert(path_view(sg_p@) =~= seq!["status"@, "serverGroup"@, "phase"@]);
    assert(path_view(gw_p@) =~= seq!["status"@, "serverGateway"@, "phase"@]);
    assert(path_view(dir_p@) =~= seq!["status"@, "director"@, "phase"@]);
    let server_sets = summarize_server_sets(item);
    assert(view_seq(server_sets@).len() == server_sets@.len());
    assert(server_sets_of(*item).len() == items_of(at(*item, sets_path())).len());
    let server_image = if server_sets.len() > 0 {
        assert(view_seq(server_sets@)[0] == server_sets@[0]@);
        assert(server_sets_of(*item)[0] == set_summary(items_of(at(*item, sets_path()))[0]));
        server_sets[0].image.clone()
    } else {
        String::new()
    };
    let candidates = utility_images_of(item);
    BattleGroupDetail {
        namespace: string_of(str_chars_at(item, &namespace_p).as_slice()),
        name: string_of(str_chars_at(item, &name_p).as_slice()),
        title: string_of(str_chars_at(item, &title_p).as_slice()),
        phase: string_of(str_chars_at(item, &phase_p).as_slice()),
        stop: match bool_at(item, &stop_p) {
            Some(b) => b,
            None => false,
        },
        database_phase: string_of(str_chars_at(item, &db_p).as_slice()),
        server_group_phase: string_of(str_chars_at(item, &sg_p).as_slice()),
        gateway_phase: string_of(str_chars_at(item, &gw_p).as_slice()),
        director_phase: string_of(str_chars_at(item, &dir_p).as_slice()),
        server_image,
        utility_images: unique_strings(candidates),
        server_sets,
    }
}

// ---------------------------------------------------------------------------
// Summaries for the BattleGroup list
// ---------------------------------------------------------------------------

/// Reading one service port: whether a file browser was seen, and the last
/// Director node port seen.
pub open spec fn port_step(st: (bool, Option<u64>), svc_name: Seq<char>, port: JsonValue) -> (bool, Option<u64>) {
    let number = u64_or_zero(at(port, seq!["port"@]));
    let node_port = as_u64(at(port, seq!["nodePort"@]));
    (
        st.0 || ends_with(svc_name, "-fb-svc"@) || number == 18888,
        if number == 11717 && node_port is Some {
            node_port
        } else {
            st.1
        },
    )
}

pub open spec fn ports_fold(st: (bool, Option<u64>), svc_name: Seq<char>, ports: Seq<JsonValue>) -> (bool, Option<u64>)
    decreases ports.len(),
{
    if ports.len() == 0 {
        st
    } else {
        port_step(ports_fold(st, svc_name, ports.drop_last()), svc_name, ports.last())
    }
}

pub open spec fn services_fold(svcs: Seq<JsonValue>) -> (bool, Option<u64>)
    decreases svcs.len(),
{
    if svcs.len() == 0 {
        (false, None)
    } else {
        let svc = svcs.last();
        ports_fold(
            services_fold(svcs.drop_last()),
            str_or_empty(at(svc, seq!["metadata"@, "name"@])),
            items_of(at(svc, seq!["spec"@, "ports"@])),
        )
    }
}

/// `http://<ip>:18888/`.
pub open spec fn file_browser_url(ip: Seq<char>) -> Seq<char> {
    "http://"@ + ip + ":18888/"@
}

/// `http://<ip>:<node_port>/`.
pub open spec fn director_url(ip: Seq<char>, node_port: u64) -> Seq<char> {
    "http://"@ + ip + ":"@ + decimal(node_port as nat) + "/"@
}

fn services_scan(services: &JsonValue) -> (r: (bool, Option<u64>))
    ensures
        r == services_fold(items_of(at(*services, seq!["items"@]))),
{
    let items_p = ["items"];
    let name_p = ["metadata", "name"];
    let ports_p = ["spec", "ports"];
    let port_p = ["port"];
    let node_p = ["nodePort"];
    assert(path_view(items_p@) =~= seq!["items"@]);
    assert(path_view(name_p@) =~= seq!["metadata"@, "name"@]);
    assert(path_view(ports_p@) =~= seq!["spec"@, "ports"@]);
    assert(path_view(port_p@) =~= seq!["port"@]);
    assert(path_view(node_p@) =~= seq!["nodePort"@]);
    let fb_suffix = chars_of("-fb-svc");
    let mut st: (bool, Option<u64>) = (false, None);
    match array_at(services, &items_p) {
        Some(svcs) => {
            let mut i: usize = 0;
            while i < svcs.len()
                invariant
                    i <= svcs@.len(),
                    fb_suffix@ == "-fb-svc"@,
                    path_view(name_p@) == seq!["metadata"@, "name"@],
                    path_view(ports_p@) == seq!["spec"@, "ports"@],
                    path_view(port_p@) == seq!["port"@],
                    path_view(node_p@) == seq!["nodePort"@],
                    st == services_fold(svcs@.take(i as int)),
                decreases svcs@.len() - i,
            {
                let svc = &svcs[i];
                assert(svcs@.take(i + 1).drop_last() =~= svcs@.take(i as int));
                let svc_name = str_chars_at(svc, &name_p);
                let ghost start = st;
                match array_at(svc, &ports_p) {
                    Some(ports) => {
                        let mut k: usize = 0;
                        while k < ports.len()
                            invariant
                                k <= ports@.len(),
                                fb_suffix@ == "-fb-svc"@,
                                path_view(port_p@) == seq!["port"@],
                                path_view(node_p@) == seq!["nodePort"@],
                                st == ports_fold(start, svc_name@, ports@.take(k as int)),
                            decreases ports@.len() - k,
                        {
                            assert(ports@.take(k + 1).drop_last() =~= ports@.take(k as int));
                            let port = &ports[k];
                            let number = match u64_at(port, &port_p) {
                                Some(n) => n,
                                None => 0,
                            };
                            let node_port = u64_at(port, &node_p);
                            let fb = st.0 || ends_with_chars(svc_name.as_slice(), fb_suffix.as_slice()) || number == 18888;
                            let dir = if number == 11717 && node_port.is_some() {
                                node_port
                            } else {
                                st.1
                            };
                            st = (fb, dir);
                            k = k + 1;
                        }
                        assert(ports@.take(ports@.len() as int) =~= ports@);
                    },
                    None => {},
                }
                i = i + 1;
            }
            assert(svcs@.take(svcs@.len() as int) =~= svcs@);
        },
        None => {},
    }
    proof {
        crate::json::lemma_at_one(*services, "items"@);
    }
    st
}

/// `r` is the list entry of the BattleGroup resource `item`, with the file
/// browser and Director links found in the services of its namespace
/// (`services` is a `kubectl get svc -o json` document) on host `ip`.
pub open spec fn summarizes(r: BattleGroupSummary, item: JsonValue, services: JsonValue, ip: Seq<char>) -> bool {
    let found = services_fold(items_of(at(services, seq!["items"@])));
    &&& r.namespace@ == str_or_empty(at(item, seq!["metadata"@, "namespace"@]))
    &&& r.name@ == str_or_empty(at(item, seq!["metadata"@, "name"@]))
    &&& r.title@ == str_or_empty(at(item, seq!["spec"@, "title"@]))
    &&& r.phase@ == str_or_empty(at(item, seq!["status"@, "phase"@]))
    &&& r.stop == bool_or_false(at(item, seq!["spec"@, "stop"@]))
    &&& r.server_sets == (match as_array(at(item, sets_path())) {
        Some(sets) => sets.len(),
        None => 0,
    })
    &&& r.server_image@ == first_set_image(item)
    &&& (match r.file_browser_url {
        Some(u) => found.0 && u@ == file_browser_url(ip),
        None => !found.0,
    })
    &&& (match r.director_url {
        Some(u) => found.1 matches Some(p) && u@ == director_url(ip, p),
        None => found.1 is None,
    })
}

/// The list entry of a BattleGroup resource, with the links found in the
/// services of its namespace on host `ip`.
pub fn battlegroup_summary(item: &JsonValue, services: &JsonValue, ip: &str) -> (r: BattleGroupSummary)
    ensures
        summarizes(r, *item, *services, ip@),
{
    let namespace_p = ["metadata", "namespace"];
    let name_p = ["metadata", "name"];
    let title_p = ["spec", "title"];
    let phase_p = ["status", "phase"];
    let stop_p = ["spec", "stop"];
    let sets_p = ["spec", "serverGroup", "template", "spec", "sets"];
    let image_p = ["image"];
    assert(path_view(namespace_p@) =~= seq!["metadata"@, "namespace"@]);
    assert(path_view(name_p@) =~= seq!["metadata"@, "name"@]);
    assert(path_view(title_p@) =~= seq!["spec"@, "title"@]);
    assert(path_view(phase_p@) =~= seq!["status"@, "phase"@]);
    assert(path_view(stop_p@) =~= seq!["spec"@, "stop"@]);
    assert(path_view(sets_p@) =~= sets_path());
    assert(path_view(image_p@) =~= seq!["image"@]);
    let (server_sets, server_image) = match array_at(item, &sets_p) {
        Some(sets) => {
            let image = if sets.len() > 0 {
                string_of(str_chars_at(&sets[0], &image_p).as_slice())
            } else {
                String::new()
            };
            (sets.len(), image)
        },
        None => (0, String::new()),
    };
    let found = services_scan(services);
    let file_browser = if found.0 {
        let mut u: Vec<char> = Vec::new();
        extend_str(&mut u, "http://");
        extend_str(&mut u, ip);
        extend_str(&mut u, ":18888/");
        assert(u@ =~= file_browser_url(ip@));
        Some(string_of(u.as_slice()))
    } else {
        None
    };
    let director = match found.1 {
        Some(p) => {
            let mut u: Vec<char> = Vec::new();
            extend_str(&mut u, "http://");
            extend_str(&mut u, ip);
            extend_str(&mut u, ":");
            push_decimal(&mut u, p);
            extend_str(&mut u, "/");
            assert(u@ =~= director_url(ip@, p));
            Some(string_of(u.as_slice()))
        },
        None => None,
    };
    BattleGroupSummary {
        namespace: string_of(str_chars_at(item, &namespace_p).as_slice()),
        name: string_of(str_chars_at(item, &name_p).as_slice()),
        title: string_of(str_chars_at(item, &title_p).as_slice()),
        phase: string_of(str_chars_at(item, &phase_p).as_slice()),
        stop: match bool_at(item, &stop_p) {
            Some(b) => b,
            None => false,
        },
        server_image,
        file_browser_url: file_browser,
        director_url: director,
        server_sets,
    }
}

// ---------------------------------------------------------------------------
// Guest identity
// ---------------------------------------------------------------------------

/// Probes the guest: host name, kernel, and whether passwordless `sudo` and
/// `kubectl` work (each reported by a marker line).
pub const GUEST_IDENTITY_PROBE: &'static str = "hostname; uname -r; sudo -n true && echo SUDO_OK; sudo kubectl version --client=true >/dev/null 2>&1 && echo KUBECTL_OK";

/// Lists the BattleGroups of every namespace as JSON.
pub const BATTLEGROUP_LIST_COMMAND: &'static str = "sudo kubectl get battlegroup -A -o json";

/// The `n`th line of `text`, or nothing.
pub open spec fn line_or_empty(text: Seq<char>, n: int) -> Seq<char> {
    if 0 <= n < lines(text).len() {
        lines(text)[n]
    } else {
        Seq::empty()
    }
}

/// Reads the output of `hostname; uname -r; sudo -n true && echo SUDO_OK;
/// sudo kubectl version --client=true >/dev/null 2>&1 && echo KUBECTL_OK`.
pub fn parse_guest_identity(identity: &str) -> (r: GuestIdentity)
    ensures
        r.hostname@ == line_or_empty(identity@, 0),
        r.kernel@ == line_or_empty(identity@, 1),
        r.sudo == contains_seq(identity@, "SUDO_OK"@),
        r.kubectl == contains_seq(identity@, "KUBECTL_OK"@),
{
    let text = chars_of(identity);
    let ls = lines_of(text.as_slice());
    let hostname = if ls.len() > 0 {
        assert(views(ls@)[0] == ls@[0]@);
        string_of(ls[0].as_slice())
    } else {
        String::new()
    };
    let kernel = if ls.len() > 1 {
        assert(views(ls@)[1] == ls@[1]@);
        string_of(ls[1].as_slice())
    } else {
        String::new()
    };
    let sudo_ok = chars_of("SUDO_OK");
    let kubectl_ok = chars_of("KUBECTL_OK");
    GuestIdentity {
        hostname,
        kernel,
        sudo: contains_chars(text.as_slice(), sudo_ok.as_slice()),
        kubectl: contains_chars(text.as_slice(), kubectl_ok.as_slice()),
    }
}

// ---------------------------------------------------------------------------
// BattleGroup command lines
// ---------------------------------------------------------------------------

/// The namespace and name are Kubernetes names; the error names the first that is not.
pub open spec fn kube_pair_error(namespace: Seq<char>, name: Seq<char>) -> Seq<char> {
    if !valid_kube_arg(namespace) {
        kube_arg_message("namespace"@)
    } else {
        kube_arg_message("name"@)
    }
}

fn validate_pair(namespace: &str, name: &str) -> (r: CommandResult<()>)
    ensures
        r is Ok <==> valid_kube_arg(namespace@) && valid_kube_arg(name@),
        r matches Err(e) ==> e.message@ == kube_pair_error(namespace@, name@),
{
    match validate_kube_arg(namespace, "namespace") {
        Err(e) => return Err(e),
        Ok(()) => {},
    }
    validate_kube_arg(name, "name")
}

/// `kubectl patch` that sets `spec.stop` of a BattleGroup.
pub open spec fn stop_patch_command(namespace: Seq<char>, name: Seq<char>, stop: bool) -> Seq<char> {
    "sudo kubectl patch battlegroup "@ + name + " -n "@ + namespace + " --type=merge -p '{\"spec\":{\"stop\":"@ + (
    if stop {
        "true"@
    } else {
        "false"@
    }) + "}}'"@
}

/// The command that stops (`stop`) or starts a BattleGroup.
pub fn battlegroup_stop_patch_command(namespace: &str, name: &str, stop: bool) -> (r: CommandResult<String>)
    ensures
        r is Ok <==> valid_kube_arg(namespace@) && valid_kube_arg(name@),
        r matches Err(e) ==> e.message@ == kube_pair_error(namespace@, name@),
        r matches Ok(c) ==> c@ == stop_patch_command(namespace@, name@, stop),
{
    match validate_pair(namespace, name) {
        Err(e) => return Err(e),
        Ok(()) => {},
    }
    let mut c: Vec<char> = Vec::new();
    extend_str(&mut c, "sudo kubectl patch battlegroup ");
    extend_str(&mut c, name);
    extend_str(&mut c, " -n ");
    extend_str(&mut c, namespace);
    extend_str(&mut c, " --type=merge -p '{\"spec\":{\"stop\":");
    if stop {
        extend_str(&mut c, "true");
    } else {
        extend_str(&mut c, "false");
    }
    extend_str(&mut c, "}}'");
    assert(c@ =~= stop_patch_command(namespace@, name@, stop));
    Ok(string_of(c.as_slice()))
}

/// `kubectl get` of one live BattleGroup resource.
pub open spec fn live_battlegroup_get(namespace: Seq<char>, name: Seq<char>) -> Seq<char> {
    "sudo kubectl get battlegroup "@ + name + " -n "@ + namespace + " -o json"@
}

/// The command that prints the live BattleGroup resource.
pub fn live_battlegroup_command(namespace: &str, name: &str) -> (r: CommandResult<String>)
    ensures
        r is Ok <==> valid_kube_arg(namespace@) && valid_kube_arg(name@),
        r matches Err(e) ==> e.message@ == kube_pair_error(namespace@, name@),
        r matches Ok(c) ==> c@ == live_battlegroup_get(namespace@, name@),
{
    match validate_pair(namespace, name) {
        Err(e) => return Err(e),
        Ok(()) => {},
    }
    let mut c: Vec<char> = Vec::new();
    extend_str(&mut c, "sudo kubectl get battlegroup ");
    extend_str(&mut c, name);
    extend_str(&mut c, " -n ");
    extend_str(&mut c, namespace);
    extend_str(&mut c, " -o json");
    assert(c@ =~= live_battlegroup_get(namespace@, name@));
    Ok(string_of(c.as_slice()))
}

/// `kubectl get <kind> -n <namespace> -o json`.
pub open spec fn namespaced_get(kind: Seq<char>, namespace: Seq<char>) -> Seq<char> {
    "sudo kubectl get "@ + kind + " -n "@ + namespace + " -o json"@
}

/// The command that lists the objects of one kind (`pods`, `svc`) in a namespace.
pub fn namespace_list_command(kind: &str, namespace: &str) -> (r: CommandResult<String>)
    ensures
        r is Ok <==> valid_kube_arg(namespace@),
        r matches Err(e) ==> e.message@ == kube_arg_message("namespace"@),
        r matches Ok(c) ==> c@ == namespaced_get(kind@, namespace@),
{
    match validate_kube_arg(namespace, "namespace") {
        Err(e) => return Err(e),
        Ok(()) => {},
    }
    let mut c: Vec<char> = Vec::new();
    extend_str(&mut c, "sudo kubectl get ");
    extend_str(&mut c, kind);
    extend_str(&mut c, " -n ");
    extend_str(&mut c, namespace);
    extend_str(&mut c, " -o json");
    assert(c@ =~= namespaced_get(kind@, namespace@));
    Ok(string_of(c.as_slice()))
}

/// `<name>-live-<timestamp>.json`.
pub open spec fn snapshot_name(name: Seq<char>, timestamp: u64) -> Seq<char> {
    name + "-live-"@ + decimal(timestamp as nat) + ".json"@
}

/// The file name of a live configuration snapshot.
pub fn snapshot_file_name(name: &str, timestamp: u64) -> (r: String)
    ensures
        r@ == snapshot_name(name@, timestamp),
{
    let mut c: Vec<char> = Vec::new();
    extend_str(&mut c, name);
    extend_str(&mut c, "-live-");
    push_decimal(&mut c, timestamp);
    extend_str(&mut c, ".json");
    assert(c@ =~= snapshot_name(name@, timestamp));
    string_of(c.as_slice())
}

} // verus!
