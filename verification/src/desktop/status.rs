//! Dashboard status read from the host: disk usage of the watched filesystems
//! and the start time of each map server pod.
use vstd::prelude::*;
use std::collections::HashMap;
use crate::command::{CommandFailure, CommandResult, RemoteCommandRunner};
use crate::manager_core::battlegroup_kubernetes::sh_quote;
use crate::sort::view_seq;
use crate::text::{
    chars_eq, chars_of, contains_chars, contains_seq, extend, extend_str, fields, fields_of, lines,
    lines_of, parse_u64, parse_u64_chars, rsplit_once, rsplit_once_chars, split_once,
    split_once_char, string_of, trim, trimmed, views,
};

verus! {

/// Usage of one mounted filesystem, in KiB.
#[derive(Clone, Debug, PartialEq, Eq)]
pub struct RemoteDiskUsage {
    pub mount: String,
    pub total_kb: u64,
    pub used_kb: u64,
    pub available_kb: u64,
}

impl View for RemoteDiskUsage {
    type V = (Seq<char>, u64, u64, u64);

    open spec fn view(&self) -> (Seq<char>, u64, u64, u64) {
        (self.mount@, self.total_kb, self.used_kb, self.available_kb)
    }
}

/// Filesystems worth watching: the root filesystem and, when it lives on its
/// own mount, the k3s storage that holds game data, images, and dumps.
pub const DISK_USAGE_SCRIPT: &'static str = r#"
for path in / /var/lib/rancher/k3s; do
  [ -e "$path" ] && df -Pk "$path" 2>/dev/null | tail -n +2
done
true
"#;

/// Words joined by single spaces (`[&str]::join(" ")`).
pub open spec fn join_words(ws: Seq<Seq<char>>) -> Seq<char>
    decreases ws.len(),
{
    if ws.len() == 0 {
        Seq::empty()
    } else if ws.len() == 1 {
        ws[0]
    } else {
        join_words(ws.drop_last()) + " "@ + ws.last()
    }
}

/// The filesystem described by one `df -Pk` data line: at least six columns,
/// numeric size, used and available columns; the mount point is everything
/// after the capacity column.
pub open spec fn df_row(line: Seq<char>) -> Option<(Seq<char>, u64, u64, u64)> {
    let cols = fields(line);
    if cols.len() < 6 {
        None
    } else {
        match (parse_u64(cols[1]), parse_u64(cols[2]), parse_u64(cols[3])) {
            (Some(total), Some(used), Some(available)) => Some((join_words(cols.skip(5)), total, used, available)),
            _ => None,
        }
    }
}

/// Some entry of `out` is for mount point `mount`.
pub open spec fn mount_listed(out: Seq<(Seq<char>, u64, u64, u64)>, mount: Seq<char>) -> bool {
    exists|i: int| 0 <= i < out.len() && (#[trigger] out[i]).0 == mount
}

/// The filesystems of `ls`, in order, skipping zero-sized ones and repeated mounts.
pub open spec fn df_fold(ls: Seq<Seq<char>>) -> Seq<(Seq<char>, u64, u64, u64)>
    decreases ls.len(),
{
    if ls.len() == 0 {
        Seq::empty()
    } else {
        let out = df_fold(ls.drop_last());
        match df_row(ls.last()) {
            Some(d) => if d.1 == 0 || mount_listed(out, d.0) {
                out
            } else {
                out.push(d)
            },
            None => out,
        }
    }
}

/// What `df -Pk` data lines report.
pub open spec fn parse_df(text: Seq<char>) -> Seq<(Seq<char>, u64, u64, u64)> {
    df_fold(lines(text))
}

fn join_from(cols: &Vec<Vec<char>>, start: usize) -> (r: Vec<char>)
    requires
        start < cols@.len(),
    ensures
        r@ == join_words(views(cols@).skip(start as int)),
{
    let ghost vs = views(cols@);
    let mut out: Vec<char> = Vec::new();
    extend(&mut out, cols[start].as_slice());
    let n = cols.len();
    let mut j: usize = start + 1;
    assert(vs.subrange(start as int, start + 1) =~= seq![vs[start as int]]);
    while j < cols.len()
        invariant
            vs == views(cols@),
            start < j <= cols@.len(),
            out@ == join_words(vs.subrange(start as int, j as int)),
        decreases cols@.len() - j,
    {
        let ghost before = vs.subrange(start as int, j as int);
        assert(vs.subrange(start as int, j + 1).drop_last() =~= before);
        assert(vs.subrange(start as int, j + 1).last() == cols@[j as int]@);
        extend_str(&mut out, " ");
        extend(&mut out, cols[j].as_slice());
        j = j + 1;
    }
    assert(vs.subrange(start as int, cols@.len() as int) =~= vs.skip(start as int));
    out
}

fn df_row_exec(line: &Vec<char>) -> (r: Option<RemoteDiskUsage>)
    ensures
        match r {
            Some(d) => df_row(line@) == Some(d@),
            None => df_row(line@) is None,
        },
{
    let cols = fields_of(line.as_slice());
    if cols.len() < 6 {
        return None;
    }
    let total = parse_u64_chars(cols[1].as_slice());
    let used = parse_u64_chars(cols[2].as_slice());
    let available = parse_u64_chars(cols[3].as_slice());
    assert(views(cols@)[1] == cols@[1]@);
    assert(views(cols@)[2] == cols@[2]@);
    assert(views(cols@)[3] == cols@[3]@);
    match (total, used, available) {
        (Some(total_kb), Some(used_kb), Some(available_kb)) => {
            let mount = join_from(&cols, 5);
            Some(RemoteDiskUsage { mount: string_of(mount.as_slice()), total_kb, used_kb, available_kb })
        },
        _ => None,
    }
}

fn mount_already_listed(out: &Vec<RemoteDiskUsage>, mount: &String) -> (r: bool)
    ensures
        r == mount_listed(view_seq(out@), mount@),
{
    let m = chars_of(mount.as_str());
    let mut i: usize = 0;
    while i < out.len()
        invariant
            i <= out@.len(),
            m@ == mount@,
            forall|k: int| 0 <= k < i ==> (#[trigger] view_seq(out@)[k]).0 != mount@,
        decreases out@.len() - i,
    {
        let c = chars_of(out[i].mount.as_str());
        assert(view_seq(out@)[i as int] == out@[i as int]@);
        if chars_eq(c.as_slice(), m.as_slice()) {
            return true;
        }
        i = i + 1;
    }
    false
}

/// Parses POSIX `df -Pk` data lines (no header), dropping duplicate mounts.
/// Columns: filesystem, 1024-blocks, used, available, capacity, mounted on.
pub fn parse_df_output(text: &str) -> (r: Vec<RemoteDiskUsage>)
    ensures
        view_seq(r@) == parse_df(text@),
{
    let t = chars_of(text);
    let ls = lines_of(t.as_slice());
    let ghost lv = views(ls@);
    let mut out: Vec<RemoteDiskUsage> = Vec::new();
    let mut i: usize = 0;
    while i < ls.len()
        invariant
            lv == views(ls@),
            i <= ls@.len(),
            view_seq(out@) == df_fold(lv.take(i as int)),
        decreases ls@.len() - i,
    {
        assert(lv.take(i + 1).drop_last() =~= lv.take(i as int));
        assert(lv.take(i + 1).last() == ls@[i as int]@);
        match df_row_exec(&ls[i]) {
            Some(d) => {
                if d.total_kb != 0 && !mount_already_listed(&out, &d.mount) {
                    proof {
                        assert(view_seq(out@.push(d)) =~= view_seq(out@).push(d@));
                    }
                    out.push(d);
                }
            },
            None => {},
        }
        i = i + 1;
    }
    assert(lv.take(ls@.len() as int) =~= lv);
    out
}

/// Every filesystem in a parsed report has a non-zero size, and no mount point
/// is reported twice.
pub proof fn lemma_parse_df_distinct(text: Seq<char>)
    ensures
        forall|i: int| 0 <= i < parse_df(text).len() ==> (#[trigger] parse_df(text)[i]).1 > 0,
        forall|i: int, j: int|
            0 <= i < j < parse_df(text).len() ==> (#[trigger] parse_df(text)[i]).0 != (#[trigger] parse_df(text)[j]).0,
{
    lemma_df_fold_distinct(lines(text));
}

proof fn lemma_df_fold_distinct(ls: Seq<Seq<char>>)
    ensures
        forall|i: int| 0 <= i < df_fold(ls).len() ==> (#[trigger] df_fold(ls)[i]).1 > 0,
        forall|i: int, j: int|
            0 <= i < j < df_fold(ls).len() ==> (#[trigger] df_fold(ls)[i]).0 != (#[trigger] df_fold(ls)[j]).0,
    decreases ls.len(),
{
    if ls.len() > 0 {
        lemma_df_fold_distinct(ls.drop_last());
        let out = df_fold(ls.drop_last());
        match df_row(ls.last()) {
            Some(d) => {
                if !(d.1 == 0 || mount_listed(out, d.0)) {
                    assert forall|i: int, j: int| 0 <= i < j < df_fold(ls).len() implies (#[trigger] df_fold(ls)[i]).0
                        != (#[trigger] df_fold(ls)[j]).0 by {
                        if j == out.len() {
                            assert(df_fold(ls)[i] == out[i]);
                            if out[i].0 == d.0 {
                                assert(mount_listed(out, d.0));
                            }
                        } else {
                            assert(df_fold(ls)[i] == out[i]);
                            assert(df_fold(ls)[j] == out[j]);
                        }
                    }
                    assert forall|i: int| 0 <= i < df_fold(ls).len() implies (#[trigger] df_fold(ls)[i]).1 > 0 by {
                        if i < out.len() {
                            assert(df_fold(ls)[i] == out[i]);
                        }
                    }
                }
            },
            None => {},
        }
    }
}

/// The filesystems named by the answer of the disk-usage script: those of its
/// output when it ran, none when it failed.
pub open spec fn disk_usage_answer(answer: CommandResult<String>) -> Seq<(Seq<char>, u64, u64, u64)> {
    match answer {
        Ok(text) => parse_df(text@),
        Err(_) => Seq::empty(),
    }
}

/// The disk usage reported by the answer of the disk-usage script; a failed
/// run reports nothing.
pub fn disk_usage_from(answer: CommandResult<String>) -> (r: Vec<RemoteDiskUsage>)
    ensures
        view_seq(r@) == disk_usage_answer(answer),
{
    match answer {
        Ok(text) => parse_df_output(text.as_str()),
        Err(_) => {
            let r: Vec<RemoteDiskUsage> = Vec::new();
            assert(view_seq(r@) =~= Seq::<(Seq<char>, u64, u64, u64)>::empty());
            r
        },
    }
}

/// `usage` is what `runner`'s answer to the disk-usage script reports.
pub open spec fn disk_usage_read_by<R: RemoteCommandRunner>(runner: &R, usage: Seq<(Seq<char>, u64, u64, u64)>) -> bool {
    exists|answer: CommandResult<String>| #[trigger] runner.script_answer(DISK_USAGE_SCRIPT@, answer)
        && usage == disk_usage_answer(answer)
}

/// The disk usage read through a runner is what its output of the disk-usage
/// script names: when the script prints `text`, the filesystems of `text`
/// (so a healthy host's root filesystem is reported); when it fails, none.
pub proof fn lemma_disk_usage_is_the_script_output<R: RemoteCommandRunner>(
    runner: &R,
    usage: Seq<(Seq<char>, u64, u64, u64)>,
    text: String,
)
    requires
        disk_usage_read_by(runner, usage),
    ensures
        (forall|a: CommandResult<String>| #[trigger] runner.script_answer(DISK_USAGE_SCRIPT@, a) ==> a == Ok::<
            String,
            CommandFailure,
        >(text)) ==> usage == parse_df(text@),
        (forall|a: CommandResult<String>| #[trigger] runner.script_answer(DISK_USAGE_SCRIPT@, a) ==> a is Err) ==> usage.len()
            == 0,
{
}

/// Reads disk usage for the server's root and k3s storage filesystems.
/// Best-effort: any failure yields an empty list and the dashboard simply
/// hides the tile.
pub fn read_disk_usage<R: RemoteCommandRunner>(runner: &R) -> (r: Vec<RemoteDiskUsage>)
    ensures
        exists|answer: CommandResult<String>| view_seq(r@) == #[trigger] disk_usage_answer(answer),
        disk_usage_read_by(runner, view_seq(r@)),
{
    let answer = runner.run_script(DISK_USAGE_SCRIPT);
    let ghost given = answer;
    let r = disk_usage_from(answer);
    assert(view_seq(r@) == disk_usage_answer(given));
    r
}

// ---------------------------------------------------------------------------
// Map server pod start times
// ---------------------------------------------------------------------------

/// The partition index and start time named by one `name<TAB>startTime`
/// line, for map server pods (`<bg>-sg-<map>-pod-<partitionIndex>`) that have started.
pub open spec fn pod_start_entry(line: Seq<char>) -> Option<(u64, Seq<char>)> {
    match split_once(line, '\t') {
        None => None,
        Some(parts) => {
            let name = parts.0;
            let start = trim(parts.1);
            if start.len() == 0 || !contains_seq(name, "-sg-"@) {
                None
            } else {
                match rsplit_once(trim(name), "-pod-"@) {
                    None => None,
                    Some(halves) => match parse_u64(halves.1) {
                        Some(partition) => Some((partition, start)),
                        None => None,
                    },
                }
            }
        },
    }
}

/// Partition start times of `ls`; a later line for the same partition wins.
pub open spec fn pod_starts_fold(ls: Seq<Seq<char>>) -> Map<u64, Seq<char>>
    decreases ls.len(),
{
    if ls.len() == 0 {
        Map::empty()
    } else {
        let m = pod_starts_fold(ls.drop_last());
        match pod_start_entry(ls.last()) {
            Some(e) => m.insert(e.0, e.1),
            None => m,
        }
    }
}

/// The partition start times that `name<TAB>startTime` lines report.
pub open spec fn pod_starts(text: Seq<char>) -> Map<u64, Seq<char>> {
    pod_starts_fold(lines(text))
}

/// `m` holds exactly the entries of `spec`, its strings by their characters.
pub open spec fn same_starts(m: Map<u64, String>, spec: Map<u64, Seq<char>>) -> bool {
    &&& m.dom() == spec.dom()
    &&& forall|k: u64| #[trigger] m.contains_key(k) ==> m[k]@ == spec[k]
}

fn pod_start_entry_exec(line: &Vec<char>) -> (r: Option<(u64, Vec<char>)>)
    ensures
        match r {
            Some(e) => pod_start_entry(line@) == Some((e.0, e.1@)),
            None => pod_start_entry(line@) is None,
        },
{
    let parts = match split_once_char(line.as_slice(), '\t') {
        Some(p) => p,
        None => return None,
    };
    let name = parts.0;
    let start = trimmed(parts.1.as_slice());
    let sg = chars_of("-sg-");
    if start.len() == 0 || !contains_chars(name.as_slice(), sg.as_slice()) {
        return None;
    }
    let tname = trimmed(name.as_slice());
    let pod = chars_of("-pod-");
    let halves = match rsplit_once_chars(tname.as_slice(), pod.as_slice()) {
        Some(h) => h,
        None => return None,
    };
    match parse_u64_chars(halves.1.as_slice()) {
        Some(partition) => Some((partition, start)),
        None => None,
    }
}

/// Parses `name<TAB>startTime` lines. Map server pods are named
/// `<bg>-sg-<map>-pod-<partitionIndex>`; everything else is ignored.
pub fn parse_server_pod_starts(text: &str) -> (r: HashMap<u64, String>)
    ensures
        same_starts(r@, pod_starts(text@)),
{
    let t = chars_of(text);
    let ls = lines_of(t.as_slice());
    let ghost lv = views(ls@);
    let mut out: HashMap<u64, String> = HashMap::new();
    let mut i: usize = 0;
    while i < ls.len()
        invariant
            lv == views(ls@),
            i <= ls@.len(),
            same_starts(out@, pod_starts_fold(lv.take(i as int))),
        decreases ls@.len() - i,
    {
        assert(lv.take(i + 1).drop_last() =~= lv.take(i as int));
        assert(lv.take(i + 1).last() == ls@[i as int]@);
        match pod_start_entry_exec(&ls[i]) {
            Some(e) => {
                let s = string_of(e.1.as_slice());
                out.insert(e.0, s);
                assert(out@.dom() =~= pod_starts_fold(lv.take(i + 1)).dom());
            },
            None => {},
        }
        i = i + 1;
    }
    assert(lv.take(ls@.len() as int) =~= lv);
    out
}

/// The command that lists pod names with their start times.
pub open spec fn pod_starts_command(namespace: Seq<char>) -> Seq<char> {
    "sudo kubectl get pods -n "@ + sh_quote(namespace)
        + " -o jsonpath='{range .items[*]}{.metadata.name}{\"\\t\"}{.status.startTime}{\"\\n\"}{end}'"@
}

/// The command that lists only the name and start time of each pod of
/// `namespace`, so pod specs (which carry credentials) never leave the host.
pub fn server_pod_starts_command(namespace: &str) -> (r: String)
    ensures
        r@ == pod_starts_command(namespace@),
{
    let mut cmd: Vec<char> = Vec::new();
    extend_str(&mut cmd, "sudo kubectl get pods -n ");
    let q = crate::manager_core::battlegroup_kubernetes::sh_single_quoted(namespace);
    extend_str(&mut cmd, q.as_str());
    extend_str(&mut cmd, " -o jsonpath='{range .items[*]}{.metadata.name}{\"\\t\"}{.status.startTime}{\"\\n\"}{end}'");
    assert(cmd@ =~= pod_starts_command(namespace@));
    string_of(cmd.as_slice())
}

/// The pod start times named by the answer of the listing command: those of
/// its output when it ran, none when it failed.
pub open spec fn pod_starts_answer(answer: CommandResult<String>) -> Map<u64, Seq<char>> {
    match answer {
        Ok(text) => pod_starts(text@),
        Err(_) => Map::empty(),
    }
}

/// The start times reported by the answer of the listing command; a failed
/// run reports none.
pub fn pod_starts_from(answer: CommandResult<String>) -> (r: HashMap<u64, String>)
    ensures
        same_starts(r@, pod_starts_answer(answer)),
{
    match answer {
        Ok(text) => parse_server_pod_starts(text.as_str()),
        Err(_) => {
            let r: HashMap<u64, String> = HashMap::new();
            assert(r@.dom() =~= Map::<u64, Seq<char>>::empty().dom());
            r
        },
    }
}

/// `starts` is what `runner`'s answer to the start-time listing of `namespace` reports.
pub open spec fn pod_starts_read_by<R: RemoteCommandRunner>(runner: &R, namespace: Seq<char>, starts: Map<u64, String>) -> bool {
    exists|answer: CommandResult<String>| #[trigger] runner.command_answer(pod_starts_command(namespace), answer)
        && same_starts(starts, pod_starts_answer(answer))
}

/// The start times read through a runner are those its output of the
/// listing names: when it prints `text`, the start times of `text`.
pub proof fn lemma_pod_starts_are_the_listing_output<R: RemoteCommandRunner>(
    runner: &R,
    namespace: Seq<char>,
    starts: Map<u64, String>,
    text: String,
)
    requires
        pod_starts_read_by(runner, namespace, starts),
        forall|a: CommandResult<String>| #[trigger] runner.command_answer(pod_starts_command(namespace), a) ==> a == Ok::<
            String,
            CommandFailure,
        >(text),
    ensures
        same_starts(starts, pod_starts(text@)),
{
}

/// Reads `partition index -> pod start time` for the map server pods of a
/// BattleGroup namespace. Best-effort: any failure yields an empty map and
/// the caller falls back to the BattleGroup age. Only names and start times
/// are requested, so pod specs never leave the host.
pub fn read_server_pod_starts<R: RemoteCommandRunner>(runner: &R, namespace: &str) -> (r: HashMap<u64, String>)
    ensures
        exists|answer: CommandResult<String>| #[trigger] same_starts(r@, pod_starts_answer(answer)),
        pod_starts_read_by(runner, namespace@, r@),
{
    let command = server_pod_starts_command(namespace);
    let answer = runner.run(command.as_str());
    let ghost given = answer;
    let r = pod_starts_from(answer);
    assert(same_starts(r@, pod_starts_answer(given)));
    r
}

} // verus!
