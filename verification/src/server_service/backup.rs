//! Where the vendor backup helper writes its dump, and how a dump is checked.
use vstd::prelude::*;
use crate::json::{as_str, at, get, index, path_view, str_at, JsonValue};
use crate::sort::view_seq;
use crate::text::{
    chars_of, extend, extend_str, parse_u64, parse_u64_chars, string_of, trim,
    trimmed,
};

verus! {

/// A single file name: not empty, no `/` or `\`, and neither `.` nor `..`
/// (exactly the names for which `Path::file_name` gives the name back).
pub open spec fn valid_backup_name(n: Seq<char>) -> bool {
    n.len() > 0 && !n.contains('/') && !n.contains('\\') && n != "."@ && n != ".."@
}

/// Refuses anything but a single file name, so a backup cannot be written
/// outside the dump directory.
pub fn validate_backup_name(backup_name: &str) -> (r: Result<(), String>)
    ensures
        r is Ok <==> valid_backup_name(backup_name@),
        r matches Err(m) ==> m@ == "backup name must be a single file name"@,
{
    let n = chars_of(backup_name);
    let mut ok = n.len() > 0;
    let mut i: usize = 0;
    while i < n.len()
        invariant
            i <= n@.len(),
            ok == (n@.len() > 0 && forall|j: int| 0 <= j < i ==> n@[j] != '/' && n@[j] != '\\'),
        decreases n@.len() - i,
    {
        if n[i] == '/' || n[i] == '\\' {
            ok = false;
        }
        i = i + 1;
    }
    let dot = chars_of(".");
    let dotdot = chars_of("..");
    if ok && !crate::text::chars_eq(n.as_slice(), dot.as_slice()) && !crate::text::chars_eq(n.as_slice(), dotdot.as_slice()) {
        assert(!n@.contains('/'));
        assert(!n@.contains('\\'));
        Ok(())
    } else {
        proof {
            if n@.len() > 0 && !(forall|j: int| 0 <= j < n@.len() ==> n@[j] != '/' && n@[j] != '\\') {
                let j = choose|j: int| !(0 <= j < n@.len() ==> n@[j] != '/' && n@[j] != '\\');
                assert(n@.contains(n@[j]));
            }
        }
        Err("backup name must be a single file name".to_owned())
    }
}

/// `base` joined with `seg` as `Path::join` does on Unix: an absolute `seg`
/// replaces `base`; otherwise a `/` separates them unless `base` is empty or
/// already ends in one.
pub open spec fn path_join(base: Seq<char>, seg: Seq<char>) -> Seq<char> {
    if seg.len() > 0 && seg[0] == '/' {
        seg
    } else if base.len() == 0 || base.last() == '/' {
        base + seg
    } else {
        base + "/"@ + seg
    }
}

fn join_into(base: &[char], seg: &str) -> (r: Vec<char>)
    ensures
        r@ == path_join(base@, seg@),
{
    let s = chars_of(seg);
    if s.len() > 0 && s[0] == '/' {
        return s;
    }
    let mut out: Vec<char> = Vec::new();
    extend(&mut out, base);
    if base.len() > 0 && base[base.len() - 1] != '/' {
        extend_str(&mut out, "/");
    }
    extend(&mut out, s.as_slice());
    assert(out@ =~= path_join(base@, seg@));
    out
}

/// The dump under the server volume's `Saved/DatabaseDumps`.
pub open spec fn pvc_dump_path(pvc: Seq<char>, backup_name: Seq<char>) -> Seq<char> {
    path_join(path_join(path_join(pvc, "Saved"@), "DatabaseDumps"@), backup_name)
}

/// The dump in the legacy artifacts directory.
pub open spec fn legacy_dump_path(bg_name: Seq<char>, backup_name: Seq<char>) -> Seq<char> {
    path_join(path_join("/funcom/artifacts/database-dumps"@, bg_name), backup_name)
}

/// Where to look for a dump, best first: the server volume when its path is
/// known, then the legacy artifacts directory.
pub open spec fn dump_candidates(bg_name: Seq<char>, backup_name: Seq<char>, pvc_path: Option<Seq<char>>) -> Seq<Seq<char>> {
    match pvc_path {
        Some(p) => seq![pvc_dump_path(p, backup_name), legacy_dump_path(bg_name, backup_name)],
        None => seq![legacy_dump_path(bg_name, backup_name)],
    }
}

/// The candidate dump paths, best first.
pub fn backup_candidates(bg_name: &str, backup_name: &str, pvc_path: Option<&str>) -> (r: Vec<String>)
    ensures
        view_seq(r@) == dump_candidates(
            bg_name@,
            backup_name@,
            match pvc_path {
                Some(p) => Some(p@),
                None => None,
            },
        ),
{
    let mut out: Vec<String> = Vec::new();
    match pvc_path {
        Some(p) => {
            let base = chars_of(p);
            let a = join_into(base.as_slice(), "Saved");
            let b = join_into(a.as_slice(), "DatabaseDumps");
            let c = join_into(b.as_slice(), backup_name);
            out.push(string_of(c.as_slice()));
        },
        None => {},
    }
    let root = chars_of("/funcom/artifacts/database-dumps");
    let d = join_into(root.as_slice(), bg_name);
    let e = join_into(d.as_slice(), backup_name);
    out.push(string_of(e.as_slice()));
    assert(view_seq(out@) =~= (match pvc_path {
        Some(p) => seq![pvc_dump_path(p@, backup_name@), legacy_dump_path(bg_name@, backup_name@)],
        None => seq![legacy_dump_path(bg_name@, backup_name@)],
    }));
    out
}

/// A string value that is not empty.
pub open spec fn nonempty_str(v: JsonValue) -> Option<Seq<char>> {
    match as_str(v) {
        Some(s) => if s.len() > 0 {
            Some(s)
        } else {
            None
        },
        None => None,
    }
}

/// The host directory of a persistent volume: `spec.local.path`, else `spec.hostPath.path`.
pub open spec fn pv_path(doc: JsonValue) -> Option<Seq<char>> {
    match nonempty_str(at(doc, seq!["spec"@, "local"@, "path"@])) {
        Some(p) => Some(p),
        None => nonempty_str(at(doc, seq!["spec"@, "hostPath"@, "path"@])),
    }
}

/// The host directory of a persistent volume document.
pub fn extract_pv_path(pv_doc: &JsonValue) -> (r: Option<String>)
    ensures
        match r {
            Some(p) => pv_path(*pv_doc) == Some(p@),
            None => pv_path(*pv_doc) is None,
        },
{
    let local = ["spec", "local", "path"];
    let host = ["spec", "hostPath", "path"];
    assert(path_view(local@) =~= seq!["spec"@, "local"@, "path"@]);
    assert(path_view(host@) =~= seq!["spec"@, "hostPath"@, "path"@]);
    match str_at(pv_doc, &local) {
        Some(p) => {
            if chars_of(p.as_str()).len() > 0 {
                return Some(p);
            }
        },
        None => {},
    }
    match str_at(pv_doc, &host) {
        Some(p) => {
            if chars_of(p.as_str()).len() > 0 {
                Some(p)
            } else {
                None
            }
        },
        None => None,
    }
}

/// The volume bound to the first server claim: `/items/0/spec/volumeName` of a
/// `kubectl get pvc -o json` document, when it is a non-empty string. As a JSON
/// pointer, `0` indexes an array and names a member of an object.
pub open spec fn pvc_volume_name_of(doc: JsonValue) -> Option<Seq<char>> {
    match index(doc, "items"@) {
        JsonValue::Array(items) => if items@.len() > 0 {
            nonempty_str(at(items@[0], seq!["spec"@, "volumeName"@]))
        } else {
            None
        },
        JsonValue::Object(_) => nonempty_str(at(doc, seq!["items"@, "0"@, "spec"@, "volumeName"@])),
        _ => None,
    }
}

/// The persistent volume behind the server's claim, if the claim names one.
pub fn pvc_volume_name(pvc_doc: &JsonValue) -> (r: Option<String>)
    ensures
        match r {
            Some(n) => pvc_volume_name_of(*pvc_doc) == Some(n@),
            None => pvc_volume_name_of(*pvc_doc) is None,
        },
{
    let found = match get(pvc_doc, "items") {
        Some(JsonValue::Array(items)) => {
            if items.len() > 0 {
                let p = ["spec", "volumeName"];
                assert(path_view(p@) =~= seq!["spec"@, "volumeName"@]);
                str_at(&items[0], &p)
            } else {
                None
            }
        },
        Some(JsonValue::Object(_)) => {
            let p = ["items", "0", "spec", "volumeName"];
            assert(path_view(p@) =~= seq!["items"@, "0"@, "spec"@, "volumeName"@]);
            str_at(pvc_doc, &p)
        },
        _ => None,
    };
    match found {
        Some(n) => {
            if chars_of(n.as_str()).len() > 0 {
                Some(n)
            } else {
                None
            }
        },
        None => None,
    }
}

/// The arguments of `kubectl` that list the server's volume claims in `namespace`.
pub open spec fn pvc_query(namespace: Seq<char>) -> Seq<Seq<char>> {
    seq!["get"@, "pvc"@, "-n"@, namespace, "-l"@, "role=igw-server"@, "-o"@, "json"@]
}

/// `kubectl get pvc -n <namespace> -l role=igw-server -o json`, as arguments.
pub fn pvc_query_args(namespace: &str) -> (r: Vec<String>)
    ensures
        view_seq(r@) == pvc_query(namespace@),
{
    let r = vec![
        "get".to_owned(),
        "pvc".to_owned(),
        "-n".to_owned(),
        namespace.to_owned(),
        "-l".to_owned(),
        "role=igw-server".to_owned(),
        "-o".to_owned(),
        "json".to_owned(),
    ];
    assert(view_seq(r@) =~= pvc_query(namespace@));
    r
}

/// `kubectl get pv <name> -o json`, as arguments.
pub fn pv_query_args(pv_name: &str) -> (r: Vec<String>)
    ensures
        view_seq(r@) == seq!["get"@, "pv"@, pv_name@, "-o"@, "json"@],
{
    let r = vec!["get".to_owned(), "pv".to_owned(), pv_name.to_owned(), "-o".to_owned(), "json".to_owned()];
    assert(view_seq(r@) =~= seq!["get"@, "pv"@, pv_name@, "-o"@, "json"@]);
    r
}

/// The spec file that the helper writes beside a dump: the dump's path with `.yaml` added.
pub fn companion_spec_path(backup_path: &str) -> (r: String)
    ensures
        r@ == backup_path@ + ".yaml"@,
{
    let mut out: Vec<char> = Vec::new();
    extend_str(&mut out, backup_path);
    extend_str(&mut out, ".yaml");
    string_of(out.as_slice())
}

/// `<bg_name>-<stamp>.backup`.
pub open spec fn backup_file_name_of(bg_name: Seq<char>, stamp: Seq<char>) -> Seq<char> {
    bg_name + "-"@ + stamp + ".backup"@
}

/// The file name of a backup taken at `stamp`.
pub fn backup_file_name(bg_name: &str, stamp: &str) -> (r: String)
    ensures
        r@ == backup_file_name_of(bg_name@, stamp@),
{
    let mut out: Vec<char> = Vec::new();
    extend_str(&mut out, bg_name);
    extend_str(&mut out, "-");
    extend_str(&mut out, stamp);
    extend_str(&mut out, ".backup");
    assert(out@ =~= backup_file_name_of(bg_name@, stamp@));
    string_of(out.as_slice())
}

/// What `stat -c %s` says about one candidate dump.
#[derive(Clone, Copy, Debug, PartialEq, Eq, Structural)]
pub enum BackupCheck {
    /// `stat` failed: no dump here.
    Missing,
    /// The dump is empty (or its size is unreadable), which fails the backup.
    Empty,
    /// A dump of this many bytes.
    Verified(u64),
}

/// The outcome of `stat -c %s` on a candidate dump: a failed `stat` means no
/// dump; an unreadable or zero size means an empty one.
pub open spec fn stat_check(stat_ok: bool, stdout: Seq<char>) -> BackupCheck {
    if !stat_ok {
        BackupCheck::Missing
    } else {
        match parse_u64(trim(stdout)) {
            Some(n) => if n == 0 {
                BackupCheck::Empty
            } else {
                BackupCheck::Verified(n)
            },
            None => BackupCheck::Empty,
        }
    }
}

/// Reads the outcome of `stat -c %s` on a candidate dump.
pub fn check_backup_stat(stat_ok: bool, stdout: &str) -> (r: BackupCheck)
    ensures
        r == stat_check(stat_ok, stdout@),
{
    if !stat_ok {
        return BackupCheck::Missing;
    }
    let t = trimmed(chars_of(stdout).as_slice());
    match parse_u64_chars(t.as_slice()) {
        Some(n) => if n == 0 {
            BackupCheck::Empty
        } else {
            BackupCheck::Verified(n)
        },
        None => BackupCheck::Empty,
    }
}

/// Paths joined with `", "`.
pub open spec fn comma_joined(paths: Seq<Seq<char>>) -> Seq<char>
    decreases paths.len(),
{
    if paths.len() == 0 {
        Seq::empty()
    } else if paths.len() == 1 {
        paths[0]
    } else {
        comma_joined(paths.drop_last()) + ", "@ + paths.last()
    }
}

/// The error when no candidate holds a dump after the helper ran.
pub fn backup_not_found_message(candidates: &Vec<String>) -> (r: String)
    ensures
        r@ == "backup output not found in expected paths: "@ + comma_joined(view_seq(candidates@)),
{
    let ghost cs = view_seq(candidates@);
    let mut joined: Vec<char> = Vec::new();
    let mut i: usize = 0;
    while i < candidates.len()
        invariant
            cs == view_seq(candidates@),
            i <= candidates@.len(),
            joined@ == comma_joined(cs.take(i as int)),
        decreases candidates@.len() - i,
    {
        assert(cs.take(i + 1).drop_last() =~= cs.take(i as int));
        assert(cs.take(i + 1).last() == candidates@[i as int]@);
        if i > 0 {
            extend_str(&mut joined, ", ");
        } else {
            assert(cs.take(1) =~= seq![cs[0]]);
        }
        extend_str(&mut joined, candidates[i].as_str());
        i = i + 1;
    }
    assert(cs.take(candidates@.len() as int) =~= cs);
    let mut out: Vec<char> = Vec::new();
    extend_str(&mut out, "backup output not found in expected paths: ");
    extend(&mut out, joined.as_slice());
    string_of(out.as_slice())
}

} // verus!
