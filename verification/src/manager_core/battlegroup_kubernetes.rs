//! Structured kubectl operations on BattleGroups: which commands run, and what
//! is read back from the JSON they print.
use vstd::prelude::*;
use crate::command::{
    failure_str, is_kube_char, json_reply, kube_arg_message, valid_kube_arg, validate_kube_arg, BattlegroupRef,
    CommandResult, RemoteCommandRunner,
};
use crate::json::{array_at, as_str, as_u64, at, index, items_of, str_chars_at, str_or_empty, u64_at, JsonValue};
use crate::sort::{
    lemma_lex_antisymmetric, lemma_lex_total, lemma_lex_transitive, lex_le, lex_le_exec, sort_by_key, sort_stable,
    view_seq, SortKey,
};
use crate::text::{chars_eq, chars_of, extend, extend_str, matches_at_exec, push_replaced, replace_char, starts_with, string_of};

verus! {

/// One container of one pod.
#[derive(Clone, Debug, PartialEq, Eq)]
pub struct PodContainerRef {
    pub pod: String,
    pub container: String,
    pub role: String,
}

impl View for PodContainerRef {
    type V = (Seq<char>, Seq<char>, Seq<char>);

    open spec fn view(&self) -> (Seq<char>, Seq<char>, Seq<char>) {
        (self.pod@, self.container@, self.role@)
    }
}

impl SortKey for PodContainerRef {
    /// Ordered by pod, then by container.
    open spec fn key_le(a: (Seq<char>, Seq<char>, Seq<char>), b: (Seq<char>, Seq<char>, Seq<char>)) -> bool {
        if a.0 != b.0 {
            lex_le(a.0, b.0)
        } else {
            lex_le(a.1, b.1)
        }
    }

    proof fn lemma_key_total(a: (Seq<char>, Seq<char>, Seq<char>), b: (Seq<char>, Seq<char>, Seq<char>)) {
        lemma_lex_total(a.0, b.0);
        lemma_lex_total(a.1, b.1);
    }

    proof fn lemma_key_transitive(
        a: (Seq<char>, Seq<char>, Seq<char>),
        b: (Seq<char>, Seq<char>, Seq<char>),
        c: (Seq<char>, Seq<char>, Seq<char>),
    ) {
        if a.0 != b.0 && b.0 != c.0 {
            lemma_lex_transitive(a.0, b.0, c.0);
            if a.0 == c.0 {
                lemma_lex_antisymmetric(a.0, b.0);
            }
        } else if a.0 == b.0 && b.0 == c.0 {
            lemma_lex_transitive(a.1, b.1, c.1);
        }
    }

    fn key_le_exec(&self, other: &Self) -> (r: bool) {
        let a = chars_of(self.pod.as_str());
        let b = chars_of(other.pod.as_str());
        if !chars_eq(a.as_slice(), b.as_slice()) {
            lex_le_exec(a.as_slice(), b.as_slice())
        } else {
            let c = chars_of(self.container.as_str());
            let d = chars_of(other.container.as_str());
            lex_le_exec(c.as_slice(), d.as_slice())
        }
    }
}

impl SortKey for BattlegroupRef {
    /// Ordered by namespace.
    open spec fn key_le(a: (Seq<char>, Seq<char>), b: (Seq<char>, Seq<char>)) -> bool {
        lex_le(a.0, b.0)
    }

    proof fn lemma_key_total(a: (Seq<char>, Seq<char>), b: (Seq<char>, Seq<char>)) {
        lemma_lex_total(a.0, b.0);
    }

    proof fn lemma_key_transitive(a: (Seq<char>, Seq<char>), b: (Seq<char>, Seq<char>), c: (Seq<char>, Seq<char>)) {
        lemma_lex_transitive(a.0, b.0, c.0);
    }

    fn key_le_exec(&self, other: &Self) -> (r: bool) {
        let a = chars_of(self.namespace.as_str());
        let b = chars_of(other.namespace.as_str());
        lex_le_exec(a.as_slice(), b.as_slice())
    }
}

/// The command lines that open a shell in a pod, best first.
#[derive(Clone, Debug, PartialEq, Eq)]
pub struct PodShellSpec {
    pub namespace: String,
    pub pod: String,
    pub commands: Vec<Vec<String>>,
}

/// One exported log.
#[derive(Clone, Debug, PartialEq, Eq)]
pub struct LogFile {
    pub relative_path: String,
    pub contents: String,
}

/// The live BattleGroup resource with its pods and Director node port.
#[derive(Debug)]
pub struct BattlegroupStatusSnapshot {
    pub battlegroup: JsonValue,
    pub pods: Vec<PodContainerRef>,
    pub director_node_port: Option<u16>,
}

/// kubectl operations on the BattleGroups of one host.
pub struct StructuredBattlegroupOps<R> {
    runner: R,
}

// ---------------------------------------------------------------------------
// Shell quoting
// ---------------------------------------------------------------------------

/// `value` as one single-quoted shell word.
pub open spec fn sh_quote(value: Seq<char>) -> Seq<char> {
    "'"@ + replace_char(value, '\'', "'\"'\"'"@) + "'"@
}

/// Where a POSIX shell stands while it reads a word: outside quotes, inside
/// single quotes, or inside double quotes.
#[derive(Clone, Copy, Debug, PartialEq, Eq, Structural)]
pub enum ShellQuoting {
    Outside,
    Single,
    Double,
}

/// `c` in front of a read value.
pub open spec fn prepend(c: char, r: Option<Seq<char>>) -> Option<Seq<char>> {
    match r {
        Some(s) => Some(seq![c] + s),
        None => None,
    }
}

/// The value a POSIX shell reads from `w`, a word made only of quoted parts
/// (starting in `mode`): inside single quotes every character stands for
/// itself up to the closing quote; inside double quotes too, except `\`, `$`
/// and a backquote, which this reader refuses. `None` for anything else: an
/// unquoted character or an unterminated quote.
pub open spec fn sh_read(mode: ShellQuoting, w: Seq<char>) -> Option<Seq<char>>
    decreases w.len(),
{
    if w.len() == 0 {
        if mode == ShellQuoting::Outside {
            Some(Seq::empty())
        } else {
            None
        }
    } else {
        let c = w[0];
        let rest = w.drop_first();
        match mode {
            ShellQuoting::Outside => if c == '\'' {
                sh_read(ShellQuoting::Single, rest)
            } else if c == '"' {
                sh_read(ShellQuoting::Double, rest)
            } else {
                None
            },
            ShellQuoting::Single => if c == '\'' {
                sh_read(ShellQuoting::Outside, rest)
            } else {
                prepend(c, sh_read(ShellQuoting::Single, rest))
            },
            ShellQuoting::Double => if c == '"' {
                sh_read(ShellQuoting::Outside, rest)
            } else if c == '\\' || c == '$' || c == '`' {
                None
            } else {
                prepend(c, sh_read(ShellQuoting::Double, rest))
            },
        }
    }
}

proof fn lemma_replace_front(x: char, s: Seq<char>, c: char, rep: Seq<char>)
    ensures
        replace_char(seq![x] + s, c, rep) == (if x == c {
            rep
        } else {
            seq![x]
        }) + replace_char(s, c, rep),
    decreases s.len(),
{
    if s.len() == 0 {
        assert((seq![x] + s).drop_last() =~= Seq::<char>::empty());
        assert(replace_char(Seq::<char>::empty(), c, rep) =~= Seq::<char>::empty());
        assert((if x == c { rep } else { seq![x] }) + Seq::<char>::empty() =~= (if x == c { rep } else { seq![x] }));
    } else {
        lemma_replace_front(x, s.drop_last(), c, rep);
        assert((seq![x] + s).drop_last() =~= seq![x] + s.drop_last());
        assert((seq![x] + s).last() == s.last());
        let piece = if x == c { rep } else { seq![x] };
        let tail = if s.last() == c { rep } else { seq![s.last()] };
        assert(piece + replace_char(s.drop_last(), c, rep) + tail =~= piece + (replace_char(s.drop_last(), c, rep) + tail));
    }
}

proof fn lemma_sh_read_single(v: Seq<char>, t: Seq<char>)
    ensures
        sh_read(ShellQuoting::Single, replace_char(v, '\'', "'\"'\"'"@) + seq!['\''] + t) == match sh_read(
            ShellQuoting::Outside,
            t,
        ) {
            Some(s) => Some(v + s),
            None => None,
        },
    decreases v.len(),
{
    let rep = "'\"'\"'"@;
    if v.len() == 0 {
        assert(replace_char(v, '\'', rep) =~= Seq::<char>::empty());
        let w = replace_char(v, '\'', rep) + seq!['\''] + t;
        assert(w =~= seq!['\''] + t);
        assert(w[0] == '\'');
        assert(w.drop_first() =~= t);
        assert(sh_read(ShellQuoting::Single, w) == sh_read(ShellQuoting::Outside, t));
        match sh_read(ShellQuoting::Outside, t) {
            Some(s) => assert(v + s =~= s),
            None => {},
        }
    } else {
        let x = v[0];
        let v2 = v.drop_first();
        assert(v =~= seq![x] + v2);
        lemma_replace_front(x, v2, '\'', rep);
        lemma_sh_read_single(v2, t);
        let inner = replace_char(v2, '\'', rep) + seq!['\''] + t;
        if x == '\'' {
            reveal_strlit("'\"'\"'");
            let w = rep + inner;
            assert(replace_char(v, '\'', rep) + seq!['\''] + t =~= w);
            let w1 = w.drop_first();
            let w2 = w1.drop_first();
            let w3 = w2.drop_first();
            let w4 = w3.drop_first();
            assert(w[0] == '\'');
            assert(w1[0] == '"');
            assert(w2[0] == '\'');
            assert(w3[0] == '"');
            assert(w4[0] == '\'');
            assert(w4.drop_first() =~= inner);
            assert(sh_read(ShellQuoting::Single, w) == sh_read(ShellQuoting::Outside, w1));
            assert(sh_read(ShellQuoting::Outside, w1) == sh_read(ShellQuoting::Double, w2));
            assert(sh_read(ShellQuoting::Double, w2) == prepend('\'', sh_read(ShellQuoting::Double, w3)));
            assert(sh_read(ShellQuoting::Double, w3) == sh_read(ShellQuoting::Outside, w4));
            assert(sh_read(ShellQuoting::Outside, w4) == sh_read(ShellQuoting::Single, inner));
            match sh_read(ShellQuoting::Outside, t) {
                Some(s) => assert(seq![x] + (v2 + s) =~= v + s),
                None => {},
            }
        } else {
            let w = seq![x] + inner;
            assert(replace_char(v, '\'', rep) + seq!['\''] + t =~= w);
            assert(w[0] == x);
            assert(w.drop_first() =~= inner);
            assert(sh_read(ShellQuoting::Single, w) == prepend(x, sh_read(ShellQuoting::Single, inner)));
            match sh_read(ShellQuoting::Outside, t) {
                Some(s) => assert(seq![x] + (v2 + s) =~= v + s),
                None => {},
            }
        }
    }
}

/// A quoted value is one shell word that the shell reads back as exactly the
/// value, whatever characters it holds.
pub proof fn lemma_sh_quote_reads_back(v: Seq<char>)
    ensures
        sh_read(ShellQuoting::Outside, sh_quote(v)) == Some(v),
{
    let rep = "'\"'\"'"@;
    lemma_sh_read_single(v, Seq::empty());
    let w = sh_quote(v);
    reveal_strlit("'");
    assert(w =~= seq!['\''] + (replace_char(v, '\'', rep) + seq!['\''] + Seq::<char>::empty()));
    assert(w[0] == '\'');
    assert(w.drop_first() =~= replace_char(v, '\'', rep) + seq!['\''] + Seq::<char>::empty());
    assert(sh_read(ShellQuoting::Outside, Seq::<char>::empty()) == Some(Seq::<char>::empty()));
    assert(v + Seq::<char>::empty() =~= v);
}

fn push_sh_quoted(out: &mut Vec<char>, value: &[char])
    ensures
        final(out)@ == old(out)@ + sh_quote(value@),
{
    let rep = chars_of("'\"'\"'");
    extend_str(out, "'");
    push_replaced(out, value, '\'', rep.as_slice());
    extend_str(out, "'");
    assert(out@ =~= old(out)@ + sh_quote(value@));
}

fn push_sh_quoted_str(out: &mut Vec<char>, value: &str)
    ensures
        final(out)@ == old(out)@ + sh_quote(value@),
{
    let v = chars_of(value);
    push_sh_quoted(out, v.as_slice());
}

/// Quotes `value` for a POSIX shell: `'...'`, each `'` written as `'"'"'`.
pub fn sh_single_quoted(value: &str) -> (r: String)
    ensures
        r@ == sh_quote(value@),
{
    let mut out: Vec<char> = Vec::new();
    push_sh_quoted_str(&mut out, value);
    string_of(out.as_slice())
}

/// A shell line that sets variable `name` to `value` through a quoted here-document.
pub open spec fn shell_value_line(name: Seq<char>, value: Seq<char>) -> Seq<char> {
    let delimiter = "__DUNE_MANAGER_"@ + name + "__"@;
    name + "=$(cat <<'"@ + delimiter + "'\n"@ + value + "\n"@ + delimiter + "\n)\n"@
}

fn push_shell_value(out: &mut Vec<char>, name: &str, value: &str)
    ensures
        final(out)@ == old(out)@ + shell_value_line(name@, value@),
{
    let mut delimiter: Vec<char> = Vec::new();
    extend_str(&mut delimiter, "__DUNE_MANAGER_");
    extend_str(&mut delimiter, name);
    extend_str(&mut delimiter, "__");
    extend_str(out, name);
    extend_str(out, "=$(cat <<'");
    extend(out, delimiter.as_slice());
    extend_str(out, "'\n");
    extend_str(out, value);
    extend_str(out, "\n");
    extend(out, delimiter.as_slice());
    extend_str(out, "\n)\n");
    assert(out@ =~= old(out)@ + shell_value_line(name@, value@));
}

/// The shell line that assigns `value` to `name` verbatim.
pub fn shell_value(name: &str, value: &str) -> (r: String)
    ensures
        r@ == shell_value_line(name@, value@),
{
    let mut out: Vec<char> = Vec::new();
    push_shell_value(&mut out, name, value);
    string_of(out.as_slice())
}

// ---------------------------------------------------------------------------
// Regions
// ---------------------------------------------------------------------------

/// The regions a BattleGroup may be moved to.
pub open spec fn valid_region(region: Seq<char>) -> bool {
    region == "Europe Test"@ || region == "North America Test"@
}

/// Accepts only `Europe Test` and `North America Test`.
pub fn validate_region(region: &str) -> (r: CommandResult<()>)
    ensures
        r is Ok <==> valid_region(region@),
        r matches Err(e) ==> e.message@ == "Region must be Europe Test or North America Test"@,
{
    let v = chars_of(region);
    let eu = chars_of("Europe Test");
    let na = chars_of("North America Test");
    if chars_eq(v.as_slice(), eu.as_slice()) || chars_eq(v.as_slice(), na.as_slice()) {
        Ok(())
    } else {
        Err(failure_str("Region must be Europe Test or North America Test"))
    }
}

/// The jq program that rewrites every region setting of a BattleGroup resource:
/// `dataCenter` strings, the `BATTLEGROUP_REGION_NAME` variable and
/// `-FarmRegion=` arguments.
pub const REGION_PATCH_PROGRAM: &'static str = r#"
sudo kubectl get battlegroup "$BG" -n "$NS" -o json |
jq --arg region "$REGION" '
  def patch_region:
    if type == "object" then
      with_entries(
        if .key == "dataCenter" and (.value | type == "string") then
          .value = $region
        else
          .
        end
      )
      | if .name? == "BATTLEGROUP_REGION_NAME" and has("value") then .value = $region else . end
      | with_entries(.value |= patch_region)
    elif type == "array" then
      map(if type == "string" and startswith("-FarmRegion=") then "-FarmRegion=" + $region else patch_region end)
    else
      .
    end;
  patch_region
' |
sudo kubectl replace -f - -o json
"#;

/// The script that moves a BattleGroup to `region`.
pub open spec fn region_patch_script(namespace: Seq<char>, name: Seq<char>, region: Seq<char>) -> Seq<char> {
    "set -euo pipefail\n"@ + shell_value_line("NS"@, namespace) + shell_value_line("BG"@, name)
        + shell_value_line("REGION"@, region) + REGION_PATCH_PROGRAM@
}

// ---------------------------------------------------------------------------
// Reading kubectl JSON
// ---------------------------------------------------------------------------

/// Namespaces of managed BattleGroups start with this prefix.
pub open spec fn battlegroup_namespace_prefix() -> Seq<char> {
    "funcom-seabass-"@
}

/// The namespace and name of a listed BattleGroup, when both are strings.
pub open spec fn battlegroup_entry(item: JsonValue) -> Option<(Seq<char>, Seq<char>)> {
    match (
        as_str(at(item, seq!["metadata"@, "namespace"@])),
        as_str(at(item, seq!["metadata"@, "name"@])),
    ) {
        (Some(ns), Some(name)) => Some((ns, name)),
        _ => None,
    }
}

/// The managed BattleGroups among `items`, in listing order.
pub open spec fn managed_battlegroups(items: Seq<JsonValue>) -> Seq<(Seq<char>, Seq<char>)>
    decreases items.len(),
{
    if items.len() == 0 {
        Seq::empty()
    } else {
        let rest = managed_battlegroups(items.drop_last());
        match battlegroup_entry(items.last()) {
            Some(e) => if starts_with(e.0, battlegroup_namespace_prefix()) {
                rest.push(e)
            } else {
                rest
            },
            None => rest,
        }
    }
}

/// The BattleGroups of a `kubectl get battlegroups -A -o json` document, sorted by namespace.
pub open spec fn battlegroup_list(doc: JsonValue) -> Seq<(Seq<char>, Seq<char>)> {
    sort_by_key::<BattlegroupRef>(managed_battlegroups(items_of(index(doc, "items"@))))
}

/// The managed BattleGroups listed in `doc`, sorted by namespace.
pub fn battlegroup_refs(doc: &JsonValue) -> (r: Vec<BattlegroupRef>)
    ensures
        view_seq(r@) == battlegroup_list(*doc),
{
    let mut listed: Vec<BattlegroupRef> = Vec::new();
    let items_path = ["items"];
    let ns_path = ["metadata", "namespace"];
    let name_path = ["metadata", "name"];
    let prefix = chars_of("funcom-seabass-");
    assert(crate::json::path_view(items_path@) =~= seq!["items"@]);
    proof {
        crate::json::lemma_at_one(*doc, "items"@);
    }
    assert(crate::json::path_view(ns_path@) =~= seq!["metadata"@, "namespace"@]);
    assert(crate::json::path_view(name_path@) =~= seq!["metadata"@, "name"@]);
    match array_at(doc, &items_path) {
        Some(items) => {
            let mut i: usize = 0;
            while i < items.len()
                invariant
                    i <= items@.len(),
                    prefix@ == battlegroup_namespace_prefix(),
                    crate::json::path_view(ns_path@) == seq!["metadata"@, "namespace"@],
                    crate::json::path_view(name_path@) == seq!["metadata"@, "name"@],
                    view_seq(listed@) == managed_battlegroups(items@.take(i as int)),
                decreases items@.len() - i,
            {
                let item = &items[i];
                assert(items@.take(i + 1).drop_last() =~= items@.take(i as int));
                let ns = crate::json::str_at(item, &ns_path);
                let name = crate::json::str_at(item, &name_path);
                match (ns, name) {
                    (Some(ns), Some(name)) => {
                        let nsc = chars_of(ns.as_str());
                        if matches_at_exec(nsc.as_slice(), prefix.as_slice(), 0) {
                            let e = BattlegroupRef { namespace: ns, name };
                            proof {
                                assert(view_seq(listed@.push(e)) =~= view_seq(listed@).push(e@));
                            }
                            listed.push(e);
                        }
                    },
                    _ => {},
                }
                i = i + 1;
            }
            assert(items@.take(items@.len() as int) =~= items@);
        },
        None => {
            assert(view_seq(listed@) =~= Seq::<(Seq<char>, Seq<char>)>::empty());
        },
    }
    sort_stable(listed)
}

/// The containers of one pod, in listing order.
pub open spec fn container_entries(pod: Seq<char>, role: Seq<char>, containers: Seq<JsonValue>) -> Seq<(Seq<char>, Seq<char>, Seq<char>)>
    decreases containers.len(),
{
    if containers.len() == 0 {
        Seq::empty()
    } else {
        let rest = container_entries(pod, role, containers.drop_last());
        let c = str_or_empty(at(containers.last(), seq!["name"@]));
        if c.len() > 0 {
            rest.push((pod, c, role))
        } else {
            rest
        }
    }
}

/// The named containers of the named pods among `items`, in listing order.
pub open spec fn pod_entries(items: Seq<JsonValue>) -> Seq<(Seq<char>, Seq<char>, Seq<char>)>
    decreases items.len(),
{
    if items.len() == 0 {
        Seq::empty()
    } else {
        let rest = pod_entries(items.drop_last());
        let item = items.last();
        let pod = str_or_empty(at(item, seq!["metadata"@, "name"@]));
        if pod.len() == 0 {
            rest
        } else {
            rest + container_entries(
                pod,
                str_or_empty(at(item, seq!["metadata"@, "labels"@, "role"@])),
                items_of(at(item, seq!["spec"@, "containers"@])),
            )
        }
    }
}

/// The pod containers of a `kubectl get pods -o json` document, sorted by pod and container.
pub open spec fn pod_list(doc: JsonValue) -> Seq<(Seq<char>, Seq<char>, Seq<char>)> {
    sort_by_key::<PodContainerRef>(pod_entries(items_of(index(doc, "items"@))))
}

fn push_containers(out: &mut Vec<PodContainerRef>, pod: &[char], role: &[char], item: &JsonValue)
    ensures
        view_seq(final(out)@) == view_seq(old(out)@) + container_entries(
            pod@,
            role@,
            items_of(at(*item, seq!["spec"@, "containers"@])),
        ),
{
    let containers_path = ["spec", "containers"];
    let name_path = ["name"];
    assert(crate::json::path_view(containers_path@) =~= seq!["spec"@, "containers"@]);
    assert(crate::json::path_view(name_path@) =~= seq!["name"@]);
    match array_at(item, &containers_path) {
        Some(containers) => {
            let mut j: usize = 0;
            while j < containers.len()
                invariant
                    j <= containers@.len(),
                    crate::json::path_view(name_path@) == seq!["name"@],
                    view_seq(out@) == view_seq(old(out)@) + container_entries(pod@, role@, containers@.take(j as int)),
                decreases containers@.len() - j,
            {
                assert(containers@.take(j + 1).drop_last() =~= containers@.take(j as int));
                let c = str_chars_at(&containers[j], &name_path);
                if c.len() > 0 {
                    let e = PodContainerRef {
                        pod: string_of(pod),
                        container: string_of(c.as_slice()),
                        role: string_of(role),
                    };
                    proof {
                        assert(view_seq(out@.push(e)) =~= view_seq(out@).push(e@));
                    }
                    out.push(e);
                    assert(view_seq(out@) =~= view_seq(old(out)@) + container_entries(pod@, role@, containers@.take(j + 1)));
                }
                j = j + 1;
            }
            assert(containers@.take(containers@.len() as int) =~= containers@);
        },
        None => {
            assert(view_seq(out@) =~= view_seq(old(out)@) + Seq::<(Seq<char>, Seq<char>, Seq<char>)>::empty());
        },
    }
}

/// The named containers of the named pods in `doc`, sorted by pod and container.
pub fn pod_container_refs(doc: &JsonValue) -> (r: Vec<PodContainerRef>)
    ensures
        view_seq(r@) == pod_list(*doc),
{
    let mut listed: Vec<PodContainerRef> = Vec::new();
    let items_path = ["items"];
    let pod_path = ["metadata", "name"];
    let role_path = ["metadata", "labels", "role"];
    assert(crate::json::path_view(items_path@) =~= seq!["items"@]);
    proof {
        crate::json::lemma_at_one(*doc, "items"@);
    }
    assert(crate::json::path_view(pod_path@) =~= seq!["metadata"@, "name"@]);
    assert(crate::json::path_view(role_path@) =~= seq!["metadata"@, "labels"@, "role"@]);
    match array_at(doc, &items_path) {
        Some(items) => {
            let mut i: usize = 0;
            while i < items.len()
                invariant
                    i <= items@.len(),
                    crate::json::path_view(pod_path@) == seq!["metadata"@, "name"@],
                    crate::json::path_view(role_path@) == seq!["metadata"@, "labels"@, "role"@],
                    view_seq(listed@) == pod_entries(items@.take(i as int)),
                decreases items@.len() - i,
            {
                let item = &items[i];
                assert(items@.take(i + 1).drop_last() =~= items@.take(i as int));
                let pod = str_chars_at(item, &pod_path);
                if pod.len() > 0 {
                    let role = str_chars_at(item, &role_path);
                    push_containers(&mut listed, pod.as_slice(), role.as_slice(), item);
                }
                i = i + 1;
            }
            assert(items@.take(items@.len() as int) =~= items@);
        },
        None => {
            assert(view_seq(listed@) =~= Seq::<(Seq<char>, Seq<char>, Seq<char>)>::empty());
        },
    }
    sort_stable(listed)
}

/// The node port of a port entry, when it is a number that fits in a `u16`.
pub open spec fn node_port_of(port: JsonValue) -> Option<u16> {
    match as_u64(at(port, seq!["nodePort"@])) {
        Some(n) => if n <= 65535 {
            Some(n as u16)
        } else {
            None
        },
        None => None,
    }
}

/// Among `ports`, the node port of the first one that serves port 11717.
pub open spec fn director_port_in(ports: Seq<JsonValue>) -> Option<Option<u16>>
    decreases ports.len(),
{
    if ports.len() == 0 {
        None
    } else if as_u64(at(ports[0], seq!["port"@])) == Some(11717u64) {
        Some(node_port_of(ports[0]))
    } else {
        director_port_in(ports.drop_first())
    }
}

/// Among `services`, the Director port entry of the first service that has one.
pub open spec fn director_port_in_services(services: Seq<JsonValue>) -> Option<Option<u16>>
    decreases services.len(),
{
    if services.len() == 0 {
        None
    } else {
        match director_port_in(items_of(at(services[0], seq!["spec"@, "ports"@]))) {
            Some(found) => Some(found),
            None => director_port_in_services(services.drop_first()),
        }
    }
}

/// The Director node port of a `kubectl get svc -o json` document.
pub open spec fn director_node_port_of(doc: JsonValue) -> Option<u16> {
    match director_port_in_services(items_of(index(doc, "items"@))) {
        Some(found) => found,
        None => None,
    }
}

fn director_port_of_service(service: &JsonValue) -> (r: Option<Option<u16>>)
    ensures
        r == director_port_in(items_of(at(*service, seq!["spec"@, "ports"@]))),
{
    let ports_path = ["spec", "ports"];
    let port_path = ["port"];
    let node_path = ["nodePort"];
    assert(crate::json::path_view(ports_path@) =~= seq!["spec"@, "ports"@]);
    assert(crate::json::path_view(port_path@) =~= seq!["port"@]);
    assert(crate::json::path_view(node_path@) =~= seq!["nodePort"@]);
    match array_at(service, &ports_path) {
        Some(ports) => {
            let mut k: usize = 0;
            assert(ports@.skip(0) =~= ports@);
            while k < ports.len()
                invariant
                    k <= ports@.len(),
                    items_of(at(*service, seq!["spec"@, "ports"@])) == ports@,
                    crate::json::path_view(port_path@) == seq!["port"@],
                    crate::json::path_view(node_path@) == seq!["nodePort"@],
                    director_port_in(ports@) == director_port_in(ports@.skip(k as int)),
                decreases ports@.len() - k,
            {
                assert(ports@.skip(k as int).drop_first() =~= ports@.skip(k + 1));
                assert(ports@.skip(k as int)[0] == ports@[k as int]);
                let is_director = match u64_at(&ports[k], &port_path) {
                    Some(p) => p == 11717,
                    None => false,
                };
                if is_director {
                    let node = match u64_at(&ports[k], &node_path) {
                        Some(n) => if n <= 65535 {
                            Some(n as u16)
                        } else {
                            None
                        },
                        None => None,
                    };
                    return Some(node);
                }
                k = k + 1;
            }
            None
        },
        None => None,
    }
}

/// The Director node port listed in `doc`.
pub fn director_node_port_in(doc: &JsonValue) -> (r: Option<u16>)
    ensures
        r == director_node_port_of(*doc),
{
    let items_path = ["items"];
    assert(crate::json::path_view(items_path@) =~= seq!["items"@]);
    proof {
        crate::json::lemma_at_one(*doc, "items"@);
    }
    match array_at(doc, &items_path) {
        Some(services) => {
            let mut i: usize = 0;
            assert(services@.skip(0) =~= services@);
            while i < services.len()
                invariant
                    i <= services@.len(),
                    items_of(index(*doc, "items"@)) == services@,
                    director_port_in_services(services@) == director_port_in_services(services@.skip(i as int)),
                decreases services@.len() - i,
            {
                assert(services@.skip(i as int).drop_first() =~= services@.skip(i + 1));
                assert(services@.skip(i as int)[0] == services@[i as int]);
                match director_port_of_service(&services[i]) {
                    Some(found) => {
                        return found;
                    },
                    None => {},
                }
                i = i + 1;
            }
            None
        },
        None => None,
    }
}

// ---------------------------------------------------------------------------
// Command lines
// ---------------------------------------------------------------------------

/// `kubectl get` of one BattleGroup resource as JSON.
pub open spec fn battlegroup_get_command(namespace: Seq<char>, name: Seq<char>) -> Seq<char> {
    "sudo kubectl get battlegroup "@ + sh_quote(name) + " -n "@ + sh_quote(namespace) + " -o json"@
}

/// `kubectl get` of the pods of a namespace as JSON.
pub open spec fn pods_command(namespace: Seq<char>) -> Seq<char> {
    "sudo kubectl get pods -n "@ + sh_quote(namespace) + " -o json"@
}

/// `kubectl get` of the services of a namespace as JSON.
pub open spec fn services_command(namespace: Seq<char>) -> Seq<char> {
    "sudo kubectl get svc -n "@ + sh_quote(namespace) + " -o json"@
}

/// The full log of one container, with timestamps.
pub open spec fn logs_command(namespace: Seq<char>, pod: Seq<char>, container: Seq<char>) -> Seq<char> {
    "sudo kubectl logs -n "@ + sh_quote(namespace) + " "@ + sh_quote(pod) + " -c "@ + sh_quote(container)
        + " --timestamps --tail=-1"@
}

/// Where the log of one container is written in an export.
pub open spec fn log_path(pod: Seq<char>, container: Seq<char>) -> Seq<char> {
    pod + "/"@ + container + ".log"@
}

/// The exported log of `container` in `pod`: `<pod>/<container>.log` holding
/// `contents`.
pub fn log_file(pod: &str, container: &str, contents: String) -> (r: LogFile)
    ensures
        r.relative_path@ == log_path(pod@, container@),
        r.contents == contents,
{
    let mut path: Vec<char> = Vec::new();
    extend_str(&mut path, pod);
    extend_str(&mut path, "/");
    extend_str(&mut path, container);
    extend_str(&mut path, ".log");
    assert(path@ =~= log_path(pod@, container@));
    LogFile { relative_path: string_of(path.as_slice()), contents }
}

/// One way to open a shell in `pod`.
pub open spec fn shell_command(namespace: Seq<char>, pod: Seq<char>, shell: Seq<char>) -> Seq<Seq<char>> {
    seq!["sudo"@, "kubectl"@, "exec"@, "-it"@, pod, "-n"@, namespace, "--"@, shell]
}

fn namespaced_command(head: &str, namespace: &str, tail: &str) -> (r: String)
    ensures
        r@ == head@ + sh_quote(namespace@) + tail@,
{
    let mut out: Vec<char> = Vec::new();
    extend_str(&mut out, head);
    push_sh_quoted_str(&mut out, namespace);
    extend_str(&mut out, tail);
    assert(out@ =~= head@ + sh_quote(namespace@) + tail@);
    string_of(out.as_slice())
}

/// `kubectl get` of one BattleGroup resource as JSON, names quoted.
pub fn battlegroup_status_command(namespace: &str, name: &str) -> (r: String)
    ensures
        r@ == battlegroup_get_command(namespace@, name@),
{
    let mut cmd: Vec<char> = Vec::new();
    extend_str(&mut cmd, "sudo kubectl get battlegroup ");
    push_sh_quoted_str(&mut cmd, name);
    extend_str(&mut cmd, " -n ");
    push_sh_quoted_str(&mut cmd, namespace);
    extend_str(&mut cmd, " -o json");
    assert(cmd@ =~= battlegroup_get_command(namespace@, name@));
    string_of(cmd.as_slice())
}

/// `kubectl get` of the pods of `namespace` as JSON.
pub fn pods_list_command(namespace: &str) -> (r: String)
    ensures
        r@ == pods_command(namespace@),
{
    namespaced_command("sudo kubectl get pods -n ", namespace, " -o json")
}

/// `kubectl get` of the services of `namespace` as JSON.
pub fn services_list_command(namespace: &str) -> (r: String)
    ensures
        r@ == services_command(namespace@),
{
    namespaced_command("sudo kubectl get svc -n ", namespace, " -o json")
}

/// The full log of one container, with timestamps; every name quoted.
pub fn container_logs_command(namespace: &str, pod: &str, container: &str) -> (r: String)
    ensures
        r@ == logs_command(namespace@, pod@, container@),
{
    let mut cmd: Vec<char> = Vec::new();
    extend_str(&mut cmd, "sudo kubectl logs -n ");
    push_sh_quoted_str(&mut cmd, namespace);
    extend_str(&mut cmd, " ");
    push_sh_quoted_str(&mut cmd, pod);
    extend_str(&mut cmd, " -c ");
    push_sh_quoted_str(&mut cmd, container);
    extend_str(&mut cmd, " --timestamps --tail=-1");
    assert(cmd@ =~= logs_command(namespace@, pod@, container@));
    string_of(cmd.as_slice())
}

fn shell_words(namespace: &str, pod: &str, shell: &str) -> (r: Vec<String>)
    ensures
        r@.map_values(|w: String| w@) == shell_command(namespace@, pod@, shell@),
{
    let r = vec![
        "sudo".to_owned(),
        "kubectl".to_owned(),
        "exec".to_owned(),
        "-it".to_owned(),
        pod.to_owned(),
        "-n".to_owned(),
        namespace.to_owned(),
        "--".to_owned(),
        shell.to_owned(),
    ];
    assert(r@.map_values(|w: String| w@) =~= shell_command(namespace@, pod@, shell@));
    r
}

impl<R> StructuredBattlegroupOps<R> {
    /// The runner the operations go through.
    pub closed spec fn held_runner(self) -> R {
        self.runner
    }
}

impl<R: RemoteCommandRunner> StructuredBattlegroupOps<R> {
    pub fn new(runner: R) -> (r: Self)
        ensures
            r.held_runner() == runner,
    {
        Self { runner }
    }

    /// The managed BattleGroups of the cluster (namespace starting with
    /// `funcom-seabass-`), sorted by namespace.
    pub fn list(&self) -> (r: CommandResult<Vec<BattlegroupRef>>)
        ensures
            r matches Ok(refs) ==> exists|doc: JsonValue| view_seq(refs@) == battlegroup_list(doc),
            r matches Ok(refs) ==> exists|doc: JsonValue| #[trigger] json_reply(
                &self.held_runner(),
                "sudo kubectl get battlegroups -A -o json"@,
                "battlegroup list"@,
                doc,
            ) && view_seq(refs@) == battlegroup_list(doc),
    {
        match self.runner.run_json("sudo kubectl get battlegroups -A -o json", "battlegroup list") {
            Ok(doc) => {
                assert(json_reply(&self.held_runner(), "sudo kubectl get battlegroups -A -o json"@, "battlegroup list"@, doc));
                let refs = battlegroup_refs(&doc);
                Ok(refs)
            },
            Err(e) => Err(e),
        }
    }

    /// The live resource, pods and Director node port of a BattleGroup.
    pub fn status(&self, battlegroup: &BattlegroupRef) -> (r: CommandResult<BattlegroupStatusSnapshot>)
        ensures
            !valid_kube_arg(battlegroup.namespace@) || !valid_kube_arg(battlegroup.name@) ==> r is Err,
            r matches Ok(s) ==> valid_kube_arg(battlegroup.namespace@) && valid_kube_arg(battlegroup.name@)
                && (exists|doc: JsonValue| view_seq(s.pods@) == pod_list(doc))
                && (exists|doc: JsonValue| s.director_node_port == director_node_port_of(doc))
                && pods_listed_by(&self.held_runner(), battlegroup.namespace@, view_seq(s.pods@))
                && director_port_served_by(&self.held_runner(), battlegroup.namespace@, s.director_node_port)
                && json_reply(
                    &self.held_runner(),
                    battlegroup_get_command(battlegroup.namespace@, battlegroup.name@),
                    "battlegroup status"@,
                    s.battlegroup,
                ),
    {
        match battlegroup.validate() {
            Err(e) => return Err(e),
            Ok(()) => {},
        }
        let command = battlegroup_status_command(battlegroup.namespace.as_str(), battlegroup.name.as_str());
        let battlegroup_json = match self.runner.run_json(command.as_str(), "battlegroup status") {
            Ok(v) => v,
            Err(e) => return Err(e),
        };
        let pods = match self.list_pods(battlegroup.namespace.as_str()) {
            Ok(p) => p,
            Err(e) => return Err(e),
        };
        let director_node_port = match self.director_node_port(battlegroup.namespace.as_str()) {
            Ok(p) => p,
            Err(e) => return Err(e),
        };
        Ok(BattlegroupStatusSnapshot { battlegroup: battlegroup_json, pods, director_node_port })
    }

    /// Moves a BattleGroup to `region` with a structured jq rewrite of its
    /// resource, and checks that kubectl returned that BattleGroup.
    pub fn patch_region(&self, battlegroup: &BattlegroupRef, region: &str) -> (r: CommandResult<()>)
        ensures
            !valid_kube_arg(battlegroup.namespace@) || !valid_kube_arg(battlegroup.name@) || !valid_region(region@)
                ==> r is Err,
            valid_kube_arg(battlegroup.namespace@) && valid_kube_arg(battlegroup.name@) && !valid_region(region@)
                ==> (r matches Err(e) && e.message@ == "Region must be Europe Test or North America Test"@),
            r is Ok ==> exists|doc: JsonValue| str_or_empty(at(doc, seq!["metadata"@, "name"@])) == battlegroup.name@,
            r is Ok ==> region_patch_confirmed(
                &self.held_runner(),
                battlegroup.namespace@,
                battlegroup.name@,
                region@,
            ),
    {
        match battlegroup.validate() {
            Err(e) => return Err(e),
            Ok(()) => {},
        }
        match validate_region(region) {
            Err(e) => return Err(e),
            Ok(()) => {},
        }
        let mut script: Vec<char> = Vec::new();
        extend_str(&mut script, "set -euo pipefail\n");
        push_shell_value(&mut script, "NS", battlegroup.namespace.as_str());
        push_shell_value(&mut script, "BG", battlegroup.name.as_str());
        push_shell_value(&mut script, "REGION", region);
        extend_str(&mut script, REGION_PATCH_PROGRAM);
        assert(script@ =~= region_patch_script(battlegroup.namespace@, battlegroup.name@, region@));
        let script = string_of(script.as_slice());
        let output = match self.runner.run_script(script.as_str()) {
            Ok(o) => o,
            Err(e) => return Err(e),
        };
        let ghost printed = output;
        let value = match self.runner.parse_json(output.as_str(), "patched battlegroup") {
            Ok(v) => v,
            Err(e) => return Err(e),
        };
        assert(self.runner.script_answer(script@, Ok(printed)));
        let name_path = ["metadata", "name"];
        assert(crate::json::path_view(name_path@) =~= seq!["metadata"@, "name"@]);
        let patched = str_chars_at(&value, &name_path);
        let expected = chars_of(battlegroup.name.as_str());
        if !chars_eq(patched.as_slice(), expected.as_slice()) {
            return Err(failure_str("Region patch did not return the expected battlegroup"));
        }
        Ok(())
    }

    /// The containers of the pods in `namespace`, sorted by pod and container.
    pub fn list_pods(&self, namespace: &str) -> (r: CommandResult<Vec<PodContainerRef>>)
        ensures
            !valid_kube_arg(namespace@) ==> (r matches Err(e) && e.message@ == kube_arg_message("namespace"@)),
            r matches Ok(pods) ==> valid_kube_arg(namespace@) && (exists|doc: JsonValue|
                view_seq(pods@) == pod_list(doc)) && pods_listed_by(&self.held_runner(), namespace@, view_seq(pods@)),
    {
        match validate_kube_arg(namespace, "namespace") {
            Err(e) => return Err(e),
            Ok(()) => {},
        }
        let command = pods_list_command(namespace);
        let answer = self.runner.run_json(command.as_str(), "pod list");
        match answer {
            Ok(doc) => {
                assert(json_reply(&self.runner, pods_command(namespace@), "pod list"@, doc));
                let pods = pod_container_refs(&doc);
                Ok(pods)
            },
            Err(e) => Err(e),
        }
    }

    /// The command lines that open an interactive shell in `pod`: bash, then sh.
    pub fn pod_shell_spec(&self, namespace: &str, pod: &str) -> (r: CommandResult<PodShellSpec>)
        ensures
            r is Ok <==> valid_kube_arg(namespace@) && valid_kube_arg(pod@),
            r matches Err(e) ==> e.message@ == (if !valid_kube_arg(namespace@) {
                kube_arg_message("namespace"@)
            } else {
                kube_arg_message("pod"@)
            }),
            r matches Ok(spec) ==> spec.namespace@ == namespace@ && spec.pod@ == pod@
                && spec.commands@.len() == 2
                && spec.commands@[0]@.map_values(|w: String| w@) == shell_command(namespace@, pod@, "/bin/bash"@)
                && spec.commands@[1]@.map_values(|w: String| w@) == shell_command(namespace@, pod@, "/bin/sh"@),
    {
        match validate_kube_arg(namespace, "namespace") {
            Err(e) => return Err(e),
            Ok(()) => {},
        }
        match validate_kube_arg(pod, "pod") {
            Err(e) => return Err(e),
            Ok(()) => {},
        }
        let bash = shell_words(namespace, pod, "/bin/bash");
        let sh = shell_words(namespace, pod, "/bin/sh");
        Ok(PodShellSpec { namespace: namespace.to_owned(), pod: pod.to_owned(), commands: vec![bash, sh] })
    }

    /// The logs of every container of every pod in `namespace`.
    pub fn export_namespace_logs(&self, namespace: &str) -> (r: CommandResult<Vec<LogFile>>)
        ensures
            namespace_export(&self.held_runner(), namespace@, r),
    {
        let pods = match self.list_pods(namespace) {
            Ok(p) => p,
            Err(e) => return Err(e),
        };
        let r = self.collect_logs(namespace, pods.as_slice());
        proof {
            if r is Ok {
                lemma_exported_views(r->Ok_0@, pods@);
            }
        }
        r
    }

    /// The logs of every container of the operator pods: the export of the
    /// namespace `funcom-operators`.
    pub fn export_operator_logs(&self) -> (r: CommandResult<Vec<LogFile>>)
        ensures
            namespace_export(&self.held_runner(), "funcom-operators"@, r),
    {
        self.export_namespace_logs("funcom-operators")
    }

    /// The node port of the service that serves the Director (port 11717).
    pub fn director_node_port(&self, namespace: &str) -> (r: CommandResult<Option<u16>>)
        ensures
            !valid_kube_arg(namespace@) ==> (r matches Err(e) && e.message@ == kube_arg_message("namespace"@)),
            r matches Ok(port) ==> valid_kube_arg(namespace@) && (exists|doc: JsonValue|
                port == director_node_port_of(doc)) && director_port_served_by(&self.held_runner(), namespace@, port),
    {
        match validate_kube_arg(namespace, "namespace") {
            Err(e) => return Err(e),
            Ok(()) => {},
        }
        let command = services_list_command(namespace);
        let answer = self.runner.run_json(command.as_str(), "service list");
        match answer {
            Ok(doc) => {
                assert(json_reply(&self.runner, services_command(namespace@), "service list"@, doc));
                let port = director_node_port_in(&doc);
                Ok(port)
            },
            Err(e) => Err(e),
        }
    }

    /// Reads the log of each listed container, one file per container.
    pub fn collect_logs(&self, namespace: &str, pods: &[PodContainerRef]) -> (r: CommandResult<Vec<LogFile>>)
        ensures
            pods@.len() == 0 ==> (r matches Ok(files) && files@.len() == 0),
            r matches Ok(files) ==> files@.len() == pods@.len() && forall|i: int| 0 <= i < pods@.len() ==> {
                &&& valid_kube_arg(#[trigger] pods@[i].pod@)
                &&& valid_kube_arg(pods@[i].container@)
                &&& files@[i].relative_path@ == log_path(pods@[i].pod@, pods@[i].container@)
                &&& self.held_runner().command_answer(
                    logs_command(namespace@, pods@[i].pod@, pods@[i].container@),
                    Ok(files@[i].contents),
                )
            },
    {
        let mut files: Vec<LogFile> = Vec::new();
        let mut i: usize = 0;
        while i < pods.len()
            invariant
                i <= pods@.len(),
                files@.len() == i,
                forall|k: int| 0 <= k < i ==> {
                    &&& valid_kube_arg(#[trigger] pods@[k].pod@)
                    &&& valid_kube_arg(pods@[k].container@)
                    &&& files@[k].relative_path@ == log_path(pods@[k].pod@, pods@[k].container@)
                    &&& self.held_runner().command_answer(
                        logs_command(namespace@, pods@[k].pod@, pods@[k].container@),
                        Ok(files@[k].contents),
                    )
                },
            decreases pods@.len() - i,
        {
            let item = &pods[i];
            match validate_kube_arg(item.pod.as_str(), "pod") {
                Err(e) => return Err(e),
                Ok(()) => {},
            }
            match validate_kube_arg(item.container.as_str(), "container") {
                Err(e) => return Err(e),
                Ok(()) => {},
            }
            let command = container_logs_command(namespace, item.pod.as_str(), item.container.as_str());
            let contents = match self.runner.run(command.as_str()) {
                Ok(c) => c,
                Err(e) => return Err(e),
            };
            files.push(log_file(item.pod.as_str(), item.container.as_str(), contents));
            i = i + 1;
        }
        Ok(files)
    }
}

/// `runner` answered the region rewrite of BattleGroup `name` in `namespace`
/// to `region` with a document, as it decoded it, that names that BattleGroup.
pub open spec fn region_patch_confirmed<R: RemoteCommandRunner>(
    runner: &R,
    namespace: Seq<char>,
    name: Seq<char>,
    region: Seq<char>,
) -> bool {
    exists|output: String, doc: JsonValue| {
        &&& #[trigger] runner.script_answer(region_patch_script(namespace, name, region), Ok(output))
        &&& #[trigger] runner.json_decoding(output@, "patched battlegroup"@, Ok(doc))
        &&& str_or_empty(at(doc, seq!["metadata"@, "name"@])) == name
    }
}

/// What an export of the logs of `namespace` through `runner` gives: a
/// refusal of a namespace that is not a plain Kubernetes name, else, on
/// success, one log per container of the pod listing that `runner` answered
/// for `namespace`, in its order, each holding what `runner` answered to the
/// log command of that container.
pub open spec fn namespace_export<R: RemoteCommandRunner>(runner: &R, namespace: Seq<char>, r: CommandResult<Vec<LogFile>>) -> bool {
    &&& !valid_kube_arg(namespace) ==> (r matches Err(e) && e.message@ == kube_arg_message("namespace"@))
    &&& r matches Ok(files) ==> valid_kube_arg(namespace) && exported_from_a_listing(files@) && exported_by(
        runner,
        namespace,
        files@,
    )
}

/// `pods` are the containers named by `runner`'s answer to the pod listing of `namespace`.
pub open spec fn pods_listed_by<R: RemoteCommandRunner>(runner: &R, namespace: Seq<char>, pods: Seq<(Seq<char>, Seq<char>, Seq<char>)>) -> bool {
    exists|doc: JsonValue| #[trigger] json_reply(runner, pods_command(namespace), "pod list"@, doc) && pods == pod_list(doc)
}

/// `port` is the Director node port named by `runner`'s answer to the service
/// listing of `namespace`.
pub open spec fn director_port_served_by<R: RemoteCommandRunner>(runner: &R, namespace: Seq<char>, port: Option<u16>) -> bool {
    exists|doc: JsonValue| #[trigger] json_reply(runner, services_command(namespace), "service list"@, doc)
        && port == director_node_port_of(doc)
}

/// Each of `files` holds what `runner` answered to the log command of the
/// container of `pods` at the same place.
pub open spec fn logs_answered_by<R: RemoteCommandRunner>(
    runner: &R,
    namespace: Seq<char>,
    files: Seq<LogFile>,
    pods: Seq<(Seq<char>, Seq<char>, Seq<char>)>,
) -> bool {
    forall|i: int| #![trigger files[i]] 0 <= i < pods.len() ==> runner.command_answer(
        logs_command(namespace, pods[i].0, pods[i].1),
        Ok(files[i].contents),
    )
}

/// `files` are the logs of the pod listing that `runner` answered for
/// `namespace`: one per container, in order, each holding `runner`'s answer to
/// that container's log command.
pub open spec fn exported_by<R: RemoteCommandRunner>(runner: &R, namespace: Seq<char>, files: Seq<LogFile>) -> bool {
    exists|doc: JsonValue| #[trigger] json_reply(runner, pods_command(namespace), "pod list"@, doc)
        && exported_from(files, pod_list(doc)) && logs_answered_by(runner, namespace, files, pod_list(doc))
}

/// The operator namespace is a plain Kubernetes name, so the export of the
/// operator logs is never refused and is the export of that namespace.
pub proof fn lemma_operator_namespace_is_exportable()
    ensures
        valid_kube_arg("funcom-operators"@),
{
    reveal_strlit("funcom-operators");
    let s = "funcom-operators"@;
    assert forall|i: int| 0 <= i < s.len() implies is_kube_char(#[trigger] s[i]) by {
        assert(i == 0 || i == 1 || i == 2 || i == 3 || i == 4 || i == 5 || i == 6 || i == 7 || i == 8 || i == 9
            || i == 10 || i == 11 || i == 12 || i == 13 || i == 14 || i == 15);
    }
}

/// `files` holds the logs of the containers of some pod listing.
pub open spec fn exported_from_a_listing(files: Seq<LogFile>) -> bool {
    exists|doc: JsonValue| #[trigger] exported_from(files, pod_list(doc))
}

/// `files` holds one log per entry of `pods`, in the same order.
pub open spec fn exported_from(files: Seq<LogFile>, pods: Seq<(Seq<char>, Seq<char>, Seq<char>)>) -> bool {
    &&& files.len() == pods.len()
    &&& forall|i: int| 0 <= i < pods.len() ==> #[trigger] files[i].relative_path@ == log_path(pods[i].0, pods[i].1)
}

proof fn lemma_exported_views(files: Seq<LogFile>, pods: Seq<PodContainerRef>)
    requires
        files.len() == pods.len(),
        forall|i: int| 0 <= i < pods.len() ==> files[i].relative_path@ == log_path(#[trigger] pods[i].pod@, pods[i].container@),
    ensures
        exported_from(files, view_seq(pods)),
{
    assert forall|i: int| 0 <= i < pods.len() implies #[trigger] files[i].relative_path@ == log_path(view_seq(pods)[i].0, view_seq(pods)[i].1) by {
        assert(view_seq(pods)[i] == pods[i]@);
    }
}

/// `doc` is the only document `runner` gives for the JSON command `command`
/// printed by `label`.
pub open spec fn sole_reply<R: RemoteCommandRunner>(runner: &R, command: Seq<char>, label: Seq<char>, doc: JsonValue) -> bool {
    &&& json_reply(runner, command, label, doc)
    &&& forall|d: JsonValue| #[trigger] json_reply(runner, command, label, d) ==> d == doc
}

/// The pods that a status read or a pod listing of `namespace` reports are
/// the containers named by the pod listing the runner gave for `namespace`:
/// when it gives one document, they are that document's containers, and two
/// reads report the same pods.
pub proof fn lemma_reported_pods_are_the_listed_ones<R: RemoteCommandRunner>(
    runner: &R,
    namespace: Seq<char>,
    doc: JsonValue,
    pods: Seq<(Seq<char>, Seq<char>, Seq<char>)>,
    again: Seq<(Seq<char>, Seq<char>, Seq<char>)>,
)
    requires
        sole_reply(runner, pods_command(namespace), "pod list"@, doc),
        pods_listed_by(runner, namespace, pods),
        pods_listed_by(runner, namespace, again),
    ensures
        pods == pod_list(doc),
        pods == again,
{
}

/// The Director node port that a status read or a port lookup of
/// `namespace` reports is the one named by the service listing the runner
/// gave for `namespace`: when it gives one document, that document's port.
pub proof fn lemma_reported_port_is_the_served_one<R: RemoteCommandRunner>(
    runner: &R,
    namespace: Seq<char>,
    doc: JsonValue,
    port: Option<u16>,
)
    requires
        sole_reply(runner, services_command(namespace), "service list"@, doc),
        director_port_served_by(runner, namespace, port),
    ensures
        port == director_node_port_of(doc),
{
}

/// Each exported log holds what the runner answered to the log command of
/// its own container: when the runner gives one text for the log of the
/// container at `i` and one for that at `j`, the files there hold those
/// texts, and containers with different logs get different files.
pub proof fn lemma_each_log_is_its_own_container_answer<R: RemoteCommandRunner>(
    runner: &R,
    namespace: Seq<char>,
    files: Seq<LogFile>,
    pods: Seq<(Seq<char>, Seq<char>, Seq<char>)>,
    i: int,
    j: int,
    text_i: String,
    text_j: String,
)
    requires
        logs_answered_by(runner, namespace, files, pods),
        0 <= i < pods.len(),
        0 <= j < pods.len(),
        forall|t: String| #[trigger] runner.command_answer(logs_command(namespace, pods[i].0, pods[i].1), Ok(t)) ==> t
            == text_i,
        forall|t: String| #[trigger] runner.command_answer(logs_command(namespace, pods[j].0, pods[j].1), Ok(t)) ==> t
            == text_j,
    ensures
        files[i].contents == text_i,
        files[j].contents == text_j,
        text_i != text_j ==> files[i].contents != files[j].contents,
{
    assert(runner.command_answer(logs_command(namespace, pods[i].0, pods[i].1), Ok(files[i].contents)));
    assert(runner.command_answer(logs_command(namespace, pods[j].0, pods[j].1), Ok(files[j].contents)));
}

} // verus!
