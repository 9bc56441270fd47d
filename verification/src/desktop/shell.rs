//! Quoting for PowerShell command lines.
use vstd::prelude::*;
use crate::manager_core::battlegroup_kubernetes::prepend;
use crate::text::{chars_of, extend_str, push_replaced, replace_char, string_of};

verus! {

/// The arguments of a PowerShell run of `script` without the user's profile.
pub open spec fn profileless_script_args(script: Seq<char>) -> Seq<Seq<char>> {
    seq!["-NoProfile"@, "-ExecutionPolicy"@, "Bypass"@, "-Command"@, script]
}

/// The arguments that run `script` in PowerShell without the user's profile.
pub fn powershell_script_args(script: &str) -> (r: Vec<String>)
    ensures
        r@.map_values(|a: String| a@) == profileless_script_args(script@),
{
    let args = vec![
        "-NoProfile".to_owned(),
        "-ExecutionPolicy".to_owned(),
        "Bypass".to_owned(),
        "-Command".to_owned(),
        script.to_owned(),
    ];
    assert(args@.map_values(|a: String| a@) =~= profileless_script_args(script@));
    args
}

/// `value` as one single-quoted PowerShell string literal.
pub open spec fn ps_quote(value: Seq<char>) -> Seq<char> {
    "'"@ + replace_char(value, '\'', "''"@) + "'"@
}

/// Quotes `value` for PowerShell: `'...'`, each `'` doubled.
pub fn ps_single_quoted(value: &str) -> (r: String)
    ensures
        r@ == ps_quote(value@),
{
    let v = chars_of(value);
    let rep = chars_of("''");
    let mut out: Vec<char> = Vec::new();
    extend_str(&mut out, "'");
    push_replaced(&mut out, v.as_slice(), '\'', rep.as_slice());
    extend_str(&mut out, "'");
    assert(out@ =~= ps_quote(value@));
    string_of(out.as_slice())
}


/// The characters PowerShell takes for a single quote: the ASCII one and the
/// typographic ones (U+2018 to U+201B).
pub open spec fn is_ps_quote_char(c: char) -> bool {
    c == '\'' || c == '\u{2018}' || c == '\u{2019}' || c == '\u{201A}' || c == '\u{201B}'
}

/// The value PowerShell reads from `w`, one single-quoted string literal
/// (`inside` once the opening quote was read): inside, two quote characters
/// stand for one, a lone quote character ends the literal, every other
/// character stands for itself. `None` for anything else.
pub open spec fn ps_read(inside: bool, w: Seq<char>) -> Option<Seq<char>>
    decreases w.len(),
{
    if w.len() == 0 {
        if inside {
            None
        } else {
            Some(Seq::empty())
        }
    } else {
        let c = w[0];
        let rest = w.drop_first();
        if !inside {
            if is_ps_quote_char(c) {
                ps_read(true, rest)
            } else {
                None
            }
        } else if is_ps_quote_char(c) {
            if rest.len() > 0 && is_ps_quote_char(rest[0]) {
                prepend(c, ps_read(true, rest.drop_first()))
            } else {
                ps_read(false, rest)
            }
        } else {
            prepend(c, ps_read(true, rest))
        }
    }
}

proof fn lemma_replace_front_ps(x: char, s: Seq<char>)
    ensures
        replace_char(seq![x] + s, '\'', "''"@) == (if x == '\'' {
            "''"@
        } else {
            seq![x]
        }) + replace_char(s, '\'', "''"@),
    decreases s.len(),
{
    if s.len() == 0 {
        assert((seq![x] + s).drop_last() =~= Seq::<char>::empty());
        assert(replace_char(Seq::<char>::empty(), '\'', "''"@) =~= Seq::<char>::empty());
        let piece = if x == '\'' { "''"@ } else { seq![x] };
        assert(piece + Seq::<char>::empty() =~= piece);
    } else {
        lemma_replace_front_ps(x, s.drop_last());
        assert((seq![x] + s).drop_last() =~= seq![x] + s.drop_last());
        assert((seq![x] + s).last() == s.last());
        let piece = if x == '\'' { "''"@ } else { seq![x] };
        let tail = if s.last() == '\'' { "''"@ } else { seq![s.last()] };
        assert(piece + replace_char(s.drop_last(), '\'', "''"@) + tail =~= piece + (replace_char(
            s.drop_last(),
            '\'',
            "''"@,
        ) + tail));
    }
}

proof fn lemma_ps_read_inside(v: Seq<char>)
    requires
        forall|i: int| 0 <= i < v.len() ==> v[i] == '\'' || !is_ps_quote_char(#[trigger] v[i]),
    ensures
        ps_read(true, replace_char(v, '\'', "''"@) + seq!['\'']) == Some(v),
    decreases v.len(),
{
    reveal_strlit("''");
    if v.len() == 0 {
        assert(replace_char(v, '\'', "''"@) =~= Seq::<char>::empty());
        let w = replace_char(v, '\'', "''"@) + seq!['\''];
        assert(w =~= seq!['\'']);
        assert(w.drop_first() =~= Seq::<char>::empty());
        assert(ps_read(true, w) == ps_read(false, w.drop_first()));
        assert(v =~= Seq::<char>::empty());
    } else {
        let x = v[0];
        let v2 = v.drop_first();
        assert(v =~= seq![x] + v2);
        assert forall|i: int| 0 <= i < v2.len() implies v2[i] == '\'' || !is_ps_quote_char(#[trigger] v2[i]) by {
            assert(v2[i] == v[i + 1]);
        }
        lemma_replace_front_ps(x, v2);
        lemma_ps_read_inside(v2);
        let inner = replace_char(v2, '\'', "''"@) + seq!['\''];
        if x == '\'' {
            let w = "''"@ + inner;
            assert(replace_char(v, '\'', "''"@) + seq!['\''] =~= w);
            assert(w[0] == '\'');
            assert(w.drop_first()[0] == '\'');
            assert(w.drop_first().drop_first() =~= inner);
            assert(ps_read(true, w) == prepend('\'', ps_read(true, inner)));
        } else {
            let w = seq![x] + inner;
            assert(replace_char(v, '\'', "''"@) + seq!['\''] =~= w);
            assert(w[0] == x);
            assert(w.drop_first() =~= inner);
            assert(!is_ps_quote_char(x));
            assert(ps_read(true, w) == prepend(x, ps_read(true, inner)));
        }
        assert(seq![x] + v2 =~= v);
    }
}

/// PowerShell reads a quoted value back as exactly the value, as long as the
/// value holds no typographic single quote (U+2018 to U+201B): PowerShell
/// ends a literal at those too, and only the ASCII quote is doubled.
pub proof fn lemma_ps_quote_reads_back(v: Seq<char>)
    requires
        forall|i: int| 0 <= i < v.len() ==> v[i] == '\'' || !is_ps_quote_char(#[trigger] v[i]),
    ensures
        ps_read(false, ps_quote(v)) == Some(v),
{
    reveal_strlit("'");
    lemma_ps_read_inside(v);
    let w = ps_quote(v);
    assert(w =~= seq!['\''] + (replace_char(v, '\'', "''"@) + seq!['\'']));
    assert(w[0] == '\'');
    assert(w.drop_first() =~= replace_char(v, '\'', "''"@) + seq!['\'']);
}

} // verus!
