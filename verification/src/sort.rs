//! Stable sorting by a key, and lexicographic order on text.
use vstd::prelude::*;

verus! {

/// `a <= b` in the order of `str::cmp`: lexicographic by character (UTF-8
/// byte order and code point order agree).
pub open spec fn lex_le(a: Seq<char>, b: Seq<char>) -> bool
    decreases a.len(),
{
    if a.len() == 0 {
        true
    } else if b.len() == 0 {
        false
    } else if a[0] != b[0] {
        a[0] < b[0]
    } else {
        lex_le(a.drop_first(), b.drop_first())
    }
}

/// Compares two character sequences as `str::cmp` does.
pub fn lex_le_exec(a: &[char], b: &[char]) -> (r: bool)
    ensures
        r == lex_le(a@, b@),
{
    let mut i: usize = 0;
    assert(a@.skip(0) =~= a@);
    assert(b@.skip(0) =~= b@);
    while i < a.len() && i < b.len() && a[i] == b[i]
        invariant
            i <= a@.len(),
            i <= b@.len(),
            lex_le(a@, b@) == lex_le(a@.skip(i as int), b@.skip(i as int)),
        decreases a@.len() - i,
    {
        assert(a@.skip(i as int).drop_first() =~= a@.skip(i + 1));
        assert(b@.skip(i as int).drop_first() =~= b@.skip(i + 1));
        i = i + 1;
    }
    if i == a.len() {
        true
    } else if i == b.len() {
        false
    } else {
        assert(a@.skip(i as int)[0] == a@[i as int]);
        assert(b@.skip(i as int)[0] == b@[i as int]);
        a[i] < b[i]
    }
}

/// Any two sequences are ordered one way or the other.
pub proof fn lemma_lex_total(a: Seq<char>, b: Seq<char>)
    ensures
        lex_le(a, b) || lex_le(b, a),
    decreases a.len(),
{
    if a.len() > 0 && b.len() > 0 && a[0] == b[0] {
        lemma_lex_total(a.drop_first(), b.drop_first());
    }
}

/// `lex_le` is transitive.
pub proof fn lemma_lex_transitive(a: Seq<char>, b: Seq<char>, c: Seq<char>)
    requires
        lex_le(a, b),
        lex_le(b, c),
    ensures
        lex_le(a, c),
    decreases a.len(),
{
    if a.len() > 0 && a[0] == b[0] && b[0] == c[0] {
        lemma_lex_transitive(a.drop_first(), b.drop_first(), c.drop_first());
    }
}

/// Sequences ordered both ways are equal.
pub proof fn lemma_lex_antisymmetric(a: Seq<char>, b: Seq<char>)
    requires
        lex_le(a, b),
        lex_le(b, a),
    ensures
        a == b,
    decreases a.len(),
{
    if a.len() > 0 {
        assert(b.len() > 0);
        assert(a[0] == b[0]);
        lemma_lex_antisymmetric(a.drop_first(), b.drop_first());
        assert(a.len() == b.len());
        assert(a =~= b) by {
            assert forall|i: int| 0 <= i < a.len() implies a[i] == b[i] by {
                if i > 0 {
                    assert(a[i] == a.drop_first()[i - 1]);
                    assert(b[i] == b.drop_first()[i - 1]);
                }
            }
        }
    } else {
        assert(b.len() == 0);
        assert(a =~= b);
    }
}

/// A type whose values are sorted by a key read from their view; the key
/// order is total and transitive.
pub trait SortKey: View + Sized {
    /// The key of `a` is at most the key of `b`.
    spec fn key_le(a: Self::V, b: Self::V) -> bool;

    proof fn lemma_key_total(a: Self::V, b: Self::V)
        ensures
            Self::key_le(a, b) || Self::key_le(b, a),
    ;

    proof fn lemma_key_transitive(a: Self::V, b: Self::V, c: Self::V)
        requires
            Self::key_le(a, b),
            Self::key_le(b, c),
        ensures
            Self::key_le(a, c),
    ;

    fn key_le_exec(&self, other: &Self) -> (r: bool)
        ensures
            r == Self::key_le(self@, other@),
    ;
}

/// `sorted` with `x` placed after every element whose key is at most `x`'s,
/// scanning from the end: one step of a stable insertion sort.
pub open spec fn insert_by_key<T: SortKey>(sorted: Seq<T::V>, x: T::V) -> Seq<T::V>
    decreases sorted.len(),
{
    if sorted.len() == 0 {
        seq![x]
    } else if T::key_le(sorted.last(), x) {
        sorted.push(x)
    } else {
        insert_by_key::<T>(sorted.drop_last(), x).push(sorted.last())
    }
}

/// What a stable sort by key (`slice::sort_by`) produces.
pub open spec fn sort_by_key<T: SortKey>(s: Seq<T::V>) -> Seq<T::V>
    decreases s.len(),
{
    if s.len() == 0 {
        Seq::empty()
    } else {
        insert_by_key::<T>(sort_by_key::<T>(s.drop_last()), s.last())
    }
}

/// Every element's key is at most every later element's key.
pub open spec fn sorted_by_key<T: SortKey>(s: Seq<T::V>) -> bool {
    forall|i: int, j: int| 0 <= i < j < s.len() ==> T::key_le(#[trigger] s[i], #[trigger] s[j])
}

/// Inserting below a bound keeps every element below it.
proof fn lemma_insert_bounded<T: SortKey>(s: Seq<T::V>, x: T::V, b: T::V)
    requires
        forall|i: int| 0 <= i < s.len() ==> T::key_le(#[trigger] s[i], b),
        T::key_le(x, b),
    ensures
        forall|k: int| 0 <= k < insert_by_key::<T>(s, x).len() ==> T::key_le(#[trigger] insert_by_key::<T>(s, x)[k], b),
    decreases s.len(),
{
    if s.len() > 0 && !T::key_le(s.last(), x) {
        let inner = insert_by_key::<T>(s.drop_last(), x);
        lemma_insert_bounded::<T>(s.drop_last(), x, b);
        assert forall|k: int| 0 <= k < inner.push(s.last()).len() implies T::key_le(#[trigger] inner.push(s.last())[k], b) by {
            if k < inner.len() {
                assert(inner.push(s.last())[k] == inner[k]);
            }
        }
    }
}

/// One insertion step keeps a sorted sequence sorted and adds exactly `x`.
proof fn lemma_insert_sorted<T: SortKey>(s: Seq<T::V>, x: T::V)
    requires
        sorted_by_key::<T>(s),
    ensures
        sorted_by_key::<T>(insert_by_key::<T>(s, x)),
        insert_by_key::<T>(s, x).to_multiset() == s.to_multiset().insert(x),
    decreases s.len(),
{
    broadcast use vstd::seq_lib::group_to_multiset_ensures;
    if s.len() == 0 {
        assert(seq![x] =~= Seq::<T::V>::empty().push(x));
    } else if T::key_le(s.last(), x) {
        let r = s.push(x);
        assert forall|i: int, j: int| 0 <= i < j < r.len() implies T::key_le(#[trigger] r[i], #[trigger] r[j]) by {
            if j == s.len() {
                if i < s.len() - 1 {
                    T::lemma_key_transitive(s[i], s.last(), x);
                }
            } else {
                assert(r[i] == s[i] && r[j] == s[j]);
            }
        }
    } else {
        let d = s.drop_last();
        let inner = insert_by_key::<T>(d, x);
        let r = inner.push(s.last());
        assert(sorted_by_key::<T>(d)) by {
            assert forall|i: int, j: int| 0 <= i < j < d.len() implies T::key_le(#[trigger] d[i], #[trigger] d[j]) by {
                assert(d[i] == s[i] && d[j] == s[j]);
            }
        }
        lemma_insert_sorted::<T>(d, x);
        T::lemma_key_total(s.last(), x);
        assert forall|i: int| 0 <= i < d.len() implies T::key_le(#[trigger] d[i], s.last()) by {
            assert(d[i] == s[i]);
            assert(s.last() == s[s.len() - 1]);
        }
        lemma_insert_bounded::<T>(d, x, s.last());
        assert forall|i: int, j: int| 0 <= i < j < r.len() implies T::key_le(#[trigger] r[i], #[trigger] r[j]) by {
            assert(r[i] == inner[i]);
            if j < inner.len() {
                assert(r[j] == inner[j]);
            }
        }
        assert(s =~= d.push(s.last()));
        assert(r.to_multiset() =~= s.to_multiset().insert(x));
    }
}

/// A stable sort by key yields the same elements, in key order.
pub proof fn lemma_sort_by_key_sorted<T: SortKey>(s: Seq<T::V>)
    ensures
        sorted_by_key::<T>(sort_by_key::<T>(s)),
        sort_by_key::<T>(s).to_multiset() == s.to_multiset(),
    decreases s.len(),
{
    broadcast use vstd::seq_lib::group_to_multiset_ensures;
    if s.len() == 0 {
        assert(s.to_multiset() =~= vstd::multiset::Multiset::empty());
        assert(sort_by_key::<T>(s).to_multiset() =~= vstd::multiset::Multiset::empty());
    } else {
        lemma_sort_by_key_sorted::<T>(s.drop_last());
        lemma_insert_sorted::<T>(sort_by_key::<T>(s.drop_last()), s.last());
        assert(s =~= s.drop_last().push(s.last()));
    }
}

/// The views of a list of values.
pub open spec fn view_seq<T: View>(s: Seq<T>) -> Seq<T::V> {
    s.map_values(|x: T| x@)
}

proof fn lemma_view_seq_push<T: View>(s: Seq<T>, x: T)
    ensures
        view_seq(s.push(x)) == view_seq(s).push(x@),
{
    assert(view_seq(s.push(x)) =~= view_seq(s).push(x@));
}

proof fn lemma_view_seq_drop_last<T: View>(s: Seq<T>)
    requires
        s.len() > 0,
    ensures
        view_seq(s.drop_last()) == view_seq(s).drop_last(),
        view_seq(s).last() == s.last()@,
{
    assert(view_seq(s.drop_last()) =~= view_seq(s).drop_last());
}

fn insert_sorted<T: SortKey>(sorted: Vec<T>, x: T) -> (r: Vec<T>)
    ensures
        view_seq(r@) == insert_by_key::<T>(view_seq(sorted@), x@),
    decreases sorted@.len(),
{
    let mut sorted = sorted;
    if sorted.len() == 0 {
        let mut r: Vec<T> = Vec::new();
        proof {
            lemma_view_seq_push(r@, x);
        }
        r.push(x);
        assert(view_seq(r@) =~= seq![x@]);
        return r;
    }
    let ghost before = sorted@;
    let last = sorted.pop().unwrap();
    proof {
        lemma_view_seq_drop_last(before);
    }
    if last.key_le_exec(&x) {
        proof {
            lemma_view_seq_push(sorted@, last);
            lemma_view_seq_push(sorted@.push(last), x);
            assert(sorted@.push(last) =~= before);
        }
        sorted.push(last);
        sorted.push(x);
        sorted
    } else {
        let mut r = insert_sorted(sorted, x);
        proof {
            lemma_view_seq_push(r@, last);
        }
        r.push(last);
        r
    }
}

/// Sorts `v` stably by key.
pub fn sort_stable<T: SortKey>(v: Vec<T>) -> (r: Vec<T>)
    ensures
        view_seq(r@) == sort_by_key::<T>(view_seq(v@)),
{
    let mut v = v;
    let mut rev: Vec<T> = Vec::new();
    // Take the elements off the end, then insert them front to back.
    let ghost orig = v@;
    while v.len() > 0
        invariant
            v@ + rev@.reverse() == orig,
        decreases v@.len(),
    {
        let ghost before_v = v@;
        let ghost before_rev = rev@;
        let x = v.pop().unwrap();
        rev.push(x);
        assert(v@ + rev@.reverse() =~= orig) by {
            assert(rev@.reverse() =~= seq![x] + before_rev.reverse());
            assert(before_v =~= v@.push(x));
        }
    }
    assert(rev@.reverse() =~= orig);
    let mut out: Vec<T> = Vec::new();
    let mut done: Ghost<int> = Ghost(0);
    while rev.len() > 0
        invariant
            0 <= done@ <= orig.len(),
            rev@.reverse() == orig.skip(done@),
            view_seq(out@) == sort_by_key::<T>(view_seq(orig.take(done@))),
        decreases rev@.len(),
    {
        let ghost before_rev = rev@;
        let x = rev.pop().unwrap();
        proof {
            assert(before_rev.reverse() =~= seq![x] + rev@.reverse());
            assert(orig.skip(done@)[0] == x);
            assert(orig.take(done@ + 1) =~= orig.take(done@).push(x));
            lemma_view_seq_push(orig.take(done@), x);
            assert(view_seq(orig.take(done@ + 1)).drop_last() =~= view_seq(orig.take(done@)));
            assert(orig.skip(done@).drop_first() =~= orig.skip(done@ + 1));
            assert((seq![x] + rev@.reverse()).drop_first() =~= rev@.reverse());
            assert(rev@.reverse() =~= orig.skip(done@ + 1));
        }
        out = insert_sorted(out, x);
        proof {
            done@ = done@ + 1;
        }
    }
    proof {
        assert(orig.skip(done@).len() == 0);
        assert(orig.take(done@) =~= orig);
    }
    out
}

} // verus!
