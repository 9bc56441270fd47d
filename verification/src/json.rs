//! The JSON documents that `kubectl -o json` prints, held as plain values.
//!
//! Text is turned into a [`JsonValue`] outside the library; the library only
//! reads documents. Reads follow `serde_json`'s indexing rules: looking up a key
//! that is absent, or looking up a key in anything but an object, gives `Null`.
use vstd::prelude::*;
use crate::text::chars_of;

verus! {

/// What a JSON number offers to the code that reads it.
#[derive(Clone, Debug, PartialEq, Eq)]
pub struct JsonNumber {
    /// The number as an unsigned integer, when it is one.
    pub as_u64: Option<u64>,
    /// The number as a signed 64-bit integer, when it is one.
    pub as_i64: Option<i64>,
}

/// A JSON document.
#[derive(Debug)]
pub enum JsonValue {
    Null,
    Bool(bool),
    Number(JsonNumber),
    String(String),
    Array(Vec<JsonValue>),
    /// The members of an object; no key occurs twice.
    Object(Vec<(String, JsonValue)>),
}

/// The value stored under `key` among `members` (the first such member).
pub open spec fn lookup(members: Seq<(String, JsonValue)>, key: Seq<char>) -> Option<JsonValue>
    decreases members.len(),
{
    if members.len() == 0 {
        None
    } else if members[0].0@ == key {
        Some(members[0].1)
    } else {
        lookup(members.drop_first(), key)
    }
}

/// `v[key]`: the member `key` of an object, `Null` when there is none.
pub open spec fn index(v: JsonValue, key: Seq<char>) -> JsonValue {
    match v {
        JsonValue::Object(members) => match lookup(members@, key) {
            Some(x) => x,
            None => JsonValue::Null,
        },
        _ => JsonValue::Null,
    }
}

/// `v[path[0]][path[1]]...`.
pub open spec fn at(v: JsonValue, path: Seq<Seq<char>>) -> JsonValue
    decreases path.len(),
{
    if path.len() == 0 {
        v
    } else {
        at(index(v, path[0]), path.drop_first())
    }
}

/// `v.as_str()`.
pub open spec fn as_str(v: JsonValue) -> Option<Seq<char>> {
    match v {
        JsonValue::String(s) => Some(s@),
        _ => None,
    }
}

/// `v.as_u64()`.
pub open spec fn as_u64(v: JsonValue) -> Option<u64> {
    match v {
        JsonValue::Number(n) => n.as_u64,
        _ => None,
    }
}

/// `v.as_bool()`.
pub open spec fn as_bool(v: JsonValue) -> Option<bool> {
    match v {
        JsonValue::Bool(b) => Some(b),
        _ => None,
    }
}

/// `v.as_array()`.
pub open spec fn as_array(v: JsonValue) -> Option<Seq<JsonValue>> {
    match v {
        JsonValue::Array(items) => Some(items@),
        _ => None,
    }
}

/// `v.as_array().cloned().unwrap_or_default()`.
pub open spec fn items_of(v: JsonValue) -> Seq<JsonValue> {
    match as_array(v) {
        Some(items) => items,
        None => Seq::empty(),
    }
}

/// `v.as_str().unwrap_or_default()`.
pub open spec fn str_or_empty(v: JsonValue) -> Seq<char> {
    match as_str(v) {
        Some(s) => s,
        None => Seq::empty(),
    }
}

/// The characters of each path segment.
pub open spec fn path_view(path: Seq<&str>) -> Seq<Seq<char>> {
    path.map_values(|p: &str| p@)
}

/// The member `key` of `v`, or `None` where `v[key]` is `Null` because it is absent.
pub fn get<'a>(v: &'a JsonValue, key: &str) -> (r: Option<&'a JsonValue>)
    ensures
        match r {
            Some(x) => *x == index(*v, key@),
            None => index(*v, key@) == JsonValue::Null,
        },
{
    match v {
        JsonValue::Object(members) => {
            let k = key.to_owned();
            let mut i: usize = 0;
            assert(members@.skip(0) =~= members@);
            while i < members.len()
                invariant
                    *v == JsonValue::Object(*members),
                    k@ == key@,
                    i <= members@.len(),
                    lookup(members@, key@) == lookup(members@.skip(i as int), key@),
                decreases members@.len() - i,
            {
                assert(members@.skip(i as int).drop_first() =~= members@.skip(i + 1));
                assert(members@.skip(i as int)[0] == members@[i as int]);
                if members[i].0 == k {
                    return Some(&members[i].1);
                }
                i = i + 1;
            }
            None
        },
        _ => None,
    }
}

/// The value at `path` below `v`, or `None` where that value is `Null` because a member is absent.
pub fn get_path<'a>(v: &'a JsonValue, path: &[&str]) -> (r: Option<&'a JsonValue>)
    ensures
        match r {
            Some(x) => *x == at(*v, path_view(path@)),
            None => at(*v, path_view(path@)) == JsonValue::Null,
        },
{
    let mut cur: &JsonValue = v;
    let mut i: usize = 0;
    assert(path_view(path@).skip(0) =~= path_view(path@));
    while i < path.len()
        invariant
            i <= path@.len(),
            at(*v, path_view(path@)) == at(*cur, path_view(path@).skip(i as int)),
        decreases path@.len() - i,
    {
        assert(path_view(path@).skip(i as int).drop_first() =~= path_view(path@).skip(i + 1));
        assert(path_view(path@).skip(i as int)[0] == path@[i as int]@);
        match get(cur, path[i]) {
            Some(next) => {
                cur = next;
            },
            None => {
                proof {
                    lemma_at_null(path_view(path@).skip(i + 1));
                }
                return None;
            },
        }
        i = i + 1;
    }
    assert(path_view(path@).skip(i as int) =~= Seq::<Seq<char>>::empty());
    Some(cur)
}

/// A one-step path is one lookup.
pub proof fn lemma_at_one(v: JsonValue, k: Seq<char>)
    ensures
        at(v, seq![k]) == index(v, k),
{
    let e = seq![k].drop_first();
    assert(e =~= Seq::<Seq<char>>::empty());
    assert(seq![k][0] == k);
    assert(at(index(v, k), e) == index(v, k));
}

/// Below `Null` every path leads to `Null`.
pub proof fn lemma_at_null(path: Seq<Seq<char>>)
    ensures
        at(JsonValue::Null, path) == JsonValue::Null,
    decreases path.len(),
{
    if path.len() > 0 {
        lemma_at_null(path.drop_first());
    }
}

/// `v[path...].as_str()`, copied.
pub fn str_at(v: &JsonValue, path: &[&str]) -> (r: Option<String>)
    ensures
        match r {
            Some(s) => as_str(at(*v, path_view(path@))) == Some(s@),
            None => as_str(at(*v, path_view(path@))) is None,
        },
{
    match get_path(v, path) {
        Some(JsonValue::String(s)) => Some(s.clone()),
        _ => None,
    }
}

/// `v[path...].as_str().unwrap_or_default()`, as characters.
pub fn str_chars_at(v: &JsonValue, path: &[&str]) -> (r: Vec<char>)
    ensures
        r@ == str_or_empty(at(*v, path_view(path@))),
{
    match get_path(v, path) {
        Some(JsonValue::String(s)) => chars_of(s.as_str()),
        _ => Vec::new(),
    }
}

/// `v[path...].as_u64()`.
pub fn u64_at(v: &JsonValue, path: &[&str]) -> (r: Option<u64>)
    ensures
        r == as_u64(at(*v, path_view(path@))),
{
    match get_path(v, path) {
        Some(JsonValue::Number(n)) => n.as_u64,
        _ => None,
    }
}

/// `v[path...].as_bool()`.
pub fn bool_at(v: &JsonValue, path: &[&str]) -> (r: Option<bool>)
    ensures
        r == as_bool(at(*v, path_view(path@))),
{
    match get_path(v, path) {
        Some(JsonValue::Bool(b)) => Some(*b),
        _ => None,
    }
}

/// `v[path...].as_array()`, the items borrowed.
pub fn array_at<'a>(v: &'a JsonValue, path: &[&str]) -> (r: Option<&'a Vec<JsonValue>>)
    ensures
        match r {
            Some(items) => as_array(at(*v, path_view(path@))) == Some(items@),
            None => as_array(at(*v, path_view(path@))) is None,
        },
{
    match get_path(v, path) {
        Some(JsonValue::Array(items)) => Some(items),
        _ => None,
    }
}

} // verus!
