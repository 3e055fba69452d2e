//! The JSON value tree that every view borrows from.

use vstd::prelude::*;

verus! {

/// An immutable, already-parsed JSON tree.
///
/// The tree is owned by the caller and never mutated by this layer.
/// A number is kept as the decimal text the parser saw, since this
/// layer never does arithmetic on it; a mapping keeps its entries in
/// the order in which they were stored.
#[derive(Debug, PartialEq, Eq)]
pub enum JsonValue {
    Null,
    Bool(bool),
    Number(String),
    String(String),
    Sequence(Vec<JsonValue>),
    Mapping(Vec<(String, JsonValue)>),
}

/// The value stored under `key`, going by the first entry whose key
/// matches; `None` when no entry matches.
pub open spec fn lookup(entries: Seq<(String, JsonValue)>, key: Seq<char>) -> Option<JsonValue>
    decreases entries.len(),
{
    if entries.len() == 0 {
        None
    } else if entries[0].0@ == key {
        Some(entries[0].1)
    } else {
        lookup(entries.skip(1), key)
    }
}

proof fn lemma_lookup_past_mismatches(entries: Seq<(String, JsonValue)>, key: Seq<char>, i: int)
    requires
        0 <= i <= entries.len(),
        forall|j: int| 0 <= j < i ==> entries[j].0@ != key,
    ensures
        lookup(entries, key) == lookup(entries.skip(i), key),
    decreases i,
{
    if i == 0 {
        assert(entries.skip(0) =~= entries);
    } else {
        lemma_lookup_past_mismatches(entries, key, i - 1);
        assert(entries.skip(i - 1)[0] == entries[i - 1]);
        assert(entries.skip(i - 1).skip(1) =~= entries.skip(i));
    }
}

/// Character-by-character string equality, so that key lookup needs
/// nothing beyond what is proved here.
pub fn str_eq(a: &str, b: &str) -> (r: bool)
    ensures
        r == (a@ == b@),
{
    let an = a.unicode_len();
    let bn = b.unicode_len();
    if an != bn {
        return false;
    }
    let mut i: usize = 0;
    while i < an
        invariant
            an == a@.len(),
            an == b@.len(),
            0 <= i <= an,
            forall|j: int| 0 <= j < i ==> a@[j] == b@[j],
        decreases an - i,
    {
        if a.get_char(i) != b.get_char(i) {
            return false;
        }
        i += 1;
    }
    proof {
        assert(a@ =~= b@);
    }
    true
}

/// The value stored under `key` in `entries`, or `None`; the first
/// matching entry wins, as `lookup` says.
pub fn mapping_get<'a>(entries: &'a Vec<(String, JsonValue)>, key: &str) -> (r: Option<
    &'a JsonValue,
>)
    ensures
        match r {
            Some(v) => lookup(entries@, key@) == Some(*v),
            None => lookup(entries@, key@) is None,
        },
{
    let n = entries.len();
    let mut i: usize = 0;
    while i < n
        invariant
            n == entries@.len(),
            0 <= i <= n,
            forall|j: int| 0 <= j < i ==> entries@[j].0@ != key@,
        decreases n - i,
    {
        if str_eq(entries[i].0.as_str(), key) {
            proof {
                lemma_lookup_past_mismatches(entries@, key@, i as int);
                assert(entries@.skip(i as int)[0] == entries@[i as int]);
            }
            return Some(&entries[i].1);
        }
        i += 1;
    }
    proof {
        lemma_lookup_past_mismatches(entries@, key@, n as int);
        assert(entries@.skip(n as int).len() == 0);
    }
    None
}

} // verus!
