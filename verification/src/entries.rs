use crate::keys::{
    ascending, key_compare, key_lt, lemma_key_lt_irreflexive, lemma_key_lt_transitive, KeyOrder,
};
use vstd::prelude::*;

verus! {

/// The keys of a list of entries, in the order of the entries.
pub open spec fn keys_of<T>(s: Seq<(String, T)>) -> Seq<Seq<char>> {
    Seq::new(s.len(), |i: int| s[i].0@)
}

/// Whether some entry has the key `k`.
pub open spec fn has_key<T>(s: Seq<(String, T)>, k: Seq<char>) -> bool {
    exists|i: int| 0 <= i < s.len() && (#[trigger] s[i]).0@ == k
}

/// The position of an entry with the key `k`, where there is one.
pub open spec fn index_of<T>(s: Seq<(String, T)>, k: Seq<char>) -> int {
    choose|i: int| 0 <= i < s.len() && (#[trigger] s[i]).0@ == k
}

/// Whether entry `d` is the last one with the key `k`.
pub open spec fn is_last<T>(s: Seq<(String, T)>, d: int, k: Seq<char>) -> bool {
    &&& 0 <= d < s.len()
    &&& s[d].0@ == k
    &&& forall|later: int| d < later < s.len() ==> (#[trigger] s[later]).0@ != k
}

/// Whether `entry` holds what the last entry of `source` with its key holds.
pub open spec fn came_from<T>(source: Seq<(String, T)>, entry: (String, T)) -> bool {
    exists|d: int| is_last(source, d, entry.0@) && entry.1 == (#[trigger] source[d]).1
}

/// In a list with ascending keys, the entry with a given key stands at one position only.
pub proof fn lemma_ascending_unique<T>(s: Seq<(String, T)>, i: int, j: int)
    requires
        ascending(keys_of(s)),
        0 <= i < s.len(),
        0 <= j < s.len(),
        s[i].0@ == s[j].0@,
    ensures
        i == j,
{
    let ks = keys_of(s);
    assert(ks[i] == s[i].0@ && ks[j] == s[j].0@);
    lemma_key_lt_irreflexive(s[i].0@);
    if i < j {
        assert(key_lt(ks[i], ks[j]));
    } else if j < i {
        assert(key_lt(ks[j], ks[i]));
    }
}

/// Among entries of which one has the key `k`, one is the last that has it.
pub proof fn lemma_has_last<T>(s: Seq<(String, T)>, k: Seq<char>)
    requires
        has_key(s, k),
    ensures
        exists|d: int| is_last(s, d, k),
{
    let w = choose|i: int| 0 <= i < s.len() && (#[trigger] s[i]).0@ == k;
    lemma_last_from(s, k, w);
}

/// Behind an entry with the key `k` stands the last entry that has it, or it is the last.
proof fn lemma_last_from<T>(s: Seq<(String, T)>, k: Seq<char>, w: int)
    requires
        0 <= w < s.len(),
        s[w].0@ == k,
    ensures
        exists|d: int| is_last(s, d, k),
    decreases s.len() - w,
{
    if exists|later: int| w < later < s.len() && (#[trigger] s[later]).0@ == k {
        let later = choose|later: int| w < later < s.len() && (#[trigger] s[later]).0@ == k;
        lemma_last_from(s, k, later);
    } else {
        assert(is_last(s, w, k));
    }
}

/// Whether entry `d` is the first one with the key `k`.
pub open spec fn is_first<T>(s: Seq<(String, T)>, d: int, k: Seq<char>) -> bool {
    &&& 0 <= d < s.len()
    &&& s[d].0@ == k
    &&& forall|earlier: int| 0 <= earlier < d ==> (#[trigger] s[earlier]).0@ != k
}

/// Looks for the first entry with the key `key`.
pub fn find_key<T>(v: &Vec<(String, T)>, key: &str) -> (r: Option<usize>)
    ensures
        match r {
            Some(i) => is_first(v@, i as int, key@),
            None => !has_key(v@, key@),
        },
{
    let mut i: usize = 0;
    while i < v.len()
        invariant
            i <= v.len(),
            forall|j: int| 0 <= j < i ==> (#[trigger] v@[j]).0@ != key@,
        decreases v.len() - i,
    {
        if key_compare(v[i].0.as_str(), key) == KeyOrder::Same {
            return Some(i);
        }
        i += 1;
    }
    None
}

/// Putting a key between the smaller keys and the greater ones keeps the keys ascending.
proof fn lemma_insert_keeps_ascending<T>(before: Seq<(String, T)>, i: int, entry: (String, T))
    requires
        ascending(keys_of(before)),
        0 <= i <= before.len(),
        forall|j: int| 0 <= j < i ==> key_lt((#[trigger] before[j]).0@, entry.0@),
        i < before.len() ==> key_lt(entry.0@, before[i].0@),
    ensures
        ascending(keys_of(before.insert(i, entry))),
        !has_key(before, entry.0@),
{
    let key = entry.0@;
    let ks = keys_of(before);
    let after = before.insert(i, entry);
    assert forall|j: int| i <= j < before.len() implies key_lt(key, (#[trigger] before[j]).0@) by {
        if j > i {
            assert(key_lt(ks[i], ks[j]));
            lemma_key_lt_transitive(key, before[i].0@, before[j].0@);
        }
    }
    lemma_key_lt_irreflexive(key);
    assert forall|a: int, b: int| 0 <= a < b < after.len() implies key_lt(
        keys_of(after)[a],
        keys_of(after)[b],
    ) by {
        if b < i {
            assert(key_lt(ks[a], ks[b]));
        } else if b == i {
            assert(after[a] == before[a]);
        } else if a < i {
            assert(key_lt(ks[a], ks[b - 1]));
            assert(after[a] == before[a]);
        } else if a == i {
            assert(after[b] == before[b - 1]);
        } else {
            assert(key_lt(ks[a - 1], ks[b - 1]));
        }
    }
}

/// Looks for the last entry with the key `key`.
pub fn find_last_key<T>(v: &Vec<(String, T)>, key: &str) -> (r: Option<usize>)
    ensures
        match r {
            Some(i) => is_last(v@, i as int, key@),
            None => !has_key(v@, key@),
        },
{
    let mut i: usize = v.len();
    while i > 0
        invariant
            i <= v.len(),
            forall|j: int| i <= j < v.len() ==> (#[trigger] v@[j]).0@ != key@,
        decreases i,
    {
        i -= 1;
        if key_compare(v[i].0.as_str(), key) == KeyOrder::Same {
            return Some(i);
        }
    }
    None
}

/// Puts an entry into a list with ascending keys, at the place its key asks for. An
/// entry that already has this key is replaced. Returns the position of the new entry
/// and whether it replaced another.
pub fn insert_entry<T>(v: &mut Vec<(String, T)>, key: String, value: T) -> (r: (usize, bool))
    requires
        ascending(keys_of(old(v)@)),
    ensures
        ascending(keys_of(final(v)@)),
        r.0 <= old(v).len(),
        r.1 ==> r.0 < old(v).len() && old(v)@[r.0 as int].0@ == key@ && final(v)@ == old(
            v,
        )@.update(r.0 as int, (key, value)),
        !r.1 ==> !has_key(old(v)@, key@) && final(v)@ == old(v)@.insert(r.0 as int, (key, value)),
{
    let ghost before = v@;
    let mut i: usize = 0;
    while i < v.len()
        invariant
            v@ == before,
            before == old(v)@,
            i <= v.len(),
            ascending(keys_of(before)),
            forall|j: int| 0 <= j < i ==> key_lt((#[trigger] before[j]).0@, key@),
        decreases v.len() - i,
    {
        match key_compare(v[i].0.as_str(), key.as_str()) {
            KeyOrder::Before => {},
            KeyOrder::Same => {
                v.set(i, (key, value));
                proof {
                    let after = v@;
                    assert forall|a: int, b: int| 0 <= a < b < after.len() implies key_lt(
                        keys_of(after)[a],
                        keys_of(after)[b],
                    ) by {
                        assert(keys_of(before)[a] == before[a].0@);
                        assert(keys_of(before)[b] == before[b].0@);
                        assert(key_lt(keys_of(before)[a], keys_of(before)[b]));
                    }
                }
                return (i, true);
            },
            KeyOrder::After => {
                proof {
                    lemma_insert_keeps_ascending(before, i as int, (key, value));
                }
                v.insert(i, (key, value));
                return (i, false);
            },
        }
        i += 1;
    }
    proof {
        lemma_insert_keeps_ascending(before, i as int, (key, value));
    }
    v.insert(i, (key, value));
    (i, false)
}

} // verus!
