use vstd::prelude::*;
use vstd::std_specs::iter::IteratorSpec;
use vstd::string::*;

verus! {

/// How two keys stand to each other in the order of keys.
#[derive(Clone, Copy, Debug, PartialEq, Eq, Structural)]
pub enum KeyOrder {
    Before,
    Same,
    After,
}

/// `a` and `b` agree on their first `k` characters, and at position `k` either `a` has
/// ended while `b` goes on, or `a` holds the smaller code point.
pub open spec fn lt_at(a: Seq<char>, b: Seq<char>, k: int) -> bool {
    &&& 0 <= k <= a.len()
    &&& k < b.len()
    &&& forall|i: int| 0 <= i < k ==> a[i] == b[i]
    &&& (k < a.len() ==> (a[k] as int) < (b[k] as int))
}

/// The strict order of keys: lexicographic, character by character, by code point.
pub open spec fn key_lt(a: Seq<char>, b: Seq<char>) -> bool {
    exists|k: int| lt_at(a, b, k)
}

/// Keys in strictly ascending order, so that none occurs twice.
pub open spec fn ascending(keys: Seq<Seq<char>>) -> bool {
    forall|i: int, j: int| 0 <= i < j < keys.len() ==> key_lt(keys[i], keys[j])
}

/// No key comes before itself.
pub proof fn lemma_key_lt_irreflexive(a: Seq<char>)
    ensures
        !key_lt(a, a),
{
    assert forall|k: int| !lt_at(a, a, k) by {}
}

/// The order of keys is transitive.
pub proof fn lemma_key_lt_transitive(a: Seq<char>, b: Seq<char>, c: Seq<char>)
    requires
        key_lt(a, b),
        key_lt(b, c),
    ensures
        key_lt(a, c),
{
    let k1 = choose|k: int| lt_at(a, b, k);
    let k2 = choose|k: int| lt_at(b, c, k);
    let k = if k1 < k2 { k1 } else { k2 };
    assert(lt_at(a, c, k));
}

/// Of two keys at most one comes before the other.
pub proof fn lemma_key_lt_asymmetric(a: Seq<char>, b: Seq<char>)
    requires
        key_lt(a, b),
    ensures
        !key_lt(b, a),
{
    if key_lt(b, a) {
        lemma_key_lt_transitive(a, b, a);
        lemma_key_lt_irreflexive(a);
    }
}

/// Two keys that agree up to `k`, where at least one of them ends, are ordered by length.
proof fn lemma_prefix_order(a: Seq<char>, b: Seq<char>, k: int)
    requires
        0 <= k <= a.len(),
        k <= b.len(),
        k == a.len() || k == b.len(),
        forall|i: int| 0 <= i < k ==> a[i] == b[i],
    ensures
        a.len() < b.len() ==> key_lt(a, b),
        a.len() == b.len() ==> a == b,
        a.len() > b.len() ==> key_lt(b, a),
{
    if a.len() < b.len() {
        assert(lt_at(a, b, k));
    } else if a.len() == b.len() {
        assert(a =~= b);
    } else {
        assert(lt_at(b, a, k));
    }
}

/// The code point of a character.
fn code_point(c: char) -> (n: u32)
    ensures
        n as int == c as int,
{
    c as u32
}

/// Compares two keys, in one pass over their characters.
pub fn key_compare(a: &str, b: &str) -> (r: KeyOrder)
    ensures
        r == KeyOrder::Before <==> key_lt(a@, b@),
        r == KeyOrder::Same <==> a@ == b@,
        r == KeyOrder::After <==> key_lt(b@, a@),
{
    broadcast use {axiom_spec_iter, next_postcondition};

    let mut left = a.chars();
    let mut right = b.chars();
    let ghost mut k: int = 0;
    loop
        invariant
            0 <= k <= a@.len(),
            k <= b@.len(),
            left.remaining() == a@.subrange(k, a@.len() as int),
            right.remaining() == b@.subrange(k, b@.len() as int),
            forall|i: int| 0 <= i < k ==> a@[i] == b@[i],
        decreases a@.len() - k,
    {
        let x = left.next();
        let y = right.next();
        match (x, y) {
            (Some(x), Some(y)) => {
                assert(x == a@[k] && y == b@[k]);
                let xn = code_point(x);
                let yn = code_point(y);
                if xn < yn {
                    proof {
                        assert(lt_at(a@, b@, k));
                        lemma_key_lt_asymmetric(a@, b@);
                        lemma_key_lt_irreflexive(a@);
                    }
                    return KeyOrder::Before;
                }
                if yn < xn {
                    proof {
                        assert(lt_at(b@, a@, k));
                        lemma_key_lt_asymmetric(b@, a@);
                        lemma_key_lt_irreflexive(a@);
                    }
                    return KeyOrder::After;
                }
                proof {
                    assert(a@.subrange(k, a@.len() as int).drop_first() == a@.subrange(
                        k + 1,
                        a@.len() as int,
                    ));
                    assert(b@.subrange(k, b@.len() as int).drop_first() == b@.subrange(
                        k + 1,
                        b@.len() as int,
                    ));
                    k = k + 1;
                }
            },
            (x, y) => {
                proof {
                    lemma_prefix_order(a@, b@, k);
                    lemma_key_lt_irreflexive(a@);
                    if key_lt(a@, b@) {
                        lemma_key_lt_asymmetric(a@, b@);
                    }
                }
                return match (x, y) {
                    (None, Some(_)) => KeyOrder::Before,
                    (Some(_), None) => KeyOrder::After,
                    _ => KeyOrder::Same,
                };
            },
        }
    }
}

/// Of two different keys one comes before the other.
pub proof fn lemma_key_lt_total(a: Seq<char>, b: Seq<char>)
    ensures
        a == b || key_lt(a, b) || key_lt(b, a),
{
    lemma_first_difference(a, b, 0);
}

/// Two keys that agree on their first `k` characters are equal or ordered.
proof fn lemma_first_difference(a: Seq<char>, b: Seq<char>, k: int)
    requires
        0 <= k <= a.len(),
        k <= b.len(),
        forall|i: int| 0 <= i < k ==> a[i] == b[i],
    ensures
        a == b || key_lt(a, b) || key_lt(b, a),
    decreases a.len() - k,
{
    if k == a.len() || k == b.len() {
        lemma_prefix_order(a, b, k);
    } else if (a[k] as int) < (b[k] as int) {
        assert(lt_at(a, b, k));
    } else if (b[k] as int) < (a[k] as int) {
        assert(lt_at(b, a, k));
    } else {
        assert(a[k] == b[k]);
        lemma_first_difference(a, b, k + 1);
    }
}

} // verus!
