use crate::entries::{has_key, keys_of, lemma_ascending_unique};
use crate::join::{
    join_keys, left_after, lemma_walk_begins, lemma_walk_goes_on, right_after, walk_at, KeyJoin,
};
use crate::keys::ascending;
use crate::object::MessyJsonObject;
use crate::outcome::{absent, first_mandatory, missing_key};
use crate::schema::{MessyJson, MessyJsonExpected};
use crate::value::{MessyJsonNullType, MessyJsonValue};
use vstd::prelude::*;

verus! {

/// Whether `out` holds one entry for each property, in the order of the properties: the
/// entry of `seen` with that key where there is one, else the mark of an absent field.
pub open spec fn filled(
    props: Seq<(String, MessyJson)>,
    seen: Seq<(String, MessyJsonValue)>,
    out: Seq<(String, MessyJsonValue)>,
) -> bool {
    &&& out.len() == props.len()
    &&& forall|i: int| 0 <= i < props.len() ==> (#[trigger] out[i]).0@ == props[i].0@
    &&& forall|i: int, e: int|
        0 <= i < props.len() && 0 <= e < seen.len() && (#[trigger] seen[e]).0@ == props[i].0@
            ==> (#[trigger] out[i]).1 == seen[e].1
    &&& forall|i: int|
        0 <= i < props.len() && !has_key(seen, props[i].0@) ==> (#[trigger] out[i]).1 == absent(
            props[i].1,
        )
}

/// Whether some entry with this key holds an explicit `null`.
pub open spec fn holds_null(seen: Seq<(String, MessyJsonValue)>, key: Seq<char>) -> bool {
    exists|e: int|
        0 <= e < seen.len() && (#[trigger] seen[e]).0@ == key && seen[e].1 matches MessyJsonValue::Null(
            MessyJsonNullType::Null,
            _,
        )
}

/// The key of the first mandatory property whose entry holds an explicit `null`.
pub open spec fn nulled_key(
    props: Seq<(String, MessyJson)>,
    seen: Seq<(String, MessyJsonValue)>,
) -> Option<Seq<char>> {
    first_mandatory(props, 0, |k: Seq<char>| holds_null(seen, k))
}

/// Looks for a mandatory property that the entries of a validated object leave out, and
/// returns the key of the first one.
pub fn first_missing(schema: &MessyJsonObject, res: &Vec<(String, MessyJsonValue)>) -> (missing:
    Option<String>)
    requires
        ascending(keys_of(res@)),
    ensures
        match missing {
            Some(k) => missing_key(schema.props(), res@) == Some(k@),
            None => missing_key(schema.props(), res@) is None,
        },
{
    let props = schema.inner().properties();
    let steps = join_keys(props, res);
    let ghost picked = |k: Seq<char>| !has_key(res@, k);
    let ghost mut i: int = 0;
    let ghost mut j: int = 0;
    let mut k: usize = 0;
    proof {
        assert(props@.len() == props.len() && res@.len() == res.len());
        lemma_walk_begins(steps@, props@, res@);
    }
    while k < steps.len()
        invariant
            walk_at(steps@, props@, res@, k as int, i, j),
            props@ == schema.props(),
            picked == (|k: Seq<char>| !has_key(res@, k)),
            first_mandatory(props@, 0, picked) == first_mandatory(props@, i, picked),
        decreases steps.len() - k,
    {
        proof {
            lemma_walk_goes_on(steps@, props@, res@, k as int, i, j);
        }
        match steps[k] {
            KeyJoin::Left(x) => {
                if !props[x].1.inner().optional() {
                    return Some(props[x].0.clone());
                }
            },
            KeyJoin::Both(x, y) => {
                assert(has_key(res@, props@[i].0@));
            },
            KeyJoin::Right(y) => {},
        }
        proof {
            i = left_after(steps@[k as int], i);
            j = right_after(steps@[k as int], j);
        }
        k += 1;
    }
    proof {
        lemma_walk_goes_on(steps@, props@, res@, k as int, i, j);
    }
    None
}

/// Fills in a mark of absence for each property that the entries of a validated object
/// leave out, so that they hold one entry for each property of the schema.
pub fn fill_absent(schema: &MessyJsonObject, res: &mut Vec<(String, MessyJsonValue)>)
    requires
        ascending(keys_of(old(res)@)),
        forall|e: int|
            0 <= e < old(res).len() ==> has_key(schema.props(), (#[trigger] old(res)@[e]).0@),
    ensures
        filled(schema.props(), old(res)@, final(res)@),
{
    let props = schema.inner().properties();
    let steps = join_keys(props, res);
    let ghost seen = res@;
    let ghost mut i: int = 0;
    let ghost mut j: int = 0;
    let mut pos: usize = 0;
    let mut k: usize = 0;
    proof {
        assert(props@.len() == props.len() && res@.len() == res.len());
        lemma_walk_begins(steps@, props@, seen);
    }
    while k < steps.len()
        invariant
            walk_at(steps@, props@, seen, k as int, i, j),
            seen == old(res)@,
            props@ == schema.props(),
            forall|e: int| 0 <= e < seen.len() ==> has_key(props@, (#[trigger] seen[e]).0@),
            pos == i,
            res.len() == i + seen.len() - j,
            forall|a: int| 0 <= a < i ==> (#[trigger] res@[a]).0@ == props@[a].0@,
            forall|a: int, e: int|
                0 <= a < i && 0 <= e < seen.len() && (#[trigger] seen[e]).0@ == props@[a].0@ ==> (
                #[trigger] res@[a]).1 == seen[e].1,
            forall|a: int|
                0 <= a < i && !has_key(seen, props@[a].0@) ==> (#[trigger] res@[a]).1 == absent(
                    props@[a].1,
                ),
            forall|b: int| i <= b < res.len() ==> #[trigger] res@[b] == seen[j + b - i],
        decreases steps.len() - k,
    {
        proof {
            lemma_walk_goes_on(steps@, props@, seen, k as int, i, j);
        }
        let ghost before = res@;
        match steps[k] {
            KeyJoin::Left(x) => {
                let entry = (
                    props[x].0.clone(),
                    MessyJsonValue::Null(
                        MessyJsonNullType::Absent,
                        MessyJsonExpected::Root(props[x].1.share()),
                    ),
                );
                res.insert(pos, entry);
                proof {
                    assert forall|a: int| 0 <= a < i implies #[trigger] res@[a] == before[a] by {}
                    assert forall|a: int, e: int|
                        0 <= a < i + 1 && 0 <= e < seen.len() && (#[trigger] seen[e]).0@
                            == props@[a].0@ implies (#[trigger] res@[a]).1 == seen[e].1 by {
                        if a < i {
                            assert(res@[a] == before[a]);
                        }
                    }
                    assert forall|b: int| i + 1 <= b < res.len() implies #[trigger] res@[b]
                        == seen[j + b - (i + 1)] by {
                        assert(res@[b] == before[b - 1]);
                    }
                }
                pos += 1;
            },
            KeyJoin::Both(x, y) => {
                proof {
                    assert(res@[i] == seen[j]);
                    assert forall|e: int|
                        0 <= e < seen.len() && (#[trigger] seen[e]).0@
                            == props@[i].0@ implies res@[i].1 == seen[e].1 by {
                        lemma_ascending_unique(seen, e, j);
                    }
                    assert(has_key(seen, props@[i].0@));
                }
                pos += 1;
            },
            KeyJoin::Right(y) => {
                // every entry has the key of a property, so no step stands for an entry alone
                assert(false);
            },
        }
        proof {
            i = left_after(steps@[k as int], i);
            j = right_after(steps@[k as int], j);
        }
        k += 1;
    }
    proof {
        lemma_walk_goes_on(steps@, props@, seen, k as int, i, j);
    }
}

} // verus!
