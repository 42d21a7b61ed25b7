use crate::entries::{has_key, keys_of};
use crate::keys::{
    ascending, key_lt, lemma_key_lt_irreflexive, lemma_key_lt_total, lemma_key_lt_transitive,
};
use crate::order::key_order;
use itertools::EitherOrBoth;
use vstd::prelude::*;

verus! {

/// One step of a merge join of two lists of keys: a position of the left list whose key
/// the right list lacks, a position of the right list whose key the left list lacks, or
/// the two positions of a key that both have.
#[derive(Clone, Copy, Debug, PartialEq, Eq, Structural)]
pub enum KeyJoin {
    Left(usize),
    Right(usize),
    Both(usize, usize),
}

/// The step that stands for position `i` on the left alone.
pub open spec fn left_at(i: int) -> KeyJoin {
    KeyJoin::Left(i as usize)
}

/// The step that stands for position `j` on the right alone.
pub open spec fn right_at(j: int) -> KeyJoin {
    KeyJoin::Right(j as usize)
}

/// The step that stands for position `i` on the left and `j` on the right.
pub open spec fn both_at(i: int, j: int) -> KeyJoin {
    KeyJoin::Both(i as usize, j as usize)
}

/// The merge join of the keys `l` from position `i` on with the keys `r` from position
/// `j` on: the smaller of the two keys at hand is given out and passed, both where they
/// are equal, until both lists are used up.
pub open spec fn merge_join(l: Seq<Seq<char>>, r: Seq<Seq<char>>, i: int, j: int) -> Seq<KeyJoin>
    decreases l.len() - i + r.len() - j,
{
    if i < 0 || j < 0 || i > l.len() || j > r.len() || (i == l.len() && j == r.len()) {
        Seq::empty()
    } else if j == r.len() {
        seq![left_at(i)] + merge_join(l, r, i + 1, j)
    } else if i == l.len() {
        seq![right_at(j)] + merge_join(l, r, i, j + 1)
    } else if l[i] == r[j] {
        seq![both_at(i, j)] + merge_join(l, r, i + 1, j + 1)
    } else if key_lt(l[i], r[j]) {
        seq![left_at(i)] + merge_join(l, r, i + 1, j)
    } else {
        seq![right_at(j)] + merge_join(l, r, i, j + 1)
    }
}

/// `itertools::merge_join_by` over the keys of two lists of entries, each key with its
/// position, compared by `key_order`. The adaptor looks at the next item of each side:
/// where one side has ended it gives out the other's item, where the comparison says
/// `Equal` both, where `Less` the left one and where `Greater` the right one, and it
/// passes on what it gave out. The positions it gives out are collected as they come.
#[verifier::external_body]
pub(crate) fn join_keys<A, B>(left: &Vec<(String, A)>, right: &Vec<(String, B)>) -> (r: Vec<
    KeyJoin,
>)
    ensures
        r@ == merge_join(keys_of(left@), keys_of(right@), 0, 0),
{
    itertools::merge_join_by(left.iter().enumerate(), right.iter().enumerate(), |a, b| {
        key_order(&(a.1).0, &(b.1).0)
    }).map(
        |step| match step {
            EitherOrBoth::Both(a, b) => KeyJoin::Both(a.0, b.0),
            EitherOrBoth::Left(a) => KeyJoin::Left(a.0),
            EitherOrBoth::Right(b) => KeyJoin::Right(b.0),
        },
    ).collect()
}

/// The keys passed so far on either side come before all the keys still ahead on the
/// other side.
pub open spec fn apart(l: Seq<Seq<char>>, r: Seq<Seq<char>>, i: int, j: int) -> bool {
    &&& 0 <= i <= l.len()
    &&& 0 <= j <= r.len()
    &&& forall|a: int, b: int|
        0 <= a < i && j <= b < r.len() ==> key_lt(#[trigger] l[a], #[trigger] r[b])
    &&& forall|a: int, b: int|
        i <= a < l.len() && 0 <= b < j ==> key_lt(#[trigger] r[b], #[trigger] l[a])
}

/// What the next step of a merge join of two ascending lists of keys is, and what it
/// tells: a step for the left alone stands for a key that the right list lacks, a step
/// for the right alone for a key that the left list lacks, a step for both for a key of
/// both. The steps after it are the merge join from the positions behind it.
pub proof fn lemma_join_step(l: Seq<Seq<char>>, r: Seq<Seq<char>>, i: int, j: int)
    requires
        ascending(l),
        ascending(r),
        apart(l, r, i, j),
        l.len() <= usize::MAX,
        r.len() <= usize::MAX,
    ensures
        (i == l.len() && j == r.len()) <==> merge_join(l, r, i, j).len() == 0,
        merge_join(l, r, i, j).len() > 0 ==> match merge_join(l, r, i, j)[0] {
            KeyJoin::Left(x) => {
                &&& x == i
                &&& i < l.len()
                &&& forall|b: int| 0 <= b < r.len() ==> #[trigger] r[b] != l[i]
                &&& apart(l, r, i + 1, j)
                &&& merge_join(l, r, i, j).drop_first() == merge_join(l, r, i + 1, j)
            },
            KeyJoin::Right(y) => {
                &&& y == j
                &&& j < r.len()
                &&& forall|a: int| 0 <= a < l.len() ==> #[trigger] l[a] != r[j]
                &&& apart(l, r, i, j + 1)
                &&& merge_join(l, r, i, j).drop_first() == merge_join(l, r, i, j + 1)
            },
            KeyJoin::Both(x, y) => {
                &&& x == i
                &&& y == j
                &&& i < l.len()
                &&& j < r.len()
                &&& l[i] == r[j]
                &&& apart(l, r, i + 1, j + 1)
                &&& merge_join(l, r, i, j).drop_first() == merge_join(l, r, i + 1, j + 1)
            },
        },
{
    let rest = merge_join(l, r, i, j);
    if i == l.len() && j == r.len() {
    } else {
        let takes_left = j == r.len() || (i < l.len() && l[i] != r[j] && key_lt(l[i], r[j]));
        let takes_both = i < l.len() && j < r.len() && l[i] == r[j];
        if takes_both {
            assert(rest.drop_first() =~= merge_join(l, r, i + 1, j + 1));
            assert forall|a: int, b: int| 0 <= a < i + 1 && j + 1 <= b < r.len() implies key_lt(
                #[trigger] l[a],
                #[trigger] r[b],
            ) by {
                if a == i {
                    assert(key_lt(r[j], r[b]));
                }
            }
            assert forall|a: int, b: int| i + 1 <= a < l.len() && 0 <= b < j + 1 implies key_lt(
                #[trigger] r[b],
                #[trigger] l[a],
            ) by {
                if b == j {
                    assert(key_lt(l[i], l[a]));
                }
            }
        } else if takes_left {
            assert(rest.drop_first() =~= merge_join(l, r, i + 1, j));
            assert forall|a: int, b: int| 0 <= a < i + 1 && j <= b < r.len() implies key_lt(
                #[trigger] l[a],
                #[trigger] r[b],
            ) by {
                if a == i && b > j {
                    assert(key_lt(r[j], r[b]));
                    lemma_key_lt_transitive(l[i], r[j], r[b]);
                }
            }
            assert forall|b: int| 0 <= b < r.len() implies #[trigger] r[b] != l[i] by {
                lemma_key_lt_irreflexive(l[i]);
                if b < j {
                    assert(key_lt(r[b], l[i]));
                } else {
                    assert(key_lt(l[i], r[b]));
                }
            }
        } else {
            assert(rest.drop_first() =~= merge_join(l, r, i, j + 1));
            if i < l.len() {
                lemma_key_lt_total(l[i], r[j]);
            }
            assert forall|a: int, b: int| i <= a < l.len() && 0 <= b < j + 1 implies key_lt(
                #[trigger] r[b],
                #[trigger] l[a],
            ) by {
                if b == j && a > i {
                    assert(key_lt(l[i], l[a]));
                    lemma_key_lt_transitive(r[j], l[i], l[a]);
                }
            }
            assert forall|a: int| 0 <= a < l.len() implies #[trigger] l[a] != r[j] by {
                lemma_key_lt_irreflexive(r[j]);
                if a < i {
                    assert(key_lt(l[a], r[j]));
                } else {
                    assert(key_lt(r[j], l[a]));
                }
            }
        }
    }
}

/// Where a walk along the merge join of the keys of two lists of entries stands: `k`
/// steps are taken, `i` entries of the left list and `j` of the right list are passed,
/// and the steps still ahead are the merge join from there on.
pub open spec fn walk_at<A, B>(
    steps: Seq<KeyJoin>,
    left: Seq<(String, A)>,
    right: Seq<(String, B)>,
    k: int,
    i: int,
    j: int,
) -> bool {
    &&& 0 <= k <= steps.len()
    &&& steps.subrange(k, steps.len() as int) == merge_join(keys_of(left), keys_of(right), i, j)
    &&& apart(keys_of(left), keys_of(right), i, j)
    &&& ascending(keys_of(left))
    &&& ascending(keys_of(right))
    &&& left.len() <= usize::MAX
    &&& right.len() <= usize::MAX
}

/// What a step tells of the entries at hand: a step for the left alone, that the right
/// list has no entry with the key of the left entry; a step for the right alone, the
/// same the other way round; a step for both, that the two entries have one key.
pub open spec fn step_tells<A, B>(
    step: KeyJoin,
    left: Seq<(String, A)>,
    right: Seq<(String, B)>,
    i: int,
    j: int,
) -> bool {
    match step {
        KeyJoin::Left(x) => x == i && i < left.len() && !has_key(right, left[i].0@),
        KeyJoin::Right(y) => y == j && j < right.len() && !has_key(left, right[j].0@),
        KeyJoin::Both(x, y) => {
            &&& x == i
            &&& y == j
            &&& i < left.len()
            &&& j < right.len()
            &&& left[i].0@ == right[j].0@
        },
    }
}

/// How many entries of the left list are passed once a step is taken.
pub open spec fn left_after(step: KeyJoin, i: int) -> int {
    match step {
        KeyJoin::Right(_) => i,
        _ => i + 1,
    }
}

/// How many entries of the right list are passed once a step is taken.
pub open spec fn right_after(step: KeyJoin, j: int) -> int {
    match step {
        KeyJoin::Left(_) => j,
        _ => j + 1,
    }
}

/// A walk along the merge join of the keys of two lists with ascending keys begins with
/// nothing passed.
pub proof fn lemma_walk_begins<A, B>(
    steps: Seq<KeyJoin>,
    left: Seq<(String, A)>,
    right: Seq<(String, B)>,
)
    requires
        steps == merge_join(keys_of(left), keys_of(right), 0, 0),
        ascending(keys_of(left)),
        ascending(keys_of(right)),
        left.len() <= usize::MAX,
        right.len() <= usize::MAX,
    ensures
        walk_at(steps, left, right, 0, 0, 0),
{
    assert(steps.subrange(0, steps.len() as int) =~= steps);
}

/// A walk ends exactly where both lists are passed; before that, the step at hand tells
/// of the entries at hand, and the walk goes on behind it.
pub proof fn lemma_walk_goes_on<A, B>(
    steps: Seq<KeyJoin>,
    left: Seq<(String, A)>,
    right: Seq<(String, B)>,
    k: int,
    i: int,
    j: int,
)
    requires
        walk_at(steps, left, right, k, i, j),
    ensures
        0 <= i <= left.len(),
        0 <= j <= right.len(),
        k == steps.len() <==> (i == left.len() && j == right.len()),
        k < steps.len() ==> step_tells(steps[k], left, right, i, j) && walk_at(
            steps,
            left,
            right,
            k + 1,
            left_after(steps[k], i),
            right_after(steps[k], j),
        ),
{
    let l = keys_of(left);
    let r = keys_of(right);
    lemma_join_step(l, r, i, j);
    let rest = merge_join(l, r, i, j);
    if k < steps.len() {
        assert(rest[0] == steps[k]);
        assert(rest.drop_first() =~= steps.subrange(k + 1, steps.len() as int));
        match steps[k] {
            KeyJoin::Left(x) => {
                if has_key(right, left[i].0@) {
                    let e = choose|e: int|
                        0 <= e < right.len() && (#[trigger] right[e]).0@ == left[i].0@;
                    assert(r[e] == l[i]);
                }
            },
            KeyJoin::Right(y) => {
                if has_key(left, right[j].0@) {
                    let e = choose|e: int|
                        0 <= e < left.len() && (#[trigger] left[e]).0@ == right[j].0@;
                    assert(l[e] == r[j]);
                }
            },
            KeyJoin::Both(x, y) => {},
        }
    }
}

} // verus!
