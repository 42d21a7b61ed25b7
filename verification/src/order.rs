use crate::keys::{key_compare, key_lt, KeyOrder};
use std::cmp::Ordering;
use vstd::prelude::*;

verus! {

/// Compares two keys: `Less` where the first comes before the second in the order of
/// keys, `Equal` where they are the same key, `Greater` otherwise.
pub fn key_order(a: &String, b: &String) -> (o: Ordering)
    ensures
        (o == Ordering::Less) == key_lt(a@, b@),
        (o == Ordering::Equal) == (a@ == b@),
        (o == Ordering::Greater) == key_lt(b@, a@),
{
    match key_compare(a.as_str(), b.as_str()) {
        KeyOrder::Before => Ordering::Less,
        KeyOrder::Same => Ordering::Equal,
        KeyOrder::After => Ordering::Greater,
    }
}

} // verus!
