use crate::entries::{find_key, find_last_key, has_key, is_first, is_last};
use crate::raw_value::{json_tree, raw_of_json, MessyJsonValueRaw};
use crate::schema::MessyJsonExpected;
use vstd::prelude::*;

verus! {

/// Whether a validated value and a document held to no schema say the same: arrays item
/// by item; objects key by key, each having the keys of the other; strings, booleans and
/// numbers by what they hold; and any null of the one with the null of the other. A UUID
/// agrees with nothing.
pub open spec fn agrees(value: MessyJsonValue, doc: MessyJsonValueRaw) -> bool
    decreases value, 0nat,
{
    match (value, doc) {
        (MessyJsonValue::Array(vs), MessyJsonValueRaw::Array(items)) => items_agree(
            vs.0@,
            items@,
        ),
        (MessyJsonValue::Bool(a), MessyJsonValueRaw::Bool(b)) => a == b,
        (MessyJsonValue::Number(a), MessyJsonValueRaw::Number(b)) => a == b,
        (MessyJsonValue::Obj(vs), MessyJsonValueRaw::Obj(entries)) => entries_agree(
            vs.0@,
            entries@,
        ),
        (MessyJsonValue::String(a), MessyJsonValueRaw::String(b)) => a@ == b@,
        (MessyJsonValue::Null(_, _), MessyJsonValueRaw::Null) => true,
        _ => false,
    }
}

/// Why a value is null.
#[derive(Clone, Copy, Debug, PartialEq, Eq, Structural)]
pub enum MessyJsonNullType {
    /// The field was set to `null`.
    Null,
    /// The field was left out of the document.
    Absent,
}

/// A validated JSON object: its entries in ascending order of their keys.
#[derive(Debug, PartialEq, Eq)]
pub struct MessyJsonObjectValue(pub Vec<(String, MessyJsonValue)>);

/// A validated JSON array.
#[derive(Debug, PartialEq, Eq)]
pub struct MessyJsonArrayValue(pub Vec<MessyJsonValue>);

/// A validated JSON value.
#[derive(Debug, PartialEq, Eq)]
pub enum MessyJsonValue {
    Array(MessyJsonArrayValue),
    Bool(bool),
    Number(u128),
    Obj(MessyJsonObjectValue),
    String(String),
    /// A UUID, as the 128-bit number that its bytes make.
    Uuid(u128),
    Null(MessyJsonNullType, MessyJsonExpected),
}

/// The owner of a validated value.
#[derive(Debug, PartialEq, Eq)]
pub struct MessyJsonValueContainer {
    pub val: MessyJsonValue,
}

/// Whether the items of a validated array agree with those of an array of a document.
pub open spec fn items_agree(vs: Seq<MessyJsonValue>, items: Seq<MessyJsonValueRaw>) -> bool
    decreases vs, 1nat,
{
    &&& vs.len() == items.len()
    &&& forall|i: int| 0 <= i < vs.len() ==> agrees(#[trigger] vs[i], items[i])
}

/// Whether a validated object and an object of a document have the same keys, and each
/// entry of the validated object agrees with the last entry of its key in the document.
pub open spec fn entries_agree(
    vs: Seq<(String, MessyJsonValue)>,
    entries: Seq<(String, MessyJsonValueRaw)>,
) -> bool
    decreases vs, 1nat,
{
    &&& forall|e: int| 0 <= e < vs.len() ==> has_key(entries, (#[trigger] vs[e]).0@)
    &&& forall|d: int| 0 <= d < entries.len() ==> has_key(vs, (#[trigger] entries[d]).0@)
    &&& forall|e: int, d: int|
        0 <= e < vs.len() && is_last(entries, d, vs[e].0@) ==> agrees(
            (#[trigger] vs[e]).1,
            (#[trigger] entries[d]).1,
        )
}

/// Compares the items of a validated array with those of an array of a document.
fn eq_items(vs: &Vec<MessyJsonValue>, items: &Vec<MessyJsonValueRaw>) -> (r: bool)
    ensures
        r == items_agree(vs@, items@),
    decreases *vs, 1nat,
{
    if vs.len() != items.len() {
        return false;
    }
    let mut i: usize = 0;
    while i < vs.len()
        invariant
            i <= vs.len(),
            vs.len() == items.len(),
            forall|a: int| 0 <= a < i ==> agrees(#[trigger] vs@[a], items@[a]),
        decreases vs.len() - i,
    {
        if !vs[i].eq_raw(&items[i]) {
            return false;
        }
        i += 1;
    }
    true
}

/// Compares the entries of a validated object with those of an object of a document.
fn eq_entries(vs: &Vec<(String, MessyJsonValue)>, entries: &Vec<(String, MessyJsonValueRaw)>) -> (r:
    bool)
    ensures
        r == entries_agree(vs@, entries@),
    decreases *vs, 1nat,
{
    let mut e: usize = 0;
    while e < vs.len()
        invariant
            e <= vs.len(),
            forall|a: int| 0 <= a < e ==> has_key(entries@, (#[trigger] vs@[a]).0@),
            forall|a: int, d: int|
                0 <= a < e && is_last(entries@, d, vs@[a].0@) ==> agrees(
                    (#[trigger] vs@[a]).1,
                    (#[trigger] entries@[d]).1,
                ),
        decreases vs.len() - e,
    {
        match find_last_key(entries, vs[e].0.as_str()) {
            Some(d) => {
                if !vs[e].1.eq_raw(&entries[d].1) {
                    return false;
                }
                assert forall|a: int, x: int|
                    0 <= a < e + 1 && is_last(entries@, x, vs@[a].0@) implies agrees(
                    (#[trigger] vs@[a]).1,
                    (#[trigger] entries@[x]).1,
                ) by {
                    if a == e {
                        assert(x == d);
                    }
                }
            },
            None => {
                return false;
            },
        }
        e += 1;
    }
    let mut d: usize = 0;
    while d < entries.len()
        invariant
            d <= entries.len(),
            forall|x: int| 0 <= x < d ==> has_key(vs@, (#[trigger] entries@[x]).0@),
        decreases entries.len() - d,
    {
        if find_key(vs, entries[d].0.as_str()).is_none() {
            return false;
        }
        d += 1;
    }
    true
}

impl MessyJsonValue {
    /// Compares this validated value with a JSON value of `serde_json`: with the document
    /// tree that it holds, and never equal where it holds none.
    pub fn eq_json(&self, other: &serde_json::Value) -> (r: bool)
        ensures
            r == match json_tree(*other) {
                Some(doc) => agrees(*self, doc),
                None => false,
            },
    {
        match raw_of_json(other) {
            Some(doc) => self.eq_raw(&doc),
            None => false,
        }
    }

    /// Compares this validated value with a document held to no schema.
    pub fn eq_raw(&self, doc: &MessyJsonValueRaw) -> (r: bool)
        ensures
            r == agrees(*self, *doc),
        decreases *self, 0nat,
    {
        match self {
            MessyJsonValue::Array(vs) => match doc {
                MessyJsonValueRaw::Array(items) => eq_items(&vs.0, items),
                _ => false,
            },
            MessyJsonValue::Bool(a) => match doc {
                MessyJsonValueRaw::Bool(b) => *a == *b,
                _ => false,
            },
            MessyJsonValue::Number(a) => match doc {
                MessyJsonValueRaw::Number(b) => *a == *b,
                _ => false,
            },
            MessyJsonValue::Obj(vs) => match doc {
                MessyJsonValueRaw::Obj(entries) => eq_entries(&vs.0, entries),
                _ => false,
            },
            MessyJsonValue::String(a) => match doc {
                MessyJsonValueRaw::String(b) => *a == *b,
                _ => false,
            },
            MessyJsonValue::Null(_, _) => match doc {
                MessyJsonValueRaw::Null => true,
                _ => false,
            },
            MessyJsonValue::Uuid(_) => false,
        }
    }
}

impl Default for MessyJsonObjectValue {
    /// An object without entries.
    fn default() -> (r: Self)
        ensures
            r.0.len() == 0,
    {
        MessyJsonObjectValue(Vec::new())
    }
}

impl MessyJsonObjectValue {
    /// Wraps a list of entries.
    pub fn from(obj: Vec<(String, MessyJsonValue)>) -> (r: Self)
        ensures
            r.0 == obj,
    {
        MessyJsonObjectValue(obj)
    }

    /// Takes the entries, consuming the object.
    pub fn take(self) -> (r: Vec<(String, MessyJsonValue)>)
        ensures
            r == self.0,
    {
        self.0
    }

    /// The number of entries.
    pub fn len(&self) -> (r: usize)
        ensures
            r == self.0.len(),
    {
        self.0.len()
    }

    /// Whether an entry has this key.
    pub fn contains_key(&self, key: &str) -> (r: bool)
        ensures
            r == has_key(self.0@, key@),
    {
        find_key(&self.0, key).is_some()
    }

    /// The value of the first entry with this key.
    pub fn get(&self, key: &str) -> (r: Option<&MessyJsonValue>)
        ensures
            match r {
                Some(v) => exists|i: int|
                    is_first(self.0@, i, key@) && (#[trigger] self.0@[i]).1 == *v,
                None => !has_key(self.0@, key@),
            },
    {
        match find_key(&self.0, key) {
            Some(i) => Some(&self.0[i].1),
            None => None,
        }
    }
}

impl MessyJsonArrayValue {
    /// Wraps a list of values.
    pub fn from(arr: Vec<MessyJsonValue>) -> (r: Self)
        ensures
            r.0 == arr,
    {
        MessyJsonArrayValue(arr)
    }

    /// Takes the values, consuming the array.
    pub fn take(self) -> (r: Vec<MessyJsonValue>)
        ensures
            r == self.0,
    {
        self.0
    }

    /// The number of items.
    pub fn len(&self) -> (r: usize)
        ensures
            r == self.0.len(),
    {
        self.0.len()
    }
}

impl MessyJsonValueContainer {
    pub fn new(val: MessyJsonValue) -> (r: Self)
        ensures
            r.val == val,
    {
        MessyJsonValueContainer { val }
    }

    /// The value held.
    pub fn inner(&self) -> (r: &MessyJsonValue)
        ensures
            *r == self.val,
    {
        &self.val
    }

    /// Takes the value held, consuming the container.
    pub fn take(self) -> (r: MessyJsonValue)
        ensures
            r == self.val,
    {
        self.val
    }
}

} // verus!
