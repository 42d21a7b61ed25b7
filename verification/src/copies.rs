use crate::raw_value::MessyJsonValueRaw;
use crate::schema::MessyJsonExpected;
use crate::value::{
    MessyJsonArrayValue, MessyJsonObjectValue, MessyJsonValue, MessyJsonValueContainer,
};
use vstd::prelude::*;

verus! {

/// Whether two documents say the same, node for node.
pub open spec fn same_doc(a: MessyJsonValueRaw, b: MessyJsonValueRaw) -> bool
    decreases a, 0nat,
{
    match (a, b) {
        (MessyJsonValueRaw::Array(x), MessyJsonValueRaw::Array(y)) => same_docs(x@, y@),
        (MessyJsonValueRaw::Bool(x), MessyJsonValueRaw::Bool(y)) => x == y,
        (MessyJsonValueRaw::Number(x), MessyJsonValueRaw::Number(y)) => x == y,
        (MessyJsonValueRaw::Obj(x), MessyJsonValueRaw::Obj(y)) => same_doc_entries(x@, y@),
        (MessyJsonValueRaw::String(x), MessyJsonValueRaw::String(y)) => x@ == y@,
        (MessyJsonValueRaw::Null, MessyJsonValueRaw::Null) => true,
        _ => false,
    }
}

/// Whether two lists of documents say the same, item for item.
pub open spec fn same_docs(a: Seq<MessyJsonValueRaw>, b: Seq<MessyJsonValueRaw>) -> bool
    decreases a, 1nat,
{
    &&& a.len() == b.len()
    &&& forall|i: int| 0 <= i < a.len() ==> same_doc(#[trigger] a[i], b[i])
}

/// Whether two lists of entries of documents say the same, entry for entry.
pub open spec fn same_doc_entries(
    a: Seq<(String, MessyJsonValueRaw)>,
    b: Seq<(String, MessyJsonValueRaw)>,
) -> bool
    decreases a, 1nat,
{
    &&& a.len() == b.len()
    &&& forall|i: int|
        0 <= i < a.len() ==> (#[trigger] a[i]).0@ == b[i].0@ && same_doc(a[i].1, b[i].1)
}

/// Whether two validated values say the same, node for node.
pub open spec fn same_value(a: MessyJsonValue, b: MessyJsonValue) -> bool
    decreases a, 0nat,
{
    match (a, b) {
        (MessyJsonValue::Array(x), MessyJsonValue::Array(y)) => same_values(x.0@, y.0@),
        (MessyJsonValue::Bool(x), MessyJsonValue::Bool(y)) => x == y,
        (MessyJsonValue::Number(x), MessyJsonValue::Number(y)) => x == y,
        (MessyJsonValue::Obj(x), MessyJsonValue::Obj(y)) => same_value_entries(x.0@, y.0@),
        (MessyJsonValue::String(x), MessyJsonValue::String(y)) => x@ == y@,
        (MessyJsonValue::Uuid(x), MessyJsonValue::Uuid(y)) => x == y,
        (MessyJsonValue::Null(k, e), MessyJsonValue::Null(l, f)) => k == l && e == f,
        _ => false,
    }
}

/// Whether two lists of validated values say the same, item for item.
pub open spec fn same_values(a: Seq<MessyJsonValue>, b: Seq<MessyJsonValue>) -> bool
    decreases a, 1nat,
{
    &&& a.len() == b.len()
    &&& forall|i: int| 0 <= i < a.len() ==> same_value(#[trigger] a[i], b[i])
}

/// Whether two lists of entries of validated values say the same, entry for entry.
pub open spec fn same_value_entries(
    a: Seq<(String, MessyJsonValue)>,
    b: Seq<(String, MessyJsonValue)>,
) -> bool
    decreases a, 1nat,
{
    &&& a.len() == b.len()
    &&& forall|i: int|
        0 <= i < a.len() ==> (#[trigger] a[i]).0@ == b[i].0@ && same_value(a[i].1, b[i].1)
}

fn clone_docs(items: &Vec<MessyJsonValueRaw>) -> (r: Vec<MessyJsonValueRaw>)
    ensures
        same_docs(items@, r@),
    decreases *items, 1nat,
{
    let mut out: Vec<MessyJsonValueRaw> = Vec::new();
    let mut i: usize = 0;
    while i < items.len()
        invariant
            i <= items.len(),
            out.len() == i,
            forall|a: int| 0 <= a < i ==> same_doc(#[trigger] items@[a], out@[a]),
        decreases items.len() - i,
    {
        out.push(items[i].clone());
        i += 1;
    }
    out
}

fn clone_doc_entries(entries: &Vec<(String, MessyJsonValueRaw)>) -> (r: Vec<
    (String, MessyJsonValueRaw),
>)
    ensures
        same_doc_entries(entries@, r@),
    decreases *entries, 1nat,
{
    let mut out: Vec<(String, MessyJsonValueRaw)> = Vec::new();
    let mut i: usize = 0;
    while i < entries.len()
        invariant
            i <= entries.len(),
            out.len() == i,
            forall|a: int|
                0 <= a < i ==> (#[trigger] entries@[a]).0@ == out@[a].0@ && same_doc(
                    entries@[a].1,
                    out@[a].1,
                ),
        decreases entries.len() - i,
    {
        out.push((entries[i].0.clone(), entries[i].1.clone()));
        i += 1;
    }
    out
}

impl Clone for MessyJsonValueRaw {
    /// A copy that says the same as this document, node for node.
    fn clone(&self) -> (r: Self)
        ensures
            same_doc(*self, r),
        decreases *self, 0nat,
    {
        match self {
            MessyJsonValueRaw::Array(items) => MessyJsonValueRaw::Array(clone_docs(items)),
            MessyJsonValueRaw::Bool(b) => MessyJsonValueRaw::Bool(*b),
            MessyJsonValueRaw::Number(n) => MessyJsonValueRaw::Number(*n),
            MessyJsonValueRaw::Obj(entries) => MessyJsonValueRaw::Obj(clone_doc_entries(entries)),
            MessyJsonValueRaw::String(s) => MessyJsonValueRaw::String(s.clone()),
            MessyJsonValueRaw::Null => MessyJsonValueRaw::Null,
        }
    }
}

fn clone_values(items: &Vec<MessyJsonValue>) -> (r: Vec<MessyJsonValue>)
    ensures
        same_values(items@, r@),
    decreases *items, 1nat,
{
    let mut out: Vec<MessyJsonValue> = Vec::new();
    let mut i: usize = 0;
    while i < items.len()
        invariant
            i <= items.len(),
            out.len() == i,
            forall|a: int| 0 <= a < i ==> same_value(#[trigger] items@[a], out@[a]),
        decreases items.len() - i,
    {
        out.push(items[i].clone());
        i += 1;
    }
    out
}

fn clone_value_entries(entries: &Vec<(String, MessyJsonValue)>) -> (r: Vec<
    (String, MessyJsonValue),
>)
    ensures
        same_value_entries(entries@, r@),
    decreases *entries, 1nat,
{
    let mut out: Vec<(String, MessyJsonValue)> = Vec::new();
    let mut i: usize = 0;
    while i < entries.len()
        invariant
            i <= entries.len(),
            out.len() == i,
            forall|a: int|
                0 <= a < i ==> (#[trigger] entries@[a]).0@ == out@[a].0@ && same_value(
                    entries@[a].1,
                    out@[a].1,
                ),
        decreases entries.len() - i,
    {
        out.push((entries[i].0.clone(), entries[i].1.clone()));
        i += 1;
    }
    out
}

impl Clone for MessyJsonValue {
    /// A copy that says the same as this value, node for node.
    fn clone(&self) -> (r: Self)
        ensures
            same_value(*self, r),
        decreases *self, 0nat,
    {
        match self {
            MessyJsonValue::Array(items) => MessyJsonValue::Array(
                MessyJsonArrayValue(clone_values(&items.0)),
            ),
            MessyJsonValue::Bool(b) => MessyJsonValue::Bool(*b),
            MessyJsonValue::Number(n) => MessyJsonValue::Number(*n),
            MessyJsonValue::Obj(entries) => MessyJsonValue::Obj(
                MessyJsonObjectValue(clone_value_entries(&entries.0)),
            ),
            MessyJsonValue::String(s) => MessyJsonValue::String(s.clone()),
            MessyJsonValue::Uuid(id) => MessyJsonValue::Uuid(*id),
            MessyJsonValue::Null(kind, expected) => {
                let expected = match expected {
                    MessyJsonExpected::Root(schema) => MessyJsonExpected::Root(schema.share()),
                    MessyJsonExpected::Obj(schema) => MessyJsonExpected::Obj(schema.share()),
                };
                MessyJsonValue::Null(*kind, expected)
            },
        }
    }
}

impl Clone for MessyJsonArrayValue {
    /// A copy that says the same as this array, item for item.
    fn clone(&self) -> (r: Self)
        ensures
            same_values(self.0@, r.0@),
    {
        MessyJsonArrayValue(clone_values(&self.0))
    }
}

impl Clone for MessyJsonObjectValue {
    /// A copy that says the same as this object, entry for entry.
    fn clone(&self) -> (r: Self)
        ensures
            same_value_entries(self.0@, r.0@),
    {
        MessyJsonObjectValue(clone_value_entries(&self.0))
    }
}

impl Clone for MessyJsonValueContainer {
    /// A container of a copy that says the same as the value held.
    fn clone(&self) -> (r: Self)
        ensures
            same_value(self.val, r.val),
    {
        MessyJsonValueContainer { val: self.val.clone() }
    }
}

} // verus!
