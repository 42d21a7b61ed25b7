use crate::schema::MessyJson;
use vstd::prelude::*;

verus! {

/// Schema of a JSON array: the one shape all its items have, and whether the array may
/// be left out or be `null`.
#[derive(Clone, Debug, PartialEq, Eq, Hash)]
pub struct MessyJsonArray {
    pub optional: bool,
    pub items: MessyJson,
}

impl MessyJsonArray {
    pub fn new(items: MessyJson, optional: bool) -> (r: Self)
        ensures
            r.items == items,
            r.optional == optional,
    {
        MessyJsonArray { items, optional }
    }

    /// The schema of the items.
    pub fn items(&self) -> (r: &MessyJson)
        ensures
            *r == self.items,
    {
        &self.items
    }

    pub fn optional(&self) -> (r: bool)
        ensures
            r == self.optional,
    {
        self.optional
    }
}

} // verus!
