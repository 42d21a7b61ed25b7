use crate::builder::{MessyJsonObjectBuilder, MessyJsonObjectTrait};
use crate::entries::{
    came_from, find_key, has_key, insert_entry, is_last, keys_of, lemma_ascending_unique,
};
use crate::keys::ascending;
use crate::schema::{share_handle, MessyJson};
use crate::settings::MessyJsonSettings;
use std::sync::Arc;
use vstd::prelude::*;
use vstd::string::*;

verus! {

/// The type of the keys of an object.
pub type KeyType = String;

/// An object schema, shared by reference count and never changed once built.
#[derive(Clone, Debug, PartialEq, Eq, Hash)]
pub struct MessyJsonObject(pub Arc<MessyJsonObjectInner>);

/// Schema of a JSON object: its properties, held in ascending order of their keys, and
/// whether the object may be left out or be `null`.
#[derive(Debug, PartialEq, Eq, Hash)]
pub struct MessyJsonObjectInner {
    optional: bool,
    properties: Vec<(KeyType, MessyJson)>,
}

impl MessyJsonObject {
    /// The properties, in ascending order of their keys.
    pub open spec fn props(self) -> Seq<(String, MessyJson)> {
        self.0.props()
    }

    pub open spec fn is_optional(self) -> bool {
        self.0.is_optional()
    }

    /// Wraps an object schema into a shared handle.
    pub fn from(x: MessyJsonObjectInner) -> (r: Self)
        ensures
            *r.0 == x,
    {
        MessyJsonObject(Arc::new(x))
    }

    /// The object schema behind the shared handle.
    pub fn inner(&self) -> (r: &MessyJsonObjectInner)
        ensures
            *r == *self.0,
    {
        &*self.0
    }

    /// Another handle to the same object schema.
    pub fn share(&self) -> (r: Self)
        ensures
            r == *self,
    {
        MessyJsonObject(share_handle(&self.0))
    }

    /// Pairs this object schema with settings, ready to validate documents.
    pub fn builder(&self, settings: MessyJsonSettings) -> (r: MessyJsonObjectBuilder)
        ensures
            r.schema == *self,
            r.settings == settings,
    {
        MessyJsonObjectBuilder::new(self, settings)
    }
}

impl MessyJsonObjectInner {
    #[verifier::type_invariant]
    spec fn well_formed(self) -> bool {
        ascending(keys_of(self.properties@))
    }

    /// The properties, in ascending order of their keys.
    pub closed spec fn props(self) -> Seq<(String, MessyJson)> {
        self.properties@
    }

    pub closed spec fn is_optional(self) -> bool {
        self.optional
    }

    /// Builds an object schema from its properties, given in any order. Of two
    /// properties with one key the later one stays.
    pub fn new(properties: Vec<(KeyType, MessyJson)>, optional: bool) -> (r: Self)
        ensures
            r.is_optional() == optional,
            ascending(keys_of(r.props())),
            forall|e: int|
                0 <= e < r.props().len() ==> came_from(properties@, #[trigger] r.props()[e]),
            forall|d: int|
                0 <= d < properties.len() ==> has_key(r.props(), (#[trigger] properties@[d]).0@),
    {
        let mut sorted: Vec<(KeyType, MessyJson)> = Vec::new();
        let mut d: usize = 0;
        while d < properties.len()
            invariant
                d <= properties.len(),
                ascending(keys_of(sorted@)),
                forall|e: int|
                    0 <= e < sorted.len() ==> came_from(
                        properties@.take(d as int),
                        #[trigger] sorted@[e],
                    ),
                forall|x: int| 0 <= x < d ==> has_key(sorted@, (#[trigger] properties@[x]).0@),
            decreases properties.len() - d,
        {
            let ghost before = sorted@;
            let key = properties[d].0.clone();
            let schema = properties[d].1.share();
            let placed = insert_entry(&mut sorted, key, schema);
            proof {
                let p = placed.0 as int;
                let seen = properties@.take(d as int);
                let seen_next = properties@.take(d as int + 1);
                assert(sorted@[p].0@ == properties@[d as int].0@);
                assert(sorted@[p].1 == properties@[d as int].1);
                assert forall|e: int| 0 <= e < sorted.len() implies came_from(
                    seen_next,
                    #[trigger] sorted@[e],
                ) by {
                    if e == p {
                        assert(seen_next[d as int] == properties@[d as int]);
                        assert(is_last(seen_next, d as int, sorted@[e].0@));
                    } else {
                        let e0 = if placed.1 || e < p {
                            e
                        } else {
                            e - 1
                        };
                        assert(sorted@[e] == before[e0]);
                        assert(came_from(seen, before[e0]));
                        let x = choose|x: int|
                            is_last(seen, x, before[e0].0@) && before[e0].1 == (
                            #[trigger] seen[x]).1;
                        if before[e0].0@ == properties@[d as int].0@ {
                            if placed.1 {
                                lemma_ascending_unique(before, e0, p);
                            } else {
                                assert(has_key(before, properties@[d as int].0@));
                            }
                        }
                        assert(seen_next[x] == seen[x]);
                        assert forall|later: int| x < later < seen_next.len() implies (
                        #[trigger] seen_next[later]).0@ != before[e0].0@ by {
                            if later < d {
                                assert(seen_next[later] == seen[later]);
                            }
                        }
                        assert(is_last(seen_next, x, sorted@[e].0@));
                    }
                }
                assert forall|x: int| 0 <= x <= d implies has_key(
                    sorted@,
                    (#[trigger] properties@[x]).0@,
                ) by {
                    if x == d {
                        assert(sorted@[p].0@ == properties@[x].0@);
                    } else {
                        let e0 = choose|e0: int|
                            0 <= e0 < before.len() && (#[trigger] before[e0]).0@
                                == properties@[x].0@;
                        let e = if placed.1 || e0 < p {
                            e0
                        } else {
                            e0 + 1
                        };
                        assert(sorted@[e].0@ == properties@[x].0@);
                    }
                }
            }
            d += 1;
        }
        proof {
            assert(properties@.take(d as int) == properties@);
        }
        MessyJsonObjectInner { optional, properties: sorted }
    }

    /// The properties, in ascending order of their keys.
    pub fn properties(&self) -> (r: &Vec<(KeyType, MessyJson)>)
        ensures
            r@ == self.props(),
            ascending(keys_of(r@)),
    {
        proof {
            use_type_invariant(self);
        }
        &self.properties
    }

    /// Whether the object has a property with this key.
    pub fn has_field(&self, key: &str) -> (r: bool)
        ensures
            r == has_key(self.props(), key@),
    {
        find_key(&self.properties, key).is_some()
    }

    pub fn optional(&self) -> (r: bool)
        ensures
            r == self.is_optional(),
    {
        self.optional
    }
}

impl Clone for MessyJsonObjectInner {
    /// A copy with the same properties, each sharing its schema with the one it copies.
    fn clone(&self) -> (r: Self)
        ensures
            r.is_optional() == self.is_optional(),
            keys_of(r.props()) == keys_of(self.props()),
            forall|i: int|
                0 <= i < self.props().len() ==> (#[trigger] r.props()[i]).1 == self.props()[i].1,
    {
        proof {
            use_type_invariant(self);
        }
        let mut properties: Vec<(KeyType, MessyJson)> = Vec::new();
        let mut i: usize = 0;
        while i < self.properties.len()
            invariant
                i <= self.properties.len(),
                properties.len() == i,
                forall|a: int|
                    0 <= a < i ==> (#[trigger] properties@[a]).0@ == self.properties@[a].0@
                        && properties@[a].1 == self.properties@[a].1,
            decreases self.properties.len() - i,
        {
            properties.push((self.properties[i].0.clone(), self.properties[i].1.share()));
            i += 1;
        }
        proof {
            assert(keys_of(properties@) =~= keys_of(self.properties@));
        }
        MessyJsonObjectInner { optional: self.optional, properties }
    }
}

impl Default for MessyJsonObjectInner {
    /// A mandatory object without properties.
    fn default() -> (r: Self)
        ensures
            r.props().len() == 0,
            !r.is_optional(),
    {
        MessyJsonObjectInner { optional: false, properties: Vec::new() }
    }
}

impl Default for MessyJsonObject {
    /// A mandatory object without properties.
    fn default() -> (r: Self)
        ensures
            r.props().len() == 0,
            !r.is_optional(),
    {
        MessyJsonObject(Arc::new(MessyJsonObjectInner::default()))
    }
}

/// Makes a key of a string.
pub fn gen_key(k: &str) -> (r: KeyType)
    ensures
        r@ == k@,
{
    String::from_str(k)
}

} // verus!
