use crate::array::MessyJsonArray;
use crate::builder::{MessyJsonBuilder, MessyJsonObjectTrait};
use crate::error::MessyJsonKind;
use crate::number::MessyJsonNumeric;
use crate::object::MessyJsonObject;
use crate::scalar::MessyJsonScalar;
use crate::settings::MessyJsonSettings;
use std::sync::Arc;
use vstd::prelude::*;
use vstd::std_specs::convert::FromSpecImpl;

verus! {

/// The shape a JSON value must have.
#[derive(Clone, Debug, PartialEq, Eq, Hash)]
pub enum MessyJsonInner {
    Array(MessyJsonArray),
    Bool(MessyJsonScalar),
    Number(MessyJsonNumeric),
    Obj(MessyJsonObject),
    String(MessyJsonScalar),
    Uuid(MessyJsonScalar),
}

/// A schema node, shared by reference count and never changed once built.
#[derive(Clone, Debug, PartialEq, Eq, Hash)]
pub struct MessyJson(pub Arc<MessyJsonInner>);

/// What was expected at the place of a `null`.
#[derive(Clone, Debug, PartialEq, Eq, Hash)]
pub enum MessyJsonExpected {
    Root(MessyJson),
    Obj(MessyJsonObject),
}

impl MessyJsonInner {
    /// Whether a value of this shape may be left out or be `null`.
    pub open spec fn is_optional(self) -> bool {
        match self {
            MessyJsonInner::Array(x) => x.optional,
            MessyJsonInner::Bool(x) => x.optional,
            MessyJsonInner::Number(x) => x.optional,
            MessyJsonInner::Obj(x) => x.is_optional(),
            MessyJsonInner::String(x) => x.optional,
            MessyJsonInner::Uuid(x) => x.optional,
        }
    }

    /// The JSON type this shape stands for.
    pub open spec fn kind(self) -> MessyJsonKind {
        match self {
            MessyJsonInner::Array(_) => MessyJsonKind::Array,
            MessyJsonInner::Bool(_) => MessyJsonKind::Bool,
            MessyJsonInner::Number(_) => MessyJsonKind::Number,
            MessyJsonInner::Obj(_) => MessyJsonKind::Object,
            MessyJsonInner::String(_) => MessyJsonKind::String,
            MessyJsonInner::Uuid(_) => MessyJsonKind::Uuid,
        }
    }

    /// Check if the active variant is optional.
    pub fn optional(&self) -> (r: bool)
        ensures
            r == self.is_optional(),
    {
        match self {
            MessyJsonInner::Array(x) => x.optional(),
            MessyJsonInner::Bool(x) => x.optional(),
            MessyJsonInner::Number(x) => x.optional(),
            MessyJsonInner::Obj(x) => x.inner().optional(),
            MessyJsonInner::String(x) => x.optional(),
            MessyJsonInner::Uuid(x) => x.optional(),
        }
    }

    /// The JSON type of the active variant.
    pub fn expected_kind(&self) -> (r: MessyJsonKind)
        ensures
            r == self.kind(),
    {
        match self {
            MessyJsonInner::Array(_) => MessyJsonKind::Array,
            MessyJsonInner::Bool(_) => MessyJsonKind::Bool,
            MessyJsonInner::Number(_) => MessyJsonKind::Number,
            MessyJsonInner::Obj(_) => MessyJsonKind::Object,
            MessyJsonInner::String(_) => MessyJsonKind::String,
            MessyJsonInner::Uuid(_) => MessyJsonKind::Uuid,
        }
    }
}

impl From<MessyJsonArray> for MessyJsonInner {
    fn from(x: MessyJsonArray) -> (r: Self) {
        MessyJsonInner::Array(x)
    }
}

impl FromSpecImpl<MessyJsonArray> for MessyJsonInner {
    open spec fn obeys_from_spec() -> bool {
        true
    }

    open spec fn from_spec(x: MessyJsonArray) -> Self {
        MessyJsonInner::Array(x)
    }
}

impl From<MessyJsonNumeric> for MessyJsonInner {
    fn from(x: MessyJsonNumeric) -> (r: Self) {
        MessyJsonInner::Number(x)
    }
}

impl FromSpecImpl<MessyJsonNumeric> for MessyJsonInner {
    open spec fn obeys_from_spec() -> bool {
        true
    }

    open spec fn from_spec(x: MessyJsonNumeric) -> Self {
        MessyJsonInner::Number(x)
    }
}

impl From<MessyJsonObject> for MessyJsonInner {
    fn from(x: MessyJsonObject) -> (r: Self) {
        MessyJsonInner::Obj(x)
    }
}

impl FromSpecImpl<MessyJsonObject> for MessyJsonInner {
    open spec fn obeys_from_spec() -> bool {
        true
    }

    open spec fn from_spec(x: MessyJsonObject) -> Self {
        MessyJsonInner::Obj(x)
    }
}

impl<'a> From<&'a MessyJsonObject> for MessyJsonInner {
    fn from(x: &'a MessyJsonObject) -> (r: Self) {
        MessyJsonInner::Obj(x.share())
    }
}

impl<'a> FromSpecImpl<&'a MessyJsonObject> for MessyJsonInner {
    open spec fn obeys_from_spec() -> bool {
        true
    }

    open spec fn from_spec(x: &'a MessyJsonObject) -> Self {
        MessyJsonInner::Obj(*x)
    }
}

impl<'a> From<&'a MessyJsonNumeric> for MessyJsonInner {
    fn from(x: &'a MessyJsonNumeric) -> (r: Self) {
        MessyJsonInner::Number(*x)
    }
}

impl<'a> FromSpecImpl<&'a MessyJsonNumeric> for MessyJsonInner {
    open spec fn obeys_from_spec() -> bool {
        true
    }

    open spec fn from_spec(x: &'a MessyJsonNumeric) -> Self {
        MessyJsonInner::Number(*x)
    }
}

impl MessyJson {
    /// The node behind the shared handle.
    pub open spec fn node(self) -> MessyJsonInner {
        *self.0
    }

    /// Wraps a node into a shared handle.
    pub fn from(x: MessyJsonInner) -> (r: Self)
        ensures
            r.node() == x,
    {
        MessyJson(Arc::new(x))
    }

    /// The node behind the shared handle.
    pub fn inner(&self) -> (r: &MessyJsonInner)
        ensures
            *r == self.node(),
    {
        &*self.0
    }

    /// Another handle to the same node.
    pub fn share(&self) -> (r: Self)
        ensures
            r == *self,
    {
        MessyJson(share_handle(&self.0))
    }

    /// Pairs this schema with settings, ready to validate documents.
    pub fn builder(&self, settings: MessyJsonSettings) -> (r: MessyJsonBuilder)
        ensures
            r.schema == *self,
            r.settings == settings,
    {
        MessyJsonBuilder::new(self, settings)
    }
}

/// `Arc::clone` of std: a second handle to the same allocation, so that what it points to
/// is what the first points to.
#[verifier::external_body]
pub(crate) fn share_handle<T>(node: &Arc<T>) -> (r: Arc<T>)
    ensures
        r == *node,
{
    Arc::clone(node)
}

} // verus!
