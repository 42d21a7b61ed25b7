use crate::entries::{find_last_key, has_key, is_last};
use crate::error::{MessyJsonError, MessyJsonFault, MessyJsonKind};
use vstd::prelude::*;
use vstd::string::*;

verus! {

/// A JSON value of `serde_json`, carried from the reader to the converter.
#[verifier::external_type_specification]
#[verifier::external_body]
pub struct ExJsonValue(serde_json::Value);

/// What reading a text as JSON gives: the document as a tree, or nothing where the text
/// is JSON but holds a number that is no unsigned integer of 128 bits, or the message
/// that says why the text is no JSON.
pub uninterp spec fn json_reading(text: Seq<char>) -> Result<Option<MessyJsonValueRaw>, Seq<char>>;

/// `serde_json::from_str` at the type `serde_json::Value`, then the conversion of the
/// value it gives, or the message of its error.
#[verifier::external_body]
fn read_json(text: &str) -> (r: Result<Option<MessyJsonValueRaw>, String>)
    ensures
        match r {
            Ok(d) => json_reading(text@) == Ok::<Option<MessyJsonValueRaw>, Seq<char>>(d),
            Err(m) => json_reading(text@) == Err::<Option<MessyJsonValueRaw>, Seq<char>>(m@),
        },
{
    match serde_json::from_str::<serde_json::Value>(text) {
        Ok(v) => Ok(raw_of_json(&v)),
        Err(e) => Err(e.to_string()),
    }
}

/// What a JSON value of `serde_json` holds, as a document tree: nothing where it holds
/// a number that is no unsigned integer of 128 bits.
pub uninterp spec fn json_tree(v: serde_json::Value) -> Option<MessyJsonValueRaw>;

/// Converts a `serde_json::Value` node by node, variant for variant; a number through
/// `Number::as_u128`, and the entries of an object in the order in which its map hands
/// them out. Gives nothing where a number is no unsigned integer of 128 bits.
#[verifier::external_body]
pub(crate) fn raw_of_json(v: &serde_json::Value) -> (r: Option<MessyJsonValueRaw>)
    ensures
        r == json_tree(*v),
{
    match v {
        serde_json::Value::Null => Some(MessyJsonValueRaw::Null),
        serde_json::Value::Bool(b) => Some(MessyJsonValueRaw::Bool(*b)),
        serde_json::Value::Number(n) => n.as_u128().map(MessyJsonValueRaw::Number),
        serde_json::Value::String(s) => Some(MessyJsonValueRaw::String(s.clone())),
        serde_json::Value::Array(a) => a.iter().map(raw_of_json).collect::<Option<Vec<_>>>().map(
            MessyJsonValueRaw::Array,
        ),
        serde_json::Value::Object(o) => o.iter().map(
            |(k, x)| raw_of_json(x).map(|y| (k.clone(), y)),
        ).collect::<Option<Vec<_>>>().map(MessyJsonValueRaw::Obj),
    }
}

/// What parsing a text gives, from what reading it as JSON gave.
pub open spec fn parsed(reading: Result<Option<MessyJsonValueRaw>, Seq<char>>) -> Result<
    MessyJsonValueRaw,
    MessyJsonFault,
> {
    match reading {
        Ok(Some(doc)) => Ok(doc),
        Ok(None) => Err(MessyJsonFault::Source { message: "number out of range"@ }),
        Err(message) => Err(MessyJsonFault::Source { message }),
    }
}

/// Turns what reading a text as JSON gave into a document or an error.
pub fn document_of(reading: Result<Option<MessyJsonValueRaw>, String>) -> (r: Result<
    MessyJsonValueRaw,
    MessyJsonError,
>)
    ensures
        match (r, reading) {
            (Ok(doc), Ok(Some(d))) => doc == d,
            (Err(e), Ok(None)) => e@ == (MessyJsonFault::Source {
                message: "number out of range"@,
            }),
            (Err(e), Err(m)) => e@ == (MessyJsonFault::Source { message: m@ }),
            _ => false,
        },
{
    match reading {
        Ok(Some(doc)) => Ok(doc),
        Ok(None) => Err(
            MessyJsonError::Source { message: String::from_str("number out of range") },
        ),
        Err(message) => Err(MessyJsonError::Source { message }),
    }
}

/// A JSON document as a tree, held to no schema.
///
/// The entries of an object stand in the order in which they were given, and a key may
/// occur more than once. A document read from text by [`MessyJsonValueRaw::parse`] has
/// the entries of each object in the order of the text, each key once: of two entries
/// of the text with one key it holds the value of the later one, at the place of the
/// earlier one.
#[derive(Debug, PartialEq, Eq)]
pub enum MessyJsonValueRaw {
    Array(Vec<MessyJsonValueRaw>),
    Bool(bool),
    Number(u128),
    Obj(Vec<(String, MessyJsonValueRaw)>),
    String(String),
    Null,
}

impl MessyJsonValueRaw {
    /// Parses a text as a JSON document.
    pub fn parse(text: &str) -> (r: Result<MessyJsonValueRaw, MessyJsonError>)
        ensures
            match r {
                Ok(doc) => parsed(json_reading(text@)) == Ok::<MessyJsonValueRaw, MessyJsonFault>(
                    doc,
                ),
                Err(e) => parsed(json_reading(text@)) == Err::<MessyJsonValueRaw, MessyJsonFault>(
                    e@,
                ),
            },
    {
        document_of(read_json(text))
    }

    /// The document tree that a JSON value of `serde_json` holds, if it holds no number
    /// but unsigned integers of 128 bits.
    pub fn from_json(v: &serde_json::Value) -> (r: Option<MessyJsonValueRaw>)
        ensures
            r == json_tree(*v),
    {
        raw_of_json(v)
    }

    /// The value of the last entry with this key, where this node is an object that has
    /// one.
    pub fn get(&self, key: &str) -> (r: Option<&MessyJsonValueRaw>)
        ensures
            match r {
                Some(v) => self matches MessyJsonValueRaw::Obj(entries) && exists|d: int|
                    is_last(entries@, d, key@) && (#[trigger] entries@[d]).1 == *v,
                None => self matches MessyJsonValueRaw::Obj(entries) ==> !has_key(entries@, key@),
            },
    {
        match self {
            MessyJsonValueRaw::Obj(entries) => match find_last_key(entries, key) {
                Some(d) => Some(&entries[d].1),
                None => None,
            },
            _ => None,
        }
    }

    /// The JSON type of this node.
    pub open spec fn kind(self) -> MessyJsonKind {
        match self {
            MessyJsonValueRaw::Array(_) => MessyJsonKind::Array,
            MessyJsonValueRaw::Bool(_) => MessyJsonKind::Bool,
            MessyJsonValueRaw::Number(_) => MessyJsonKind::Number,
            MessyJsonValueRaw::Obj(_) => MessyJsonKind::Object,
            MessyJsonValueRaw::String(_) => MessyJsonKind::String,
            MessyJsonValueRaw::Null => MessyJsonKind::Null,
        }
    }

    /// The JSON type of this node.
    pub fn found_kind(&self) -> (r: MessyJsonKind)
        ensures
            r == self.kind(),
    {
        match self {
            MessyJsonValueRaw::Array(_) => MessyJsonKind::Array,
            MessyJsonValueRaw::Bool(_) => MessyJsonKind::Bool,
            MessyJsonValueRaw::Number(_) => MessyJsonKind::Number,
            MessyJsonValueRaw::Obj(_) => MessyJsonKind::Object,
            MessyJsonValueRaw::String(_) => MessyJsonKind::String,
            MessyJsonValueRaw::Null => MessyJsonKind::Null,
        }
    }
}

} // verus!
