use crate::entries::{has_key, index_of, is_last, keys_of};
use crate::error::{MessyJsonFault, MessyJsonKind};
use crate::keys::ascending;
use crate::raw_value::MessyJsonValueRaw;
use crate::schema::{MessyJson, MessyJsonExpected, MessyJsonInner};
use crate::settings::MessyJsonSettings;
use crate::uuids::uuid_reading;
use crate::value::{MessyJsonNullType, MessyJsonValue};
use vstd::prelude::*;

verus! {

/// Whether a `null` is taken at the place of this schema.
pub open spec fn nullable(schema: MessyJson, settings: MessyJsonSettings) -> bool {
    schema.node().is_optional() || settings.all_optional
}

/// The value that stands for a field left out of the document.
pub open spec fn absent(schema: MessyJson) -> MessyJsonValue {
    MessyJsonValue::Null(MessyJsonNullType::Absent, MessyJsonExpected::Root(schema))
}

/// The value that stands for a `null` of the document.
pub open spec fn explicit_null(schema: MessyJson) -> MessyJsonValue {
    MessyJsonValue::Null(MessyJsonNullType::Null, MessyJsonExpected::Root(schema))
}

/// The fault that tells of a JSON type where another was asked for.
pub open spec fn mismatch(schema: MessyJson, doc: MessyJsonValueRaw) -> MessyJsonFault {
    MessyJsonFault::InvalidType { unexpected: doc.kind(), expected: schema.node().kind() }
}

/// The first fault of a document held to a schema, if there is one. A document without
/// fault is accepted.
pub open spec fn fault(
    schema: MessyJson,
    settings: MessyJsonSettings,
    doc: MessyJsonValueRaw,
) -> Option<MessyJsonFault>
    decreases doc, 0nat,
{
    if nullable(schema, settings) && doc is Null {
        None
    } else {
        match (schema.node(), doc) {
            (MessyJsonInner::Bool(_), MessyJsonValueRaw::Bool(_)) => None,
            (MessyJsonInner::String(_), MessyJsonValueRaw::String(_)) => None,
            (MessyJsonInner::Number(n), MessyJsonValueRaw::Number(x)) => if n.type_.holds(x) {
                None
            } else {
                Some(
                    MessyJsonFault::InvalidType {
                        unexpected: MessyJsonKind::WideNumber,
                        expected: MessyJsonKind::Number,
                    },
                )
            },
            (MessyJsonInner::Uuid(_), MessyJsonValueRaw::String(s)) => match uuid_reading(s@) {
                Ok(_) => None,
                Err(message) => Some(MessyJsonFault::Uuid { message }),
            },
            (MessyJsonInner::Array(a), MessyJsonValueRaw::Array(items)) => items_fault(
                a.items,
                settings,
                items@,
                0,
            ),
            (MessyJsonInner::Obj(o), MessyJsonValueRaw::Obj(entries)) => object_fault(
                o.props(),
                settings,
                entries@,
            ),
            _ => Some(mismatch(schema, doc)),
        }
    }
}

/// The first fault among the items of an array from position `from` on.
pub open spec fn items_fault(
    schema: MessyJson,
    settings: MessyJsonSettings,
    items: Seq<MessyJsonValueRaw>,
    from: int,
) -> Option<MessyJsonFault>
    decreases items, items.len() - from,
{
    if from < 0 || from >= items.len() {
        None
    } else {
        match fault(schema, settings, items[from]) {
            Some(f) => Some(f),
            None => items_fault(schema, settings, items, from + 1),
        }
    }
}

/// The first fault among the entries of an object from position `from` on, in the order
/// of the document: a key that the schema lacks, or the fault of a value.
pub open spec fn entries_fault(
    props: Seq<(String, MessyJson)>,
    settings: MessyJsonSettings,
    entries: Seq<(String, MessyJsonValueRaw)>,
    from: int,
) -> Option<MessyJsonFault>
    decreases entries, entries.len() - from,
{
    if from < 0 || from >= entries.len() {
        None
    } else if !has_key(props, entries[from].0@) {
        Some(MessyJsonFault::UnknownKey { key: entries[from].0@, expected: keys_of(props) })
    } else {
        match fault(props[index_of(props, entries[from].0@)].1, settings, entries[from].1) {
            Some(f) => Some(f),
            None => entries_fault(props, settings, entries, from + 1),
        }
    }
}

/// Whether the document sets the property with this key to `null`.
pub open spec fn set_to_null(entries: Seq<(String, MessyJsonValueRaw)>, key: Seq<char>) -> bool {
    exists|d: int| is_last(entries, d, key) && (#[trigger] entries[d]).1 is Null
}

/// The key of the first mandatory property, from position `from` on, of which `picked`
/// holds.
pub open spec fn first_mandatory(
    props: Seq<(String, MessyJson)>,
    from: int,
    picked: spec_fn(Seq<char>) -> bool,
) -> Option<Seq<char>>
    decreases props.len() - from,
{
    if from < 0 || from >= props.len() {
        None
    } else if !props[from].1.node().is_optional() && picked(props[from].0@) {
        Some(props[from].0@)
    } else {
        first_mandatory(props, from + 1, picked)
    }
}

/// The key of the first mandatory property that the entries leave out.
pub open spec fn missing_key<T>(
    props: Seq<(String, MessyJson)>,
    entries: Seq<(String, T)>,
) -> Option<Seq<char>> {
    first_mandatory(props, 0, |k: Seq<char>| !has_key(entries, k))
}

/// The key of the first mandatory property that the document sets to `null`.
pub open spec fn forced_null_key(
    props: Seq<(String, MessyJson)>,
    entries: Seq<(String, MessyJsonValueRaw)>,
) -> Option<Seq<char>> {
    first_mandatory(props, 0, |k: Seq<char>| set_to_null(entries, k))
}

/// Two ways of picking keys that agree on the keys of the properties pick the same first
/// mandatory property.
pub proof fn lemma_first_mandatory_agrees(
    props: Seq<(String, MessyJson)>,
    from: int,
    one: spec_fn(Seq<char>) -> bool,
    other: spec_fn(Seq<char>) -> bool,
)
    requires
        forall|i: int| 0 <= i < props.len() ==> one((#[trigger] props[i]).0@) == other(props[i].0@),
    ensures
        first_mandatory(props, from, one) == first_mandatory(props, from, other),
    decreases props.len() - from,
{
    if 0 <= from < props.len() {
        assert(one(props[from].0@) == other(props[from].0@));
        lemma_first_mandatory_agrees(props, from + 1, one, other);
    }
}

/// Where no mandatory property is picked from `from` on, each property from there on is
/// optional or not picked.
pub proof fn lemma_none_picked(
    props: Seq<(String, MessyJson)>,
    from: int,
    picked: spec_fn(Seq<char>) -> bool,
    i: int,
)
    requires
        first_mandatory(props, from, picked) is None,
        0 <= from <= i < props.len(),
    ensures
        props[i].1.node().is_optional() || !picked(props[i].0@),
    decreases props.len() - from,
{
    if from < i {
        lemma_none_picked(props, from + 1, picked, i);
    }
}

/// The fault of the presence of the properties, once every entry of the document has
/// been taken: under strict settings a mandatory property that is left out; under
/// relaxed settings that preserve mandatory fields, a mandatory property set to `null`.
pub open spec fn presence_fault(
    props: Seq<(String, MessyJson)>,
    settings: MessyJsonSettings,
    entries: Seq<(String, MessyJsonValueRaw)>,
) -> Option<MessyJsonFault> {
    if !settings.all_optional {
        match missing_key(props, entries) {
            Some(key) => Some(MessyJsonFault::MissingKey { key }),
            None => None,
        }
    } else if settings.preserve_mandatory {
        match forced_null_key(props, entries) {
            Some(key) => Some(MessyJsonFault::NullOnMandatory { key }),
            None => None,
        }
    } else {
        None
    }
}

/// The first fault of an object of the document: that of its entries, in the order of
/// the document, and after them that of the presence of the properties.
pub open spec fn object_fault(
    props: Seq<(String, MessyJson)>,
    settings: MessyJsonSettings,
    entries: Seq<(String, MessyJsonValueRaw)>,
) -> Option<MessyJsonFault>
    decreases entries, entries.len() + 1,
{
    match entries_fault(props, settings, entries, 0) {
        Some(f) => Some(f),
        None => presence_fault(props, settings, entries),
    }
}

/// Whether `out` is the validated value of the document `doc` under the schema.
pub open spec fn yields(
    schema: MessyJson,
    settings: MessyJsonSettings,
    doc: MessyJsonValueRaw,
    out: MessyJsonValue,
) -> bool
    decreases doc, 0nat,
{
    if nullable(schema, settings) && doc is Null {
        out == explicit_null(schema)
    } else {
        match (schema.node(), doc, out) {
            (MessyJsonInner::Bool(_), MessyJsonValueRaw::Bool(b), MessyJsonValue::Bool(v)) => v
                == b,
            (
                MessyJsonInner::String(_),
                MessyJsonValueRaw::String(s),
                MessyJsonValue::String(v),
            ) => v@ == s@,
            (
                MessyJsonInner::Number(n),
                MessyJsonValueRaw::Number(x),
                MessyJsonValue::Number(v),
            ) => n.type_.holds(x) && v == x,
            (MessyJsonInner::Uuid(_), MessyJsonValueRaw::String(s), MessyJsonValue::Uuid(v)) => {
                uuid_reading(s@) == Ok::<u128, Seq<char>>(v)
            },
            (
                MessyJsonInner::Array(a),
                MessyJsonValueRaw::Array(items),
                MessyJsonValue::Array(vs),
            ) => {
                &&& vs.0.len() == items.len()
                &&& forall|i: int|
                    0 <= i < items.len() ==> yields(
                        a.items,
                        settings,
                        items@[i],
                        #[trigger] vs.0@[i],
                    )
            },
            (MessyJsonInner::Obj(o), MessyJsonValueRaw::Obj(entries), MessyJsonValue::Obj(vs)) => {
                object_yields(o.props(), settings, entries@, vs.0@)
            },
            _ => false,
        }
    }
}

/// Whether a validated object gets an entry for each property that the document leaves
/// out: under strict settings, and under relaxed settings that preserve mandatory fields.
pub open spec fn fills_absent(settings: MessyJsonSettings) -> bool {
    !settings.all_optional || settings.preserve_mandatory
}

/// Whether `out` holds the validated entries of an object of the document: in ascending
/// order of their keys, one for each key of the document, with the validated value of
/// the last entry of that key; where absent fields are filled in, one for each property
/// of the schema, those that the document leaves out marked absent.
pub open spec fn object_yields(
    props: Seq<(String, MessyJson)>,
    settings: MessyJsonSettings,
    entries: Seq<(String, MessyJsonValueRaw)>,
    out: Seq<(String, MessyJsonValue)>,
) -> bool
    decreases entries, 1nat,
{
    &&& ascending(keys_of(out))
    &&& forall|e: int| 0 <= e < out.len() ==> has_key(props, (#[trigger] out[e]).0@)
    &&& forall|e: int, d: int|
        0 <= e < out.len() && is_last(entries, d, out[e].0@) ==> yields(
            props[index_of(props, out[e].0@)].1,
            settings,
            (#[trigger] entries[d]).1,
            (#[trigger] out[e]).1,
        )
    &&& forall|e: int|
        0 <= e < out.len() && !has_key(entries, (#[trigger] out[e]).0@) ==> out[e].1 == absent(
            props[index_of(props, out[e].0@)].1,
        )
    &&& forall|d: int| 0 <= d < entries.len() ==> has_key(out, (#[trigger] entries[d]).0@)
    &&& if fills_absent(settings) {
        keys_of(out) == keys_of(props)
    } else {
        forall|e: int| 0 <= e < out.len() ==> has_key(entries, (#[trigger] out[e]).0@)
    }
}

} // verus!
