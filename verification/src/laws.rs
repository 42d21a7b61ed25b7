use crate::builder::bare_object_fault;
use crate::entries::{has_key, index_of, is_last, keys_of, lemma_ascending_unique};
use crate::number::MessyJsonNumberType;
use crate::outcome::{
    absent, entries_fault, fault, fills_absent, first_mandatory, forced_null_key, items_fault,
    lemma_none_picked, missing_key, object_fault, object_yields, presence_fault, set_to_null,
    yields,
};
use crate::raw_value::MessyJsonValueRaw;
use crate::schema::{MessyJson, MessyJsonInner};
use crate::settings::MessyJsonSettings;
use crate::value::{agrees, entries_agree, items_agree, MessyJsonNullType, MessyJsonValue};
use vstd::prelude::*;

verus! {

/// Whether a validated value holds only what a document held to no schema can say back:
/// no mark of an absent field and no UUID.
pub open spec fn plain(value: MessyJsonValue) -> bool
    decreases value,
{
    match value {
        MessyJsonValue::Array(vs) => forall|i: int|
            0 <= i < vs.0.len() ==> plain(#[trigger] vs.0@[i]),
        MessyJsonValue::Obj(vs) => forall|e: int|
            0 <= e < vs.0.len() ==> plain((#[trigger] vs.0@[e]).1),
        MessyJsonValue::Uuid(_) => false,
        MessyJsonValue::Null(kind, _) => kind == MessyJsonNullType::Null,
        _ => true,
    }
}

/// The validated value of a document agrees with the document itself, wherever it holds
/// only what a document held to no schema can say back.
pub proof fn law_round_trip(
    schema: MessyJson,
    settings: MessyJsonSettings,
    doc: MessyJsonValueRaw,
    value: MessyJsonValue,
)
    requires
        yields(schema, settings, doc, value),
        plain(value),
    ensures
        agrees(value, doc),
    decreases doc,
{
    match (schema.node(), doc, value) {
        (MessyJsonInner::Array(a), MessyJsonValueRaw::Array(items), MessyJsonValue::Array(vs)) => {
            assert forall|i: int| 0 <= i < vs.0.len() implies agrees(
                #[trigger] vs.0@[i],
                items@[i],
            ) by {
                law_round_trip(a.items, settings, items@[i], vs.0@[i]);
            }
            assert(items_agree(vs.0@, items@));
        },
        (MessyJsonInner::Obj(o), MessyJsonValueRaw::Obj(entries), MessyJsonValue::Obj(vs)) => {
            let props = o.props();
            assert(object_yields(props, settings, entries@, vs.0@));
            assert forall|d: int| 0 <= d < entries.len() implies has_key(
                vs.0@,
                (#[trigger] entries@[d]).0@,
            ) by {}
            assert forall|e: int| 0 <= e < vs.0.len() implies has_key(
                entries@,
                (#[trigger] vs.0@[e]).0@,
            ) by {
                if !has_key(entries@, vs.0@[e].0@) {
                    assert(vs.0@[e].1 == absent(props[index_of(props, vs.0@[e].0@)].1));
                    assert(plain(vs.0@[e].1));
                }
            }
            assert forall|e: int, d: int|
                0 <= e < vs.0.len() && is_last(entries@, d, vs.0@[e].0@) implies agrees(
                (#[trigger] vs.0@[e]).1,
                (#[trigger] entries@[d]).1,
            ) by {
                assert(plain(vs.0@[e].1));
                law_round_trip(
                    props[index_of(props, vs.0@[e].0@)].1,
                    settings,
                    entries@[d].1,
                    vs.0@[e].1,
                );
            }
            assert(entries_agree(vs.0@, entries@));
        },
        _ => {},
    }
}

/// Where absent fields are filled in, a validated object has exactly one entry for each
/// property of its schema, under the key of the property and in the order of the
/// properties; the entry of a property that the document leaves out is the mark of an
/// absent field.
pub proof fn law_presence_complete(
    schema: MessyJson,
    settings: MessyJsonSettings,
    doc: MessyJsonValueRaw,
    value: MessyJsonValue,
)
    requires
        yields(schema, settings, doc, value),
        fills_absent(settings),
        schema.node() is Obj,
        doc is Obj,
    ensures
        value is Obj,
        value->Obj_0.0.len() == schema.node()->Obj_0.props().len(),
        keys_of(value->Obj_0.0@) == keys_of(schema.node()->Obj_0.props()),
        forall|i: int|
            0 <= i < schema.node()->Obj_0.props().len() && !has_key(
                doc->Obj_0@,
                (#[trigger] schema.node()->Obj_0.props()[i]).0@,
            ) ==> value->Obj_0.0@[i].1 == absent(schema.node()->Obj_0.props()[i].1),
{
    let props = schema.node()->Obj_0.props();
    let entries = doc->Obj_0@;
    let out = value->Obj_0.0@;
    assert(object_yields(props, settings, entries, out));
    assert(keys_of(out).len() == keys_of(props).len());
    assert forall|i: int|
        0 <= i < props.len() && !has_key(entries, (#[trigger] props[i]).0@) implies out[i].1
        == absent(props[i].1) by {
        assert(keys_of(out)[i] == keys_of(props)[i]);
        assert(out[i].0@ == props[i].0@);
        lemma_ascending_unique(props, i, index_of(props, out[i].0@));
    }
}

/// From an entry on whose key the schema lacks, or any entry before it, the entries of an
/// object have a fault.
proof fn lemma_unknown_key_faults(
    props: Seq<(String, MessyJson)>,
    settings: MessyJsonSettings,
    entries: Seq<(String, MessyJsonValueRaw)>,
    from: int,
    d: int,
)
    requires
        0 <= from <= d < entries.len(),
        !has_key(props, entries[d].0@),
    ensures
        entries_fault(props, settings, entries, from) is Some,
    decreases d - from,
{
    if from < d {
        lemma_unknown_key_faults(props, settings, entries, from + 1, d);
    }
}

/// A document that is an object with a key that its schema lacks is refused, whatever
/// the settings.
pub proof fn law_unknown_key_rejected(
    schema: MessyJson,
    settings: MessyJsonSettings,
    doc: MessyJsonValueRaw,
    d: int,
)
    requires
        schema.node() is Obj,
        doc is Obj,
        0 <= d < doc->Obj_0.len(),
        !has_key(schema.node()->Obj_0.props(), doc->Obj_0@[d].0@),
    ensures
        fault(schema, settings, doc) is Some,
{
    lemma_unknown_key_faults(schema.node()->Obj_0.props(), settings, doc->Obj_0@, 0, d);
}

/// From an entry on whose value has a fault under the schema of its property, or any
/// entry before it, the entries of an object have a fault.
proof fn lemma_entry_faults(
    props: Seq<(String, MessyJson)>,
    settings: MessyJsonSettings,
    entries: Seq<(String, MessyJsonValueRaw)>,
    from: int,
    d: int,
)
    requires
        0 <= from <= d < entries.len(),
        has_key(props, entries[d].0@),
        fault(props[index_of(props, entries[d].0@)].1, settings, entries[d].1) is Some,
    ensures
        entries_fault(props, settings, entries, from) is Some,
    decreases d - from,
{
    if from < d {
        lemma_entry_faults(props, settings, entries, from + 1, d);
    }
}

/// From an item on that has a fault, or any item before it, the items of an array have
/// a fault.
proof fn lemma_item_faults(
    schema: MessyJson,
    settings: MessyJsonSettings,
    items: Seq<MessyJsonValueRaw>,
    from: int,
    i: int,
)
    requires
        0 <= from <= i < items.len(),
        fault(schema, settings, items[i]) is Some,
    ensures
        items_fault(schema, settings, items, from) is Some,
    decreases i - from,
{
    if from < i {
        lemma_item_faults(schema, settings, items, from + 1, i);
    }
}

/// A fault anywhere inside refuses the whole document: an object is refused where the
/// value of one of its entries has a fault under the schema of its property.
pub proof fn law_fault_of_entry_rejects(
    schema: MessyJson,
    settings: MessyJsonSettings,
    doc: MessyJsonValueRaw,
    d: int,
)
    requires
        schema.node() is Obj,
        doc is Obj,
        0 <= d < doc->Obj_0.len(),
        has_key(schema.node()->Obj_0.props(), doc->Obj_0@[d].0@),
        fault(
            schema.node()->Obj_0.props()[index_of(
                schema.node()->Obj_0.props(),
                doc->Obj_0@[d].0@,
            )].1,
            settings,
            doc->Obj_0@[d].1,
        ) is Some,
    ensures
        fault(schema, settings, doc) is Some,
{
    lemma_entry_faults(schema.node()->Obj_0.props(), settings, doc->Obj_0@, 0, d);
}

/// A fault anywhere inside refuses the whole document: an array is refused where one of
/// its items has a fault under the schema of the items.
pub proof fn law_fault_of_item_rejects(
    schema: MessyJson,
    settings: MessyJsonSettings,
    doc: MessyJsonValueRaw,
    i: int,
)
    requires
        schema.node() is Array,
        doc is Array,
        0 <= i < doc->Array_0.len(),
        fault(schema.node()->Array_0.items, settings, doc->Array_0@[i]) is Some,
    ensures
        fault(schema, settings, doc) is Some,
{
    lemma_item_faults(schema.node()->Array_0.items, settings, doc->Array_0@, 0, i);
}

/// Under strict settings, a document that is an object and leaves out a mandatory
/// property of its schema is refused.
pub proof fn law_mandatory_enforced(
    schema: MessyJson,
    settings: MessyJsonSettings,
    doc: MessyJsonValueRaw,
    i: int,
)
    requires
        schema.node() is Obj,
        doc is Obj,
        !settings.all_optional,
        0 <= i < schema.node()->Obj_0.props().len(),
        !schema.node()->Obj_0.props()[i].1.node().is_optional(),
        !has_key(doc->Obj_0@, schema.node()->Obj_0.props()[i].0@),
    ensures
        fault(schema, settings, doc) is Some,
{
    let props = schema.node()->Obj_0.props();
    let entries = doc->Obj_0@;
    let picked = |k: Seq<char>| !has_key(entries, k);
    if first_mandatory(props, 0, picked) is None {
        lemma_none_picked(props, 0, picked, i);
    }
    assert(missing_key(props, entries) == first_mandatory(props, 0, picked));
    assert(object_fault(props, settings, entries) is Some);
}

/// Under relaxed settings, leaving a property out is never a fault of an object: once
/// its entries are without fault, the object is refused at most for a mandatory
/// property set to `null`.
pub proof fn law_absence_tolerated(
    props: Seq<(String, MessyJson)>,
    settings: MessyJsonSettings,
    entries: Seq<(String, MessyJsonValueRaw)>,
)
    requires
        settings.all_optional,
        entries_fault(props, settings, entries, 0) is None,
    ensures
        !(object_fault(props, settings, entries) matches Some(
            crate::error::MessyJsonFault::MissingKey { .. },
        )),
        !settings.preserve_mandatory ==> object_fault(props, settings, entries) is None,
{
}

/// Under relaxed settings that preserve mandatory fields, a document that is an object
/// and sets a mandatory property of its schema to `null` is refused.
pub proof fn law_null_on_mandatory_rejected(
    schema: MessyJson,
    settings: MessyJsonSettings,
    doc: MessyJsonValueRaw,
    i: int,
)
    requires
        schema.node() is Obj,
        doc is Obj,
        settings.all_optional,
        settings.preserve_mandatory,
        0 <= i < schema.node()->Obj_0.props().len(),
        !schema.node()->Obj_0.props()[i].1.node().is_optional(),
        set_to_null(doc->Obj_0@, schema.node()->Obj_0.props()[i].0@),
    ensures
        fault(schema, settings, doc) is Some,
{
    let props = schema.node()->Obj_0.props();
    let entries = doc->Obj_0@;
    let picked = |k: Seq<char>| set_to_null(entries, k);
    if first_mandatory(props, 0, picked) is None {
        lemma_none_picked(props, 0, picked, i);
    }
    assert(forced_null_key(props, entries) == first_mandatory(props, 0, picked));
    assert(presence_fault(props, settings, entries) is Some);
    assert(object_fault(props, settings, entries) is Some);
}

/// Under relaxed settings that preserve mandatory fields, a property that an accepted
/// document leaves out is marked absent in the validated object, be it mandatory or
/// not.
pub proof fn law_omitted_is_absent(
    schema: MessyJson,
    settings: MessyJsonSettings,
    doc: MessyJsonValueRaw,
    value: MessyJsonValue,
    i: int,
)
    requires
        yields(schema, settings, doc, value),
        settings.all_optional,
        settings.preserve_mandatory,
        schema.node() is Obj,
        doc is Obj,
        0 <= i < schema.node()->Obj_0.props().len(),
        !has_key(doc->Obj_0@, schema.node()->Obj_0.props()[i].0@),
    ensures
        value is Obj,
        value->Obj_0.0.len() == schema.node()->Obj_0.props().len(),
        value->Obj_0.0@[i].1 == absent(schema.node()->Obj_0.props()[i].1),
{
    law_presence_complete(schema, settings, doc, value);
}

/// An object builder refuses exactly what a builder for a schema of the same object
/// refuses, and for the same reason.
pub proof fn law_object_builder_faults_alike(
    schema: MessyJson,
    settings: MessyJsonSettings,
    doc: MessyJsonValueRaw,
)
    requires
        schema.node() is Obj,
    ensures
        bare_object_fault(schema.node()->Obj_0, settings, doc) == fault(schema, settings, doc),
{
}

/// A number that needs more than 64 bits is refused where the schema asks for a number
/// of 64 bits.
pub proof fn law_narrow_refuses_wide(
    schema: MessyJson,
    settings: MessyJsonSettings,
    n: u128,
)
    requires
        schema.node() matches MessyJsonInner::Number(numeric) && numeric.type_
            == MessyJsonNumberType::U64,
        n > u64::MAX,
    ensures
        fault(schema, settings, MessyJsonValueRaw::Number(n)) is Some,
{
}

/// Every number, those of up to 64 bits among them, is accepted as it is where the
/// schema asks for a number of 128 bits.
pub proof fn law_wide_accepts_all(schema: MessyJson, settings: MessyJsonSettings, n: u128)
    requires
        schema.node() matches MessyJsonInner::Number(numeric) && numeric.type_
            == MessyJsonNumberType::U128,
    ensures
        fault(schema, settings, MessyJsonValueRaw::Number(n)) is None,
        yields(schema, settings, MessyJsonValueRaw::Number(n), MessyJsonValue::Number(n)),
{
}

} // verus!
