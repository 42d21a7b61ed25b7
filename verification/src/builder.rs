use crate::entries::{
    find_key, has_key, index_of, insert_entry, is_last, keys_of, lemma_ascending_unique,
    lemma_has_last,
};
use crate::error::{texts, MessyJsonError, MessyJsonKind};
use crate::keys::ascending;
use crate::object::MessyJsonObject;
use crate::outcome::{
    entries_fault, fault, fills_absent, forced_null_key, items_fault,
    lemma_first_mandatory_agrees, missing_key, object_fault, object_yields, set_to_null, yields,
};
use crate::raw_value::{json_reading, parsed, MessyJsonValueRaw};
use crate::join::{
    join_keys, left_after, lemma_walk_begins, lemma_walk_goes_on, right_after, walk_at, KeyJoin,
};
use crate::outcome::first_mandatory;
use crate::reconcile::{fill_absent, filled, first_missing, holds_null, nulled_key};
use crate::schema::{MessyJson, MessyJsonExpected, MessyJsonInner};
use crate::settings::MessyJsonSettings;
use crate::uuids::read_uuid;
use crate::value::{
    MessyJsonArrayValue, MessyJsonNullType, MessyJsonObjectValue, MessyJsonValue,
    MessyJsonValueContainer,
};
use vstd::prelude::*;

verus! {

/// A schema paired with settings: what validates a document.
#[derive(Clone, Debug, PartialEq, Eq)]
pub struct MessyJsonBuilder {
    pub schema: MessyJson,
    pub settings: MessyJsonSettings,
}

/// An object schema paired with settings: what validates a document that is an object.
#[derive(Clone, Debug, PartialEq, Eq)]
pub struct MessyJsonObjectBuilder {
    pub schema: MessyJsonObject,
    pub settings: MessyJsonSettings,
}

/// What holds of the validated entries `res` once the first `d` entries of an object of
/// the document have been taken: each stands for a property of the schema and for a key
/// among those entries, with the validated value of the last of them that has its key;
/// and each key among those entries has its entry.
pub open spec fn walked(
    props: Seq<(String, MessyJson)>,
    settings: MessyJsonSettings,
    entries: Seq<(String, MessyJsonValueRaw)>,
    d: int,
    res: Seq<(String, MessyJsonValue)>,
) -> bool {
    &&& forall|e: int| 0 <= e < res.len() ==> has_key(props, (#[trigger] res[e]).0@)
    &&& forall|e: int, x: int|
        0 <= e < res.len() && is_last(entries.take(d), x, res[e].0@) ==> yields(
            props[index_of(props, res[e].0@)].1,
            settings,
            (#[trigger] entries[x]).1,
            (#[trigger] res[e]).1,
        )
    &&& forall|e: int| 0 <= e < res.len() ==> has_key(entries.take(d), (#[trigger] res[e]).0@)
    &&& forall|x: int| 0 <= x < d ==> has_key(res, (#[trigger] entries[x]).0@)
}

/// Taking one more entry of the document, and putting its validated value into the
/// entries, keeps `walked`.
proof fn lemma_walk_step(
    props: Seq<(String, MessyJson)>,
    settings: MessyJsonSettings,
    entries: Seq<(String, MessyJsonValueRaw)>,
    d: int,
    before: Seq<(String, MessyJsonValue)>,
    after: Seq<(String, MessyJsonValue)>,
    p: int,
    replaced: bool,
    entry: (String, MessyJsonValue),
)
    requires
        0 <= d < entries.len(),
        walked(props, settings, entries, d, before),
        ascending(keys_of(before)),
        0 <= p <= before.len(),
        replaced ==> p < before.len() && before[p].0@ == entry.0@ && after == before.update(
            p,
            entry,
        ),
        !replaced ==> !has_key(before, entry.0@) && after == before.insert(p, entry),
        entry.0@ == entries[d].0@,
        has_key(props, entry.0@),
        yields(props[index_of(props, entry.0@)].1, settings, entries[d].1, entry.1),
    ensures
        walked(props, settings, entries, d + 1, after),
{
    let seen = entries.take(d);
    let seen_next = entries.take(d + 1);
    assert(seen_next[d] == entries[d]);
    assert(after[p] == entry);
    assert forall|e: int| 0 <= e < after.len() implies has_key(props, (#[trigger] after[e]).0@)
        && has_key(seen_next, after[e].0@) && (forall|x: int|
        is_last(seen_next, x, after[e].0@) ==> yields(
            props[index_of(props, after[e].0@)].1,
            settings,
            (#[trigger] entries[x]).1,
            after[e].1,
        )) by {
        if e == p {
            assert(seen_next[d].0@ == after[e].0@);
            assert forall|x: int| is_last(seen_next, x, after[e].0@) implies yields(
                props[index_of(props, after[e].0@)].1,
                settings,
                (#[trigger] entries[x]).1,
                after[e].1,
            ) by {
                if x < d {
                    assert(seen_next[d].0@ != after[e].0@);
                }
            }
        } else {
            let e0 = if replaced || e < p {
                e
            } else {
                e - 1
            };
            assert(after[e] == before[e0]);
            if before[e0].0@ == entry.0@ {
                if replaced {
                    lemma_ascending_unique(before, e0, p);
                } else {
                    assert(has_key(before, entry.0@));
                }
            }
            assert(has_key(seen, before[e0].0@));
            let w = choose|w: int| 0 <= w < seen.len() && (#[trigger] seen[w]).0@ == before[e0].0@;
            assert(seen_next[w] == seen[w]);
            assert forall|x: int| is_last(seen_next, x, after[e].0@) implies yields(
                props[index_of(props, after[e].0@)].1,
                settings,
                (#[trigger] entries[x]).1,
                after[e].1,
            ) by {
                assert(x < d);
                assert(seen[x] == seen_next[x]);
                assert forall|later: int| x < later < seen.len() implies (#[trigger] seen[later]).0@
                    != before[e0].0@ by {
                    assert(seen_next[later] == seen[later]);
                }
                assert(is_last(seen, x, before[e0].0@));
            }
        }
    }
    assert forall|x: int| 0 <= x < d + 1 implies has_key(after, (#[trigger] entries[x]).0@) by {
        if x == d {
            assert(after[p].0@ == entries[x].0@);
        } else {
            let e0 = choose|e0: int|
                0 <= e0 < before.len() && (#[trigger] before[e0]).0@ == entries[x].0@;
            let e = if replaced || e0 < p {
                e0
            } else {
                e0 + 1
            };
            assert(after[e].0@ == entries[x].0@);
        }
    }
}

/// Under settings that take every field as optional, the validated value is an explicit
/// `null` exactly where the document holds `null`.
proof fn lemma_null_of_null(
    schema: MessyJson,
    settings: MessyJsonSettings,
    doc: MessyJsonValueRaw,
    out: MessyJsonValue,
)
    requires
        settings.all_optional,
        yields(schema, settings, doc, out),
    ensures
        doc is Null <==> out matches MessyJsonValue::Null(MessyJsonNullType::Null, _),
{
}

/// The error that tells of a JSON type where another was asked for.
fn invalid_type(schema: &MessyJson, doc: &MessyJsonValueRaw) -> (e: MessyJsonError)
    ensures
        e@ == crate::outcome::mismatch(*schema, *doc),
{
    MessyJsonError::InvalidType {
        unexpected: doc.found_kind(),
        expected: schema.inner().expected_kind(),
    }
}

/// The keys of the properties of an object schema, in their order.
fn expected_keys(props: &Vec<(String, MessyJson)>) -> (r: Vec<String>)
    ensures
        texts(r@) == keys_of(props@),
{
    let mut out: Vec<String> = Vec::new();
    let mut i: usize = 0;
    while i < props.len()
        invariant
            i <= props.len(),
            out.len() == i,
            forall|a: int| 0 <= a < i ==> (#[trigger] out@[a])@ == props@[a].0@,
        decreases props.len() - i,
    {
        out.push(props[i].0.clone());
        i += 1;
    }
    assert(texts(out@) =~= keys_of(props@));
    out
}

/// Validates one node of a document against a schema: a `null` where the schema or the
/// settings take one; else the value that the schema asks for, or the first fault.
pub fn deserialize_node(
    schema: &MessyJson,
    settings: MessyJsonSettings,
    doc: &MessyJsonValueRaw,
) -> (r: Result<MessyJsonValue, MessyJsonError>)
    ensures
        match r {
            Ok(v) => fault(*schema, settings, *doc) is None && yields(*schema, settings, *doc, v),
            Err(e) => fault(*schema, settings, *doc) == Some(e@),
        },
    decreases *doc, 0nat,
{
    let node = schema.inner();
    if node.optional() || settings.all_optional() {
        if let MessyJsonValueRaw::Null = doc {
            return Ok(
                MessyJsonValue::Null(
                    MessyJsonNullType::Null,
                    MessyJsonExpected::Root(schema.share()),
                ),
            );
        }
    }
    match node {
        MessyJsonInner::Bool(_) => match doc {
            MessyJsonValueRaw::Bool(b) => Ok(MessyJsonValue::Bool(*b)),
            _ => Err(invalid_type(schema, doc)),
        },
        MessyJsonInner::String(_) => match doc {
            MessyJsonValueRaw::String(s) => Ok(MessyJsonValue::String(s.clone())),
            _ => Err(invalid_type(schema, doc)),
        },
        MessyJsonInner::Number(n) => match doc {
            MessyJsonValueRaw::Number(x) => {
                if n.type_().admits(*x) {
                    Ok(MessyJsonValue::Number(*x))
                } else {
                    Err(
                        MessyJsonError::InvalidType {
                            unexpected: MessyJsonKind::WideNumber,
                            expected: MessyJsonKind::Number,
                        },
                    )
                }
            },
            _ => Err(invalid_type(schema, doc)),
        },
        MessyJsonInner::Uuid(_) => match doc {
            MessyJsonValueRaw::String(s) => match read_uuid(s.as_str()) {
                Ok(id) => Ok(MessyJsonValue::Uuid(id)),
                Err(message) => Err(MessyJsonError::Uuid { message }),
            },
            _ => Err(invalid_type(schema, doc)),
        },
        MessyJsonInner::Array(a) => match doc {
            MessyJsonValueRaw::Array(items) => visit_seq(a.items(), settings, items),
            _ => Err(invalid_type(schema, doc)),
        },
        MessyJsonInner::Obj(o) => match doc {
            MessyJsonValueRaw::Obj(entries) => messy_json_visit_map(o, settings, entries),
            _ => Err(invalid_type(schema, doc)),
        },
    }
}

/// Validates the items of an array, each against the schema of the items, up to the
/// first fault.
pub fn visit_seq(
    schema: &MessyJson,
    settings: MessyJsonSettings,
    items: &Vec<MessyJsonValueRaw>,
) -> (r: Result<MessyJsonValue, MessyJsonError>)
    ensures
        match r {
            Ok(v) => {
                &&& items_fault(*schema, settings, items@, 0) is None
                &&& v matches MessyJsonValue::Array(vs)
                &&& vs.0.len() == items.len()
                &&& forall|i: int|
                    0 <= i < items.len() ==> yields(
                        *schema,
                        settings,
                        items@[i],
                        #[trigger] vs.0@[i],
                    )
            },
            Err(e) => items_fault(*schema, settings, items@, 0) == Some(e@),
        },
    decreases *items, 1nat,
{
    let mut res: Vec<MessyJsonValue> = Vec::new();
    let mut i: usize = 0;
    while i < items.len()
        invariant
            i <= items.len(),
            res.len() == i,
            items_fault(*schema, settings, items@, 0) == items_fault(
                *schema,
                settings,
                items@,
                i as int,
            ),
            forall|a: int|
                0 <= a < i ==> yields(*schema, settings, items@[a], #[trigger] res@[a]),
        decreases items.len() - i,
    {
        match deserialize_node(schema, settings, &items[i]) {
            Ok(v) => {
                res.push(v);
            },
            Err(e) => {
                return Err(e);
            },
        }
        i += 1;
    }
    Ok(MessyJsonValue::Array(MessyJsonArrayValue::from(res)))
}

/// Validates the entries of an object against an object schema.
///
/// The entries are taken in the order of the document: a key that the schema lacks is a
/// fault whatever the settings, and each value is validated against the schema of its
/// property; of two entries with one key the later one stays. Then the presence of the
/// properties is checked: under strict settings no mandatory property may be left out;
/// under relaxed settings that preserve mandatory fields, none may be set to `null`. In
/// both, each property that is left out gets a mark of absence. Under relaxed settings
/// that preserve nothing, the object holds the entries of the document alone.
pub fn messy_json_visit_map(
    obj: &MessyJsonObject,
    settings: MessyJsonSettings,
    entries: &Vec<(String, MessyJsonValueRaw)>,
) -> (r: Result<MessyJsonValue, MessyJsonError>)
    ensures
        match r {
            Ok(v) => {
                &&& object_fault(obj.props(), settings, entries@) is None
                &&& v matches MessyJsonValue::Obj(vs)
                &&& object_yields(obj.props(), settings, entries@, vs.0@)
            },
            Err(e) => object_fault(obj.props(), settings, entries@) == Some(e@),
        },
    decreases *entries, 1nat,
{
    let props = obj.inner().properties();
    let mut res: Vec<(String, MessyJsonValue)> = Vec::new();
    let mut d: usize = 0;
    while d < entries.len()
        invariant
            d <= entries.len(),
            props@ == obj.props(),
            ascending(keys_of(props@)),
            ascending(keys_of(res@)),
            walked(props@, settings, entries@, d as int, res@),
            entries_fault(props@, settings, entries@, 0) == entries_fault(
                props@,
                settings,
                entries@,
                d as int,
            ),
        decreases entries.len() - d,
    {
        let key = entries[d].0.as_str();
        let found = match find_key(props, key) {
            Some(p) => p,
            None => {
                return Err(
                    MessyJsonError::UnknownKey {
                        key: entries[d].0.clone(),
                        expected: expected_keys(props),
                    },
                );
            },
        };
        proof {
            lemma_ascending_unique(props@, found as int, index_of(props@, key@));
        }
        let value = match deserialize_node(&props[found].1, settings, &entries[d].1) {
            Ok(v) => v,
            Err(e) => {
                return Err(e);
            },
        };
        let ghost before = res@;
        let own_key = props[found].0.clone();
        let placed = insert_entry(&mut res, own_key, value);
        proof {
            lemma_walk_step(
                props@,
                settings,
                entries@,
                d as int,
                before,
                res@,
                placed.0 as int,
                placed.1,
                (own_key, value),
            );
        }
        d += 1;
    }
    proof {
        assert(entries@.take(d as int) == entries@);
    }
    let ghost seen = res@;
    if !settings.all_optional() {
        proof {
            lemma_first_mandatory_agrees(
                props@,
                0,
                |k: Seq<char>| !has_key(seen, k),
                |k: Seq<char>| !has_key(entries@, k),
            );
        }
        match MessyJsonBuilder::compare_obj(obj, &mut res) {
            Some(key) => {
                return Err(MessyJsonError::MissingKey { key });
            },
            None => {},
        }
        proof {
            lemma_filled_yields(props@, settings, entries@, seen, res@);
        }
    } else if settings.preserve_mandatory() {
        proof {
            lemma_nulled_agrees(props@, settings, entries@, seen);
        }
        match MessyJsonBuilder::compare_obj_forced_null(obj, &res) {
            Some(key) => {
                return Err(MessyJsonError::NullOnMandatory { key });
            },
            None => {},
        }
        fill_absent(obj, &mut res);
        proof {
            lemma_filled_yields(props@, settings, entries@, seen, res@);
        }
    }
    Ok(MessyJsonValue::Obj(MessyJsonObjectValue::from(res)))
}

/// The validated entries, with a mark of absence filled in for each property that the
/// document leaves out, are what the validation of the object yields where absent
/// fields are filled in.
proof fn lemma_filled_yields(
    props: Seq<(String, MessyJson)>,
    settings: MessyJsonSettings,
    entries: Seq<(String, MessyJsonValueRaw)>,
    seen: Seq<(String, MessyJsonValue)>,
    out: Seq<(String, MessyJsonValue)>,
)
    requires
        fills_absent(settings),
        ascending(keys_of(props)),
        walked(props, settings, entries, entries.len() as int, seen),
        filled(props, seen, out),
    ensures
        object_yields(props, settings, entries, out),
{
    assert(entries.take(entries.len() as int) == entries);
    assert(keys_of(out) =~= keys_of(props));
    assert forall|e: int| 0 <= e < out.len() implies has_key(props, (#[trigger] out[e]).0@)
        && index_of(props, out[e].0@) == e by {
        assert(props[e].0@ == out[e].0@);
        lemma_ascending_unique(props, e, index_of(props, out[e].0@));
    }
    assert forall|e: int, d: int|
        0 <= e < out.len() && is_last(entries, d, out[e].0@) implies yields(
        props[index_of(props, out[e].0@)].1,
        settings,
        (#[trigger] entries[d]).1,
        (#[trigger] out[e]).1,
    ) by {
        assert(has_key(seen, entries[d].0@));
        let s = choose|s: int| 0 <= s < seen.len() && (#[trigger] seen[s]).0@ == entries[d].0@;
        assert(out[e].1 == seen[s].1);
        assert(yields(props[index_of(props, seen[s].0@)].1, settings, entries[d].1, seen[s].1));
    }
    assert forall|e: int|
        0 <= e < out.len() && !has_key(entries, (#[trigger] out[e]).0@) implies out[e].1
        == crate::outcome::absent(props[index_of(props, out[e].0@)].1) by {
        if has_key(seen, props[e].0@) {
            let s = choose|s: int| 0 <= s < seen.len() && (#[trigger] seen[s]).0@ == props[e].0@;
            assert(has_key(entries, seen[s].0@));
        }
    }
    assert forall|d: int| 0 <= d < entries.len() implies has_key(
        out,
        (#[trigger] entries[d]).0@,
    ) by {
        assert(has_key(seen, entries[d].0@));
        let s = choose|s: int| 0 <= s < seen.len() && (#[trigger] seen[s]).0@ == entries[d].0@;
        assert(has_key(props, seen[s].0@));
        let i = index_of(props, seen[s].0@);
        assert(out[i].0@ == entries[d].0@);
    }
}

/// Under settings that take every field as optional, a mandatory property holds an
/// explicit `null` among the validated entries exactly where the document sets it to
/// `null`.
proof fn lemma_nulled_agrees(
    props: Seq<(String, MessyJson)>,
    settings: MessyJsonSettings,
    entries: Seq<(String, MessyJsonValueRaw)>,
    seen: Seq<(String, MessyJsonValue)>,
)
    requires
        settings.all_optional,
        walked(props, settings, entries, entries.len() as int, seen),
    ensures
        nulled_key(props, seen) == forced_null_key(props, entries),
{
    assert(entries.take(entries.len() as int) == entries);
    let one = |k: Seq<char>| holds_null(seen, k);
    let other = |k: Seq<char>| set_to_null(entries, k);
    assert forall|k: Seq<char>| #[trigger] one(k) == other(k) by {
        if holds_null(seen, k) {
            let e = choose|e: int|
                0 <= e < seen.len() && (#[trigger] seen[e]).0@ == k
                    && seen[e].1 matches MessyJsonValue::Null(MessyJsonNullType::Null, _);
            assert(has_key(entries, seen[e].0@));
            lemma_has_last(entries, k);
            let d = choose|d: int| is_last(entries, d, k);
            assert(yields(props[index_of(props, seen[e].0@)].1, settings, entries[d].1, seen[e].1));
            lemma_null_of_null(
                props[index_of(props, seen[e].0@)].1,
                settings,
                entries[d].1,
                seen[e].1,
            );
            assert(set_to_null(entries, k));
        }
        if set_to_null(entries, k) {
            let d = choose|d: int| is_last(entries, d, k) && (#[trigger] entries[d]).1 is Null;
            assert(has_key(seen, entries[d].0@));
            let e = choose|e: int| 0 <= e < seen.len() && (#[trigger] seen[e]).0@ == k;
            assert(yields(props[index_of(props, seen[e].0@)].1, settings, entries[d].1, seen[e].1));
            lemma_null_of_null(
                props[index_of(props, seen[e].0@)].1,
                settings,
                entries[d].1,
                seen[e].1,
            );
            assert(holds_null(seen, k));
        }
    }
    lemma_first_mandatory_agrees(props, 0, one, other);
}

/// What a schema paired with settings offers, whatever the kind of schema.
pub trait MessyJsonObjectTrait: Sized {
    /// The kind of schema that is paired with settings.
    type Input;

    /// The schema that is held.
    spec fn held_schema(&self) -> Self::Input;

    /// The settings that are held.
    spec fn held_settings(&self) -> MessyJsonSettings;

    /// Pairs a schema with settings.
    fn new(schema: &Self::Input, settings: MessyJsonSettings) -> (r: Self)
        ensures
            r.held_schema() == *schema,
            r.held_settings() == settings,
    ;

    /// The schema that documents are held to.
    fn inner(&self) -> (r: &Self::Input)
        ensures
            *r == self.held_schema(),
    ;

    /// The settings that documents are validated under.
    fn settings(&self) -> (r: &MessyJsonSettings)
        ensures
            *r == self.held_settings(),
    ;

    /// A builder for a nested schema.
    fn new_nested(&self, schema: &MessyJson, settings: MessyJsonSettings) -> (r: MessyJsonBuilder)
        ensures
            r.schema == *schema,
            r.settings == settings,
    ;

    /// Checks that the entries of a validated object leave out no mandatory property, and
    /// fills in a mark of absence for each optional property that they leave out.
    ///
    /// Returns the key of the first mandatory property that is left out, and then leaves
    /// the entries as they are; or `None`, and then the entries hold one entry for each
    /// property of the schema.
    fn compare_obj(schema: &MessyJsonObject, res: &mut Vec<(String, MessyJsonValue)>) -> (missing:
        Option<String>)
        requires
            ascending(keys_of(old(res)@)),
            forall|e: int|
                0 <= e < old(res).len() ==> has_key(schema.props(), (#[trigger] old(res)@[e]).0@),
        ensures
            match missing {
                Some(k) => missing_key(schema.props(), old(res)@) == Some(k@) && final(res)@
                    == old(res)@,
                None => missing_key(schema.props(), old(res)@) is None && filled(
                    schema.props(),
                    old(res)@,
                    final(res)@,
                ),
            },
    {
        match first_missing(schema, res) {
            Some(key) => Some(key),
            None => {
                fill_absent(schema, res);
                None
            },
        }
    }

    /// Looks for a mandatory property that the entries of a validated object set to an
    /// explicit `null`, and returns the key of the first one.
    fn compare_obj_forced_null(
        schema: &MessyJsonObject,
        res: &Vec<(String, MessyJsonValue)>,
    ) -> (nulled: Option<String>)
        requires
            ascending(keys_of(res@)),
        ensures
            match nulled {
                Some(k) => nulled_key(schema.props(), res@) == Some(k@),
                None => nulled_key(schema.props(), res@) is None,
            },
    {
        let props = schema.inner().properties();
        let steps = join_keys(props, res);
        let ghost picked = |k: Seq<char>| holds_null(res@, k);
        let ghost mut i: int = 0;
        let ghost mut j: int = 0;
        let mut k: usize = 0;
        proof {
            assert(props@.len() == props.len() && res@.len() == res.len());
            lemma_walk_begins(steps@, props@, res@);
        }
        while k < steps.len()
            invariant
                walk_at(steps@, props@, res@, k as int, i, j),
                props@ == schema.props(),
                picked == (|k: Seq<char>| holds_null(res@, k)),
                first_mandatory(props@, 0, picked) == first_mandatory(props@, i, picked),
            decreases steps.len() - k,
        {
            proof {
                lemma_walk_goes_on(steps@, props@, res@, k as int, i, j);
            }
            match steps[k] {
                KeyJoin::Left(x) => {
                    assert(!picked(props@[i].0@));
                },
                KeyJoin::Both(x, y) => {
                    let is_null = match &res[y].1 {
                        MessyJsonValue::Null(MessyJsonNullType::Null, _) => true,
                        _ => false,
                    };
                    if is_null && !props[x].1.inner().optional() {
                        assert(picked(props@[i].0@));
                        return Some(props[x].0.clone());
                    }
                    proof {
                        if !is_null {
                            assert forall|e: int|
                                0 <= e < res@.len() && (#[trigger] res@[e]).0@
                                    == props@[i].0@ implies !(res@[e].1 matches MessyJsonValue::Null(
                                MessyJsonNullType::Null,
                                _,
                            )) by {
                                lemma_ascending_unique(res@, e, j);
                            }
                            assert(!picked(props@[i].0@));
                        }
                    }
                },
                KeyJoin::Right(y) => {},
            }
            proof {
                i = left_after(steps@[k as int], i);
                j = right_after(steps@[k as int], j);
            }
            k += 1;
        }
        proof {
            lemma_walk_goes_on(steps@, props@, res@, k as int, i, j);
        }
        None
    }
}

impl MessyJsonObjectTrait for MessyJsonBuilder {
    type Input = MessyJson;

    open spec fn held_schema(&self) -> MessyJson {
        self.schema
    }

    open spec fn held_settings(&self) -> MessyJsonSettings {
        self.settings
    }

    fn new(schema: &MessyJson, settings: MessyJsonSettings) -> (r: Self) {
        MessyJsonBuilder { schema: schema.share(), settings }
    }

    fn inner(&self) -> (r: &MessyJson) {
        &self.schema
    }

    fn settings(&self) -> (r: &MessyJsonSettings) {
        &self.settings
    }

    fn new_nested(&self, schema: &MessyJson, settings: MessyJsonSettings) -> (r: MessyJsonBuilder) {
        MessyJsonBuilder { schema: schema.share(), settings }
    }
}

impl MessyJsonObjectTrait for MessyJsonObjectBuilder {
    type Input = MessyJsonObject;

    open spec fn held_schema(&self) -> MessyJsonObject {
        self.schema
    }

    open spec fn held_settings(&self) -> MessyJsonSettings {
        self.settings
    }

    fn new(schema: &MessyJsonObject, settings: MessyJsonSettings) -> (r: Self) {
        MessyJsonObjectBuilder { schema: schema.share(), settings }
    }

    fn inner(&self) -> (r: &MessyJsonObject) {
        &self.schema
    }

    fn settings(&self) -> (r: &MessyJsonSettings) {
        &self.settings
    }

    fn new_nested(&self, schema: &MessyJson, settings: MessyJsonSettings) -> (r: MessyJsonBuilder) {
        MessyJsonBuilder { schema: schema.share(), settings }
    }
}

impl MessyJsonBuilder {
    /// Validates a document: the validated value where the document has no fault, else
    /// its first fault.
    pub fn deserialize(&self, doc: &MessyJsonValueRaw) -> (r: Result<
        MessyJsonValueContainer,
        MessyJsonError,
    >)
        ensures
            match r {
                Ok(c) => fault(self.schema, self.settings, *doc) is None && yields(
                    self.schema,
                    self.settings,
                    *doc,
                    c.val,
                ),
                Err(e) => fault(self.schema, self.settings, *doc) == Some(e@),
            },
    {
        match deserialize_node(&self.schema, self.settings, doc) {
            Ok(v) => Ok(MessyJsonValueContainer::new(v)),
            Err(e) => Err(e),
        }
    }

    /// Parses a text as JSON and validates the document: the error of the parser where
    /// the text is no document, else what validating the document gives.
    pub fn deserialize_str(&self, text: &str) -> (r: Result<
        MessyJsonValueContainer,
        MessyJsonError,
    >)
        ensures
            match parsed(json_reading(text@)) {
                Ok(doc) => match r {
                    Ok(c) => fault(self.schema, self.settings, doc) is None && yields(
                        self.schema,
                        self.settings,
                        doc,
                        c.val,
                    ),
                    Err(e) => fault(self.schema, self.settings, doc) == Some(e@),
                },
                Err(f) => r matches Err(e) && e@ == f,
            },
    {
        match MessyJsonValueRaw::parse(text) {
            Ok(doc) => self.deserialize(&doc),
            Err(e) => Err(e),
        }
    }
}

/// The first fault of a document held to an object schema alone: a `null` is taken
/// where the object is optional or the settings take every field as optional.
pub open spec fn bare_object_fault(
    obj: MessyJsonObject,
    settings: MessyJsonSettings,
    doc: MessyJsonValueRaw,
) -> Option<crate::error::MessyJsonFault> {
    match doc {
        MessyJsonValueRaw::Null if obj.is_optional() || settings.all_optional => None,
        MessyJsonValueRaw::Obj(entries) => object_fault(obj.props(), settings, entries@),
        _ => Some(
            crate::error::MessyJsonFault::InvalidType {
                unexpected: doc.kind(),
                expected: MessyJsonKind::Object,
            },
        ),
    }
}

/// Whether `out` is the validated value of a document held to an object schema alone. A
/// `null` that is taken in place of the object is an explicit null, with the object
/// schema as what was expected.
pub open spec fn bare_object_yields(
    obj: MessyJsonObject,
    settings: MessyJsonSettings,
    doc: MessyJsonValueRaw,
    out: MessyJsonValue,
) -> bool {
    match doc {
        MessyJsonValueRaw::Null if obj.is_optional() || settings.all_optional => out
            == MessyJsonValue::Null(MessyJsonNullType::Null, MessyJsonExpected::Obj(obj)),
        MessyJsonValueRaw::Obj(entries) => out matches MessyJsonValue::Obj(vs) && object_yields(
            obj.props(),
            settings,
            entries@,
            vs.0@,
        ),
        _ => false,
    }
}

impl MessyJsonObjectBuilder {
    /// Validates a document that is to be an object: the validated object where the
    /// document has no fault, else its first fault.
    pub fn deserialize(&self, doc: &MessyJsonValueRaw) -> (r: Result<
        MessyJsonValueContainer,
        MessyJsonError,
    >)
        ensures
            match r {
                Ok(c) => bare_object_fault(self.schema, self.settings, *doc) is None
                    && bare_object_yields(self.schema, self.settings, *doc, c.val),
                Err(e) => bare_object_fault(self.schema, self.settings, *doc) == Some(e@),
            },
    {
        match doc {
            MessyJsonValueRaw::Obj(entries) => {
                match messy_json_visit_map(&self.schema, self.settings, entries) {
                    Ok(v) => Ok(MessyJsonValueContainer::new(v)),
                    Err(e) => Err(e),
                }
            },
            MessyJsonValueRaw::Null => {
                if self.schema.inner().optional() || self.settings.all_optional() {
                    Ok(
                        MessyJsonValueContainer::new(
                            MessyJsonValue::Null(
                                MessyJsonNullType::Null,
                                MessyJsonExpected::Obj(self.schema.share()),
                            ),
                        ),
                    )
                } else {
                    Err(
                        MessyJsonError::InvalidType {
                            unexpected: MessyJsonKind::Null,
                            expected: MessyJsonKind::Object,
                        },
                    )
                }
            },
            _ => Err(
                MessyJsonError::InvalidType {
                    unexpected: doc.found_kind(),
                    expected: MessyJsonKind::Object,
                },
            ),
        }
    }

    /// Parses a text as JSON and validates the document as an object: the error of the
    /// parser where the text is no document, else what validating the document gives.
    pub fn deserialize_str(&self, text: &str) -> (r: Result<
        MessyJsonValueContainer,
        MessyJsonError,
    >)
        ensures
            match parsed(json_reading(text@)) {
                Ok(doc) => match r {
                    Ok(c) => bare_object_fault(self.schema, self.settings, doc) is None
                        && bare_object_yields(self.schema, self.settings, doc, c.val),
                    Err(e) => bare_object_fault(self.schema, self.settings, doc) == Some(e@),
                },
                Err(f) => r matches Err(e) && e@ == f,
            },
    {
        match MessyJsonValueRaw::parse(text) {
            Ok(doc) => self.deserialize(&doc),
            Err(e) => Err(e),
        }
    }
}

} // verus!
