use messy_json::keys::{key_compare, KeyOrder};
use messy_json::{
    MessyJson, MessyJsonArray, MessyJsonBuilder, MessyJsonExpected, MessyJsonInner,
    MessyJsonKind, MessyJsonNullType, MessyJsonNumberType, MessyJsonNumeric, MessyJsonObject,
    MessyJsonObjectInner, MessyJsonObjectTrait, MessyJsonScalar, MessyJsonSettings, MessyJsonValue,
    MessyJsonValueContainer, MessyJsonValueRaw, MessyJsonVariantError, fill_absent,
    first_missing, gen_key,
};

fn string(optional: bool) -> MessyJson {
    MessyJson::from(MessyJsonInner::String(MessyJsonScalar::new(optional)))
}

fn object(properties: Vec<(&str, MessyJson)>) -> MessyJsonObject {
    MessyJsonObject::from(MessyJsonObjectInner::new(
        properties.into_iter().map(|(k, v)| (gen_key(k), v)).collect(),
        false,
    ))
}

fn text(s: &str) -> MessyJsonValue {
    MessyJsonValue::String(String::from(s))
}

fn absent(optional: bool) -> MessyJsonValue {
    MessyJsonValue::Null(MessyJsonNullType::Absent, MessyJsonExpected::Root(string(optional)))
}

#[test]
fn keys_are_ordered_by_code_point() {
    assert_eq!(key_compare("a", "b"), KeyOrder::Before);
    assert_eq!(key_compare("b", "a"), KeyOrder::After);
    assert_eq!(key_compare("abc", "abc"), KeyOrder::Same);
    assert_eq!(key_compare("", ""), KeyOrder::Same);
    assert_eq!(key_compare("", "a"), KeyOrder::Before);
    assert_eq!(key_compare("ab", "abc"), KeyOrder::Before);
    assert_eq!(key_compare("abd", "abc"), KeyOrder::After);
    assert_eq!(key_compare("Z", "a"), KeyOrder::Before);
    assert_eq!(key_compare("z", "\u{e9}"), KeyOrder::Before);
    assert_eq!(key_compare("\u{1F600}", "\u{FFFF}"), KeyOrder::After);
    for (a, b) in [("a", "b"), ("hello", "help"), ("\u{e9}", "z"), ("x", "x")] {
        let expected = match a.cmp(b) {
            std::cmp::Ordering::Less => KeyOrder::Before,
            std::cmp::Ordering::Equal => KeyOrder::Same,
            std::cmp::Ordering::Greater => KeyOrder::After,
        };
        assert_eq!(key_compare(a, b), expected);
    }
}

#[test]
fn properties_are_kept_in_key_order_and_the_later_of_two_stays() {
    let inner = MessyJsonObjectInner::new(
        vec![
            (gen_key("b"), string(false)),
            (gen_key("a"), string(false)),
            (gen_key("c"), string(false)),
            (gen_key("a"), string(true)),
        ],
        true,
    );
    assert_eq!(inner.optional(), true);
    let keys: Vec<&str> = inner.properties().iter().map(|p| p.0.as_str()).collect();
    assert_eq!(keys, vec!["a", "b", "c"]);
    assert_eq!(inner.properties()[0].1.inner().optional(), true);
    assert!(inner.has_field("b"));
    assert!(!inner.has_field("d"));
    assert!(!inner.has_field(""));
}

#[test]
fn schema_nodes_report_what_they_were_built_with() {
    assert_eq!(MessyJsonScalar::new(true).optional(), true);
    assert_eq!(MessyJsonScalar::new(false).optional(), false);
    let numeric = MessyJsonNumeric::new(MessyJsonNumberType::U128, true);
    assert_eq!(numeric.type_(), MessyJsonNumberType::U128);
    assert_eq!(numeric.optional(), true);
    assert_eq!(MessyJsonNumberType::default(), MessyJsonNumberType::U64);
    assert!(MessyJsonNumberType::U64.admits(18446744073709551615));
    assert!(!MessyJsonNumberType::U64.admits(18446744073709551616));
    assert!(MessyJsonNumberType::U128.admits(u128::MAX));
    let array = MessyJsonArray::new(string(true), false);
    assert_eq!(array.optional(), false);
    assert_eq!(array.items(), &string(true));
    assert_eq!(MessyJsonInner::Array(array).optional(), false);
    assert_eq!(MessyJsonInner::Bool(MessyJsonScalar::new(true)).optional(), true);
    assert_eq!(MessyJsonInner::Number(numeric).optional(), true);
    assert_eq!(MessyJsonInner::Uuid(MessyJsonScalar::new(false)).optional(), false);
    assert_eq!(MessyJsonInner::Obj(object(vec![])).optional(), false);
    assert_eq!(gen_key("hello"), String::from("hello"));
}

#[test]
fn builders_hold_schema_and_settings() {
    let schema = string(true);
    let settings = MessyJsonSettings { all_optional: true, preserve_mandatory: true };
    let builder = schema.builder(settings);
    assert_eq!(builder.inner(), &schema);
    assert_eq!(builder.settings(), &settings);
    let nested = builder.new_nested(&string(false), MessyJsonSettings::default());
    assert_eq!(nested.inner(), &string(false));
    assert_eq!(nested.settings(), &MessyJsonSettings::default());
    assert_eq!(schema.share(), schema);
    let obj = object(vec![("a", string(false))]);
    let builder = obj.builder(settings);
    assert_eq!(builder.inner(), &obj);
    assert_eq!(builder.settings(), &settings);
    assert_eq!(builder.new_nested(&schema, settings).inner(), &schema);
}

#[test]
fn containers_hand_back_what_they_hold() {
    let container = MessyJsonValueContainer::new(MessyJsonValue::Bool(true));
    assert_eq!(container.inner(), &MessyJsonValue::Bool(true));
    assert_eq!(container.take(), MessyJsonValue::Bool(true));
}

#[test]
fn absent_optional_properties_are_filled_in_between_the_entries() {
    let schema = object(vec![
        ("a", string(true)),
        ("b", string(false)),
        ("c", string(true)),
        ("d", string(false)),
        ("e", string(true)),
    ]);
    let mut res = vec![(gen_key("b"), text("1")), (gen_key("d"), text("2"))];
    assert_eq!(MessyJsonBuilder::compare_obj(&schema, &mut res), None);
    assert_eq!(
        res,
        vec![
            (gen_key("a"), absent(true)),
            (gen_key("b"), text("1")),
            (gen_key("c"), absent(true)),
            (gen_key("d"), text("2")),
            (gen_key("e"), absent(true)),
        ]
    );
}

#[test]
fn first_missing_mandatory_property_is_returned_and_nothing_filled() {
    let schema = object(vec![
        ("a", string(true)),
        ("b", string(false)),
        ("c", string(false)),
    ]);
    let mut res = vec![(gen_key("a"), text("1"))];
    assert_eq!(MessyJsonBuilder::compare_obj(&schema, &mut res), Some(String::from("b")));
    assert_eq!(res, vec![(gen_key("a"), text("1"))]);
    assert_eq!(first_missing(&schema, &res), Some(String::from("b")));
    let mut none: Vec<(String, MessyJsonValue)> = Vec::new();
    assert_eq!(MessyJsonBuilder::compare_obj(&schema, &mut none), Some(String::from("b")));
    let mut full = vec![
        (gen_key("a"), text("1")),
        (gen_key("b"), text("2")),
        (gen_key("c"), text("3")),
    ];
    assert_eq!(MessyJsonBuilder::compare_obj(&schema, &mut full), None);
    assert_eq!(full.len(), 3);
}

#[test]
fn filling_marks_mandatory_properties_too() {
    let schema = object(vec![("a", string(false)), ("b", string(true))]);
    let mut res = vec![(gen_key("b"), text("1"))];
    fill_absent(&schema, &mut res);
    assert_eq!(res, vec![(gen_key("a"), absent(false)), (gen_key("b"), text("1"))]);
}

#[test]
fn first_mandatory_property_set_to_null_is_returned() {
    let schema = object(vec![
        ("a", string(true)),
        ("b", string(false)),
        ("c", string(false)),
    ]);
    let null = |optional: bool| {
        MessyJsonValue::Null(MessyJsonNullType::Null, MessyJsonExpected::Root(string(optional)))
    };
    let res = vec![(gen_key("a"), null(true)), (gen_key("b"), text("x")), (gen_key("c"), null(false))];
    assert_eq!(MessyJsonBuilder::compare_obj_forced_null(&schema, &res), Some(String::from("c")));
    let res = vec![(gen_key("a"), null(true)), (gen_key("c"), absent(false))];
    assert_eq!(MessyJsonBuilder::compare_obj_forced_null(&schema, &res), None);
    let res = vec![(gen_key("b"), null(false)), (gen_key("c"), null(false))];
    assert_eq!(MessyJsonBuilder::compare_obj_forced_null(&schema, &res), Some(String::from("b")));
}

#[test]
fn documents_are_read_from_text_and_from_generic_values() {
    let text = r#"{"b": [1, "x", null, false], "a": {"n": 340282366920938463463374607431768211455}}"#;
    let doc = MessyJsonValueRaw::parse(text).unwrap();
    let expected = MessyJsonValueRaw::Obj(vec![
        (
            String::from("b"),
            MessyJsonValueRaw::Array(vec![
                MessyJsonValueRaw::Number(1),
                MessyJsonValueRaw::String(String::from("x")),
                MessyJsonValueRaw::Null,
                MessyJsonValueRaw::Bool(false),
            ]),
        ),
        (
            String::from("a"),
            MessyJsonValueRaw::Obj(vec![(String::from("n"), MessyJsonValueRaw::Number(u128::MAX))]),
        ),
    ]);
    assert_eq!(doc, expected);
    let generic: serde_json::Value = serde_json::from_str(text).unwrap();
    assert_eq!(MessyJsonValueRaw::from_json(&generic), Some(expected));
    let float: serde_json::Value = serde_json::from_str("[1, 2.5]").unwrap();
    assert_eq!(MessyJsonValueRaw::from_json(&float), None);
    assert_eq!(doc.get("a").unwrap().get("n"), Some(&MessyJsonValueRaw::Number(u128::MAX)));
    assert_eq!(doc.get("c"), None);
    assert_eq!(MessyJsonValueRaw::Null.get("a"), None);
}

#[test]
fn comparison_with_a_generic_value_holding_a_float_is_false() {
    let value = MessyJsonValue::Array(messy_json::MessyJsonArrayValue::from(vec![
        MessyJsonValue::Number(1),
    ]));
    let same: serde_json::Value = serde_json::from_str("[1]").unwrap();
    assert!(value.eq_json(&same));
    let float: serde_json::Value = serde_json::from_str("[1.5]").unwrap();
    assert!(!value.eq_json(&float));
    let longer: serde_json::Value = serde_json::from_str("[1, 2]").unwrap();
    assert!(!value.eq_json(&longer));
    assert!(!MessyJsonValue::Uuid(7).eq_raw(&MessyJsonValueRaw::Number(7)));
    assert!(MessyJsonValue::Null(MessyJsonNullType::Absent, MessyJsonExpected::Root(string(true)))
        .eq_raw(&MessyJsonValueRaw::Null));
}

#[test]
fn copies_equal_what_they_copy() {
    let doc = MessyJsonValueRaw::parse(r#"{"a": [1, "x", null, {"b": true}], "c": {}}"#).unwrap();
    assert_eq!(doc.clone(), doc);
    let schema = MessyJson::from(MessyJsonInner::Obj(object(vec![
        (
            "a",
            MessyJson::from(MessyJsonInner::Array(MessyJsonArray::new(string(true), false))),
        ),
        ("c", string(true)),
        ("d", string(true)),
    ])));
    let parsed = schema
        .builder(MessyJsonSettings::default())
        .deserialize_str(r#"{"a": ["x", null], "c": null}"#)
        .unwrap();
    assert_eq!(parsed.clone(), parsed);
    assert_eq!(parsed.inner().clone(), parsed.take());
    let inner = MessyJsonObjectInner::new(
        vec![(gen_key("b"), string(false)), (gen_key("a"), string(true))],
        true,
    );
    assert_eq!(inner.clone(), inner);
    assert_eq!(MessyJsonObject::default().inner().properties().len(), 0);
    assert_eq!(MessyJsonObjectInner::default().optional(), false);
}

#[test]
fn schema_nodes_are_made_from_their_parts() {
    let numeric = MessyJsonNumeric::new(MessyJsonNumberType::U64, true);
    assert_eq!(MessyJsonInner::from(numeric), MessyJsonInner::Number(numeric));
    assert_eq!(MessyJsonInner::from(&numeric), MessyJsonInner::Number(numeric));
    let array = MessyJsonArray::new(string(false), true);
    assert_eq!(
        MessyJsonInner::from(MessyJsonArray::new(string(false), true)),
        MessyJsonInner::Array(array)
    );
    let obj = object(vec![("a", string(false))]);
    assert_eq!(MessyJsonInner::from(&obj), MessyJsonInner::Obj(obj.share()));
    assert_eq!(MessyJsonInner::from(obj.share()), MessyJsonInner::Obj(obj));
}

#[test]
fn documents_are_made_from_plain_values() {
    assert_eq!(MessyJsonValueRaw::from(true), MessyJsonValueRaw::Bool(true));
    assert_eq!(MessyJsonValueRaw::from(15u64), MessyJsonValueRaw::Number(15));
    assert_eq!(MessyJsonValueRaw::from(15i64), MessyJsonValueRaw::Number(15));
    assert_eq!(
        MessyJsonValueRaw::from(-15i64),
        MessyJsonValueRaw::Number(340282366920938463463374607431768211441)
    );
    assert_eq!(MessyJsonValueRaw::from(i64::MIN), MessyJsonValueRaw::Number(i64::MIN as u128));
    assert_eq!(
        MessyJsonValueRaw::from(String::from("x")),
        MessyJsonValueRaw::String(String::from("x"))
    );
    assert_eq!(MessyJsonValueRaw::Number(7).as_i64(), Some(7));
    assert_eq!(MessyJsonValueRaw::Number(9223372036854775807).as_i64(), Some(i64::MAX));
    assert_eq!(MessyJsonValueRaw::Number(9223372036854775808).as_i64(), None);
    assert_eq!(MessyJsonValueRaw::Bool(true).as_i64(), None);
}

#[test]
fn a_string_or_a_single_entry_names_a_variant() {
    assert_eq!(
        MessyJsonValueRaw::String(String::from("not_working")).enum_parts(),
        Ok((String::from("not_working"), None))
    );
    assert_eq!(
        MessyJsonValueRaw::Obj(vec![(String::from("v"), MessyJsonValueRaw::Number(1))]).enum_parts(),
        Ok((String::from("v"), Some(MessyJsonValueRaw::Number(1))))
    );
    assert_eq!(
        MessyJsonValueRaw::Obj(vec![]).enum_parts(),
        Err(MessyJsonVariantError::NotSingleKey)
    );
    assert_eq!(
        MessyJsonValueRaw::Obj(vec![
            (String::from("v"), MessyJsonValueRaw::Null),
            (String::from("w"), MessyJsonValueRaw::Null),
        ])
        .enum_parts(),
        Err(MessyJsonVariantError::NotSingleKey)
    );
    assert_eq!(
        MessyJsonValueRaw::Array(vec![]).enum_parts(),
        Err(MessyJsonVariantError::WrongType(MessyJsonKind::Array))
    );
    assert_eq!(
        MessyJsonValueRaw::Null.enum_parts(),
        Err(MessyJsonVariantError::WrongType(MessyJsonKind::Null))
    );
}
