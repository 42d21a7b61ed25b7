use messy_json::{
    MessyJson, MessyJsonInner, MessyJsonObject, MessyJsonObjectInner, MessyJsonScalar,
    MessyJsonSettings, MessyJsonValue, MessyJsonValueContainer, gen_key,
};

#[test]
fn uuid_simple() {
    let nested_string = MessyJson::from(MessyJsonInner::Uuid(MessyJsonScalar::new(false)));
    let test_uuid = uuid::Uuid::parse_str("31ee8240-630b-416a-8c54-0e2a0d070488").unwrap();
    let schema = MessyJson::from(MessyJsonInner::Obj(MessyJsonObject::from(
        MessyJsonObjectInner::new(
            vec![(gen_key("hello"), nested_string)]
                .into_iter()
                .collect(),
            false,
        ),
    )));
    let value = r#"
	{
		"hello": "31ee8240-630b-416a-8c54-0e2a0d070488"
	}
	"#;
    let parsed: MessyJsonValueContainer = schema
        .builder(MessyJsonSettings::default())
        .deserialize_str(value)
        .unwrap();
    assert_eq!(
        matches!(parsed.inner(), MessyJsonValue::Obj(_)),
        true,
        "The root should be an object"
    );
    match parsed.inner() {
        MessyJsonValue::Obj(obj) => {
            assert_eq!(
                obj.len(),
                1,
                "The root object should only contain a single key"
            );
            assert_eq!(
                obj.contains_key("hello"),
                true,
                "The hello key should be present"
            );
            assert_eq!(
                obj.get("hello").unwrap(),
                &MessyJsonValue::Uuid(test_uuid.as_u128()),
                "The hello key should be '{:#?}'",
                test_uuid
            );
        }
        _ => panic!("..."),
    };
}

#[test]
fn bad_uuid() {
    let nested_string = MessyJson::from(MessyJsonInner::Uuid(MessyJsonScalar::new(false)));
    let schema = MessyJson::from(MessyJsonInner::Obj(MessyJsonObject::from(
        MessyJsonObjectInner::new(
            vec![(gen_key("hello"), nested_string)]
                .into_iter()
                .collect(),
            false,
        ),
    )));
    let value = r#"
	{
		"hello": "azaaaaaaaaaaaaaaaaa"
	}
	"#;
    schema
        .builder(MessyJsonSettings::default())
        .deserialize_str(value)
        .unwrap_err();
}

#[test]
fn optional_uuid_present() {
    let nested_string = MessyJson::from(MessyJsonInner::Uuid(MessyJsonScalar::new(true)));
    let test_uuid = uuid::Uuid::parse_str("31ee8240-630b-416a-8c54-0e2a0d070488").unwrap();
    let schema = MessyJson::from(MessyJsonInner::Obj(MessyJsonObject::from(
        MessyJsonObjectInner::new(
            vec![(gen_key("hello"), nested_string)]
                .into_iter()
                .collect(),
            false,
        ),
    )));
    let value = r#"
	{
		"hello": "31ee8240-630b-416a-8c54-0e2a0d070488"
	}
	"#;
    let parsed: MessyJsonValueContainer = schema
        .builder(MessyJsonSettings::default())
        .deserialize_str(value)
        .unwrap();
    assert_eq!(
        matches!(parsed.inner(), MessyJsonValue::Obj(_)),
        true,
        "The root should be an object"
    );
    match parsed.inner() {
        MessyJsonValue::Obj(obj) => {
            assert_eq!(
                obj.len(),
                1,
                "The root object should only contain a single key"
            );
            assert_eq!(
                obj.contains_key("hello"),
                true,
                "The hello key should be present"
            );
            assert_eq!(
                obj.get("hello").unwrap(),
                &MessyJsonValue::Uuid(test_uuid.as_u128()),
                "The hello key should be '{:#?}'",
                test_uuid
            );
        }
        _ => panic!("..."),
    };
}

#[test]
fn optional_uuid_absent() {
    let nested_string = MessyJson::from(MessyJsonInner::Uuid(MessyJsonScalar::new(true)));
    let schema = MessyJson::from(MessyJsonInner::Obj(MessyJsonObject::from(
        MessyJsonObjectInner::new(
            vec![(gen_key("hello"), nested_string)]
                .into_iter()
                .collect(),
            false,
        ),
    )));
    let value = r#"
	{
		"hello": null
	}
	"#;
    let parsed: MessyJsonValueContainer = schema
        .builder(MessyJsonSettings::default())
        .deserialize_str(value)
        .unwrap();
    assert_eq!(
        matches!(parsed.inner(), MessyJsonValue::Obj(_)),
        true,
        "The root should be an object"
    );
    match parsed.inner() {
        MessyJsonValue::Obj(obj) => {
            assert_eq!(
                obj.len(),
                1,
                "The root object should only contain a single key"
            );
            assert_eq!(
                obj.contains_key("hello"),
                true,
                "The hello key should be present"
            );
            assert_eq!(
                matches!(obj.get("hello").unwrap(), MessyJsonValue::Null(_, _)),
                true,
            );
        }
        _ => panic!("..."),
    };
}
