use messy_json::{
    MessyJson, MessyJsonArray, MessyJsonInner, MessyJsonScalar, MessyJsonSettings,
    MessyJsonValue, MessyJsonValueContainer,
};

#[test]
fn root_array_simple() {
    let nested_string = MessyJson::from(MessyJsonInner::String(MessyJsonScalar::new(false)));
    let schema = MessyJson::from(MessyJsonInner::Array(MessyJsonArray::new(
        nested_string,
        false,
    )));
    let value = r#"
	[
		"hello",
		"world"
	]
	"#;

    let parsed: MessyJsonValueContainer = schema
        .builder(MessyJsonSettings::default())
        .deserialize_str(value)
        .unwrap();
    assert_eq!(
        matches!(parsed.inner(), MessyJsonValue::Array(_)),
        true,
        "The root should be an array"
    );
    match parsed.inner() {
        MessyJsonValue::Array(arr) => {
            assert_eq!(arr.len(), 2, "The root object should contain 2 keys");
            assert_eq!(
                arr.0[0],
                MessyJsonValue::String(String::from("hello")),
                "Values mismatch"
            );
            assert_eq!(
                arr.0[1],
                MessyJsonValue::String(String::from("world")),
                "Values mismatch"
            );
        }
        _ => panic!("..."),
    };
}
