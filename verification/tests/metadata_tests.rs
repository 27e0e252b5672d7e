use snare_script::numtext::{bool_to_text, i64_to_decimal, u64_to_decimal};
use snare_script::script::metadata_of_schema;
use snare_script::{JsonValue, NativeValue, ScriptError};

fn skey(s: &str) -> NativeValue {
    NativeValue::Str(s.to_string())
}

#[test]
fn metadata_extracts_declared_fields() {
    let schema = NativeValue::Table(vec![
        (skey("name"), skey("connection")),
        (skey("description"), skey("filters connections")),
        (skey("args"), NativeValue::Table(vec![(skey("k"), skey("v"))])),
    ]);
    let m = metadata_of_schema(&schema).unwrap();
    assert_eq!(m.name, "connection");
    assert_eq!(m.description, "filters connections");
    assert_eq!(
        m.script_args,
        JsonValue::Obj(vec![("k".to_string(), JsonValue::Str("v".to_string()))])
    );
}

#[test]
fn metadata_defaults_missing_fields() {
    let schema = NativeValue::Table(vec![]);
    let m = metadata_of_schema(&schema).unwrap();
    assert_eq!(m.name, "");
    assert_eq!(m.description, "");
    assert_eq!(m.script_args, JsonValue::Str("".to_string()));
}

#[test]
fn metadata_takes_the_last_binding_of_a_field() {
    let schema = NativeValue::Table(vec![
        (skey("name"), skey("first")),
        (skey("name"), skey("second")),
    ]);
    let m = metadata_of_schema(&schema).unwrap();
    assert_eq!(m.name, "second");
}

#[test]
fn non_table_schema_is_rejected() {
    assert!(matches!(
        metadata_of_schema(&NativeValue::Int(1)),
        Err(ScriptError::SchemaShapeError)
    ));
    assert!(matches!(
        metadata_of_schema(&NativeValue::Nil),
        Err(ScriptError::SchemaShapeError)
    ));
}

#[test]
fn decimal_texts_are_exact() {
    assert_eq!(u64_to_decimal(0), "0");
    assert_eq!(u64_to_decimal(907), "907");
    assert_eq!(u64_to_decimal(u64::MAX), "18446744073709551615");
    assert_eq!(i64_to_decimal(-1), "-1");
    assert_eq!(i64_to_decimal(10), "10");
    assert_eq!(i64_to_decimal(i64::MIN), "-9223372036854775808");
    assert_eq!(bool_to_text(true), "true");
    assert_eq!(bool_to_text(false), "false");
}
