use snare_script::{from_native, parse_table, to_native, JsonValue, NativeValue};

#[test]
fn round_trip_string() {
    let v = JsonValue::Str("hello".to_string());
    assert_eq!(from_native(&to_native(&v)), v);
}

#[test]
fn round_trip_bool() {
    let v = JsonValue::Bool(true);
    assert_eq!(from_native(&to_native(&v)), v);
    let w = JsonValue::Bool(false);
    assert_eq!(from_native(&to_native(&w)), w);
}

#[test]
fn round_trip_integer() {
    let v = JsonValue::Int(-42);
    assert_eq!(from_native(&to_native(&v)), v);
    let w = JsonValue::Int(i64::MAX);
    assert_eq!(from_native(&to_native(&w)), w);
}

#[test]
fn round_trip_float() {
    let v = JsonValue::Float("1.25".to_string());
    assert_eq!(from_native(&to_native(&v)), v);
}

#[test]
fn null_maps_to_nil_and_back() {
    assert_eq!(to_native(&JsonValue::Null), NativeValue::Nil);
    assert_eq!(from_native(&NativeValue::Nil), JsonValue::Null);
}

#[test]
fn array_becomes_one_based_table() {
    let v = JsonValue::Arr(vec![
        JsonValue::Str("a".to_string()),
        JsonValue::Str("b".to_string()),
    ]);
    let expected = NativeValue::Table(vec![
        (NativeValue::Int(1), NativeValue::Str("a".to_string())),
        (NativeValue::Int(2), NativeValue::Str("b".to_string())),
    ]);
    assert_eq!(to_native(&v), expected);
}

#[test]
fn nested_null_in_array_is_skipped() {
    let v = JsonValue::Arr(vec![JsonValue::Null, JsonValue::Str("x".to_string())]);
    let expected = NativeValue::Table(vec![
        (NativeValue::Int(2), NativeValue::Str("x".to_string())),
    ]);
    assert_eq!(to_native(&v), expected);
}

#[test]
fn object_becomes_string_keyed_table() {
    let v = JsonValue::Obj(vec![
        ("k".to_string(), JsonValue::Int(7)),
        ("gone".to_string(), JsonValue::Null),
        ("b".to_string(), JsonValue::Bool(true)),
    ]);
    let expected = NativeValue::Table(vec![
        (NativeValue::Str("k".to_string()), NativeValue::Int(7)),
        (NativeValue::Str("b".to_string()), NativeValue::Bool(true)),
    ]);
    assert_eq!(to_native(&v), expected);
}

#[test]
fn parse_table_renders_keys_as_text() {
    let t = vec![
        (NativeValue::Int(1), NativeValue::Str("one".to_string())),
        (NativeValue::Bool(true), NativeValue::Int(9)),
        (NativeValue::Float("2.5".to_string()), NativeValue::Bool(false)),
        (NativeValue::Str("s".to_string()), NativeValue::Float("0.5".to_string())),
    ];
    let expected = JsonValue::Obj(vec![
        ("1".to_string(), JsonValue::Str("one".to_string())),
        ("true".to_string(), JsonValue::Int(9)),
        ("2.5".to_string(), JsonValue::Bool(false)),
        ("s".to_string(), JsonValue::Float("0.5".to_string())),
    ]);
    assert_eq!(parse_table(&t), expected);
}

#[test]
fn parse_table_skips_unbridgeable_entries() {
    let t = vec![
        (NativeValue::Nil, NativeValue::Int(1)),
        (NativeValue::Str("f".to_string()), NativeValue::Unsupported),
        (NativeValue::Str("ok".to_string()), NativeValue::Int(2)),
    ];
    let expected = JsonValue::Obj(vec![("ok".to_string(), JsonValue::Int(2))]);
    assert_eq!(parse_table(&t), expected);
}

#[test]
fn parse_table_recurses_into_nested_tables() {
    let t = vec![(
        NativeValue::Str("inner".to_string()),
        NativeValue::Table(vec![
            (NativeValue::Str("x".to_string()), NativeValue::Str("y".to_string())),
        ]),
    )];
    let expected = JsonValue::Obj(vec![(
        "inner".to_string(),
        JsonValue::Obj(vec![("x".to_string(), JsonValue::Str("y".to_string()))]),
    )]);
    assert_eq!(parse_table(&t), expected);
}

#[test]
fn unsupported_native_value_becomes_null() {
    assert_eq!(from_native(&NativeValue::Unsupported), JsonValue::Null);
}
