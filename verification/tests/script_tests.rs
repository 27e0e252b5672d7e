use snare_script::{JsonValue, NativeValue, Script, ScriptError};

const ECHO_SCRIPT: &str = r#"
function schema()
    return { name = "connection", description = "", args = {} }
end

function on_request(req, args)
    return req
end
"#;

#[test]
fn end_to_end_echo() {
    let script = Script::new("scripts/connection.lua", ECHO_SCRIPT).unwrap();
    let result = script.execute("GET /".to_string(), "[]".to_string()).unwrap();
    assert_eq!(result, NativeValue::Str("GET /".to_string()));
}

#[test]
fn metadata_is_cached_at_construction() {
    let script = Script::new("scripts/connection.lua", ECHO_SCRIPT).unwrap();
    assert_eq!(script.metadata.name, "connection");
    assert_eq!(script.metadata.description, "");
    assert_eq!(script.metadata.script_args, JsonValue::Obj(vec![]));
    assert_eq!(script.path().as_str(), "scripts/connection.lua");
}

#[test]
fn missing_schema_fails_construction() {
    let src = "function on_request(req, args) return req end";
    match Script::new("s", src) {
        Err(ScriptError::MissingEntryPoint(name)) => assert_eq!(name, "schema"),
        other => panic!("expected MissingEntryPoint, got {:?}", other.map(|_| ())),
    }
}

#[test]
fn non_table_schema_fails_construction() {
    let src = r#"
function schema() return 42 end
function on_request(req, args) return req end
"#;
    assert!(matches!(Script::new("s", src), Err(ScriptError::SchemaShapeError)));
}

#[test]
fn bad_source_fails_construction() {
    assert!(matches!(
        Script::new("s", "this is not a script"),
        Err(ScriptError::CompileError(_))
    ));
}

#[test]
fn schema_raising_fails_construction() {
    let src = r#"function schema() error("boom") end"#;
    assert!(matches!(
        Script::new("s", src),
        Err(ScriptError::ScriptRuntimeError { .. })
    ));
}

#[test]
fn malformed_arguments_are_rejected() {
    let script = Script::new("s", ECHO_SCRIPT).unwrap();
    assert!(matches!(
        script.execute("GET /".to_string(), "not-json".to_string()),
        Err(ScriptError::MalformedArguments(_))
    ));
}

#[test]
fn script_fault_is_trapped_and_unit_stays_usable() {
    let src = r#"
function schema() return {} end

function on_request(req, args)
    if args.fail == "yes" then
        error("script failure")
    end
    return "ok"
end
"#;
    let script = Script::new("s", src).unwrap();
    let failing = script.execute(
        "r".to_string(),
        r#"[{"fail": "yes"}]"#.to_string(),
    );
    match failing {
        Err(ScriptError::ScriptRuntimeError { message, status }) => {
            assert!(message.contains("script failure"));
            assert_eq!(status, "runtime");
        }
        other => panic!("expected ScriptRuntimeError, got {:?}", other.map(|_| ())),
    }
    let healthy = script.execute("r".to_string(), "[]".to_string()).unwrap();
    assert_eq!(healthy, NativeValue::Str("ok".to_string()));
}

#[test]
fn missing_on_request_is_detected_at_call_time() {
    let src = "function schema() return {} end";
    let script = Script::new("s", src).unwrap();
    match script.execute("r".to_string(), "[]".to_string()) {
        Err(ScriptError::MissingEntryPoint(name)) => assert_eq!(name, "on_request"),
        other => panic!("expected MissingEntryPoint, got {:?}", other.map(|_| ())),
    }
}

#[test]
fn arguments_reach_the_script_last_write_wins() {
    let src = r#"
function schema() return {} end
function on_request(req, args) return args.a end
"#;
    let script = Script::new("s", src).unwrap();
    let result = script
        .execute("r".to_string(), r#"[{"a": 1}, {"a": 2}]"#.to_string())
        .unwrap();
    assert_eq!(result, NativeValue::Str("2".to_string()));
}

#[test]
fn tagged_string_argument_reaches_the_script() {
    let src = r#"
function schema() return {} end
function on_request(req, args) return args.k end
"#;
    let script = Script::new("s", src).unwrap();
    let result = script
        .execute("r".to_string(), r#"[{"k": {"String": "x"}}]"#.to_string())
        .unwrap();
    assert_eq!(result, NativeValue::Str("x".to_string()));
}

#[test]
fn numeric_argument_arrives_as_canonical_text() {
    let src = r#"
function schema() return {} end
function on_request(req, args)
    if type(args.n) == "string" then
        return args.n
    end
    return "not-a-string"
end
"#;
    let script = Script::new("s", src).unwrap();
    let result = script
        .execute("r".to_string(), r#"[{"n": -7}]"#.to_string())
        .unwrap();
    assert_eq!(result, NativeValue::Str("-7".to_string()));
}

#[test]
fn table_result_is_bridged_back() {
    let src = r#"
function schema() return {} end
function on_request(req, args)
    return { x = "y", n = 3 }
end
"#;
    let script = Script::new("s", src).unwrap();
    let result = script.execute("r".to_string(), "[]".to_string()).unwrap();
    match result {
        NativeValue::Table(entries) => {
            assert_eq!(entries.len(), 2);
            assert!(entries.contains(&(
                NativeValue::Str("x".to_string()),
                NativeValue::Str("y".to_string())
            )));
            assert!(entries.contains(&(
                NativeValue::Str("n".to_string()),
                NativeValue::Int(3)
            )));
        }
        other => panic!("expected a table, got {:?}", other),
    }
}

#[test]
fn get_args_reinvokes_schema_live() {
    let src = r#"
calls = 0
function schema()
    calls = calls + 1
    return { count = calls }
end
function on_request(req, args) return req end
"#;
    let script = Script::new("s", src).unwrap();
    let first = script.get_args().unwrap();
    let second = script.get_args().unwrap();
    assert_eq!(
        first,
        NativeValue::Table(vec![(NativeValue::Str("count".to_string()), NativeValue::Int(2))])
    );
    assert_eq!(
        second,
        NativeValue::Table(vec![(NativeValue::Str("count".to_string()), NativeValue::Int(3))])
    );
}

#[test]
fn schema_metadata_fields_of_wrong_shape_are_emptied() {
    let src = r#"
function schema()
    return { name = 42, args = "spec" }
end
function on_request(req, args) return req end
"#;
    let script = Script::new("s", src).unwrap();
    assert_eq!(script.metadata.name, "");
    assert_eq!(script.metadata.description, "");
    assert_eq!(script.metadata.script_args, JsonValue::Str("spec".to_string()));
}

#[test]
fn cyclic_table_result_is_rendered_finitely() {
    let src = r#"
function schema() return {} end
function on_request(req, args)
    local t = {}
    t.x = t
    return t
end
"#;
    let script = Script::new("s", src).unwrap();
    let result = script.execute("r".to_string(), "[]".to_string()).unwrap();
    assert!(matches!(result, NativeValue::Table(_)));
    let healthy = script.execute("r".to_string(), "[]".to_string()).unwrap();
    assert!(matches!(healthy, NativeValue::Table(_)));
}

#[test]
fn cyclic_schema_table_still_constructs() {
    let src = r#"
function schema()
    local t = { name = "cyclic" }
    t.self = t
    return t
end
function on_request(req, args) return req end
"#;
    let script = Script::new("s", src).unwrap();
    assert_eq!(script.metadata.name, "cyclic");
}
