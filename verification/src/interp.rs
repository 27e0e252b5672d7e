//! The trusted boundary to the embedded Lua interpreter (the `mlua` crate)
//! and to the JSON parser (the `serde_json` crate). Every function here is
//! believed, not verified: each wraps one outside operation, converts its
//! arguments and result, and states no more than the outside crate's own
//! source shows.

use vstd::prelude::*;

use crate::errors::ScriptError;
use crate::value::{JsonValue, NativeValue, SpecJson};

verus! {

#[verifier::external_type_specification]
#[verifier::external_body]
pub struct ExLua(mlua::Lua);

#[verifier::external_type_specification]
#[verifier::external_body]
pub struct ExLuaTable(mlua::Table);

#[verifier::external_type_specification]
#[verifier::external_body]
pub struct ExLuaFunction(mlua::Function);

#[verifier::external_type_specification]
#[verifier::external_body]
pub struct ExLuaValue(mlua::Value);

#[verifier::external_type_specification]
#[verifier::external_body]
pub struct ExLuaError(mlua::Error);

#[verifier::external_type_specification]
#[verifier::external_body]
pub struct ExSerdeValue(serde_json::Value);

/// A fault trapped by the interpreter's protected-call mechanism: its
/// message, and the class of the underlying fault (`syntax`, `runtime`,
/// `memory`, or `error` for the rarer kinds).
pub struct LuaFailure {
    pub message: String,
    pub status: String,
}

/// The shape a parsed JSON value holds, in the engine's model. The name
/// stands for the structure of a `serde_json::Value`, an owned tree that is
/// a function of the value alone; [`json_of_serde`] renders exactly it.
pub uninterp spec fn spec_of_serde(v: serde_json::Value) -> SpecJson;

/// What the text parses to when it is a JSON array: the shapes of its
/// elements in order, or nothing when the text is not a valid JSON array.
/// The name stands for what `serde_json::from_str::<Vec<serde_json::Value>>`
/// returns, which is a function of the text alone.
pub uninterp spec fn parsed_json_array(s: Seq<char>) -> Option<Seq<SpecJson>>;

/// How deep the boundary conversion follows nested tables; a table nested
/// deeper is rendered as `Unsupported`.
pub const TABLE_DEPTH: u32 = 32;

/// How many table entries the boundary conversion renders in one call before
/// it stops dropping what remains.
pub const TABLE_BUDGET: u64 = 65536;

/// Relies on mlua::Lua::new: creates a fresh interpreter state with the
/// standard library loaded and nothing else defined.
#[verifier::external_body]
pub(crate) fn lua_new() -> mlua::Lua {
    mlua::Lua::new()
}

/// Relies on mlua::Lua::load and mlua::Chunk::exec: compiles the source text
/// and runs its top level inside the interpreter; a compile or run fault is
/// trapped and returned as data.
#[verifier::external_body]
pub(crate) fn lua_load(lua: &mlua::Lua, source: &str) -> Result<(), mlua::Error> {
    lua.load(source).exec()
}

/// Relies on mlua::Lua::globals: returns the interpreter's table of global
/// bindings.
#[verifier::external_body]
pub(crate) fn lua_globals(lua: &mlua::Lua) -> mlua::Table {
    lua.globals()
}

/// Relies on mlua::Table::get: looks the name up in the table and returns the
/// bound function; a binding that is absent or not a function is a failure.
#[verifier::external_body]
pub(crate) fn table_get_function(table: &mlua::Table, name: &str) -> Result<
    mlua::Function,
    mlua::Error,
> {
    table.get::<mlua::Function>(name)
}

/// Relies on mlua::Lua::create_table: creates a fresh empty table inside the
/// interpreter.
#[verifier::external_body]
pub(crate) fn lua_create_table(lua: &mlua::Lua) -> Result<mlua::Table, mlua::Error> {
    lua.create_table()
}

/// Relies on mlua::Table::set: binds the string value to the string key in
/// the table, overwriting any earlier binding of the key.
#[verifier::external_body]
pub(crate) fn table_set_str(table: &mlua::Table, key: &str, value: &str) -> Result<
    (),
    mlua::Error,
> {
    table.set(key, value)
}

/// Relies on mlua::Function::call, which runs the function under the
/// interpreter's protected-call mechanism (`lua_pcall`): a fault raised by
/// script code is trapped and returned as data, and the interpreter state
/// remains usable afterwards. This form passes no arguments.
#[verifier::external_body]
pub(crate) fn call_entry_no_args(f: &mlua::Function) -> Result<mlua::Value, mlua::Error> {
    f.call::<mlua::Value>(())
}

/// Relies on mlua::Function::call, which runs the function under the
/// interpreter's protected-call mechanism (`lua_pcall`): a fault raised by
/// script code is trapped and returned as data, and the interpreter state
/// remains usable afterwards. This form passes the request text and the
/// argument table.
#[verifier::external_body]
pub(crate) fn call_entry_request(
    f: &mlua::Function,
    request: &str,
    args: &mlua::Table,
) -> Result<mlua::Value, mlua::Error> {
    f.call::<mlua::Value>((request, args))
}

/// Relies on mlua::Error's variants and message rendering: keeps the message
/// and names the class of the fault.
#[verifier::external_body]
pub(crate) fn failure_of_error(e: &mlua::Error) -> LuaFailure {
    let status = match e {
        mlua::Error::SyntaxError { .. } => "syntax",
        mlua::Error::RuntimeError(_) => "runtime",
        mlua::Error::MemoryError(_) => "memory",
        _ => "error",
    };
    LuaFailure { message: format!("{}", e), status: status.to_string() }
}

/// Relies on the accessors of mlua::Value and mlua::Table::pairs: renders an
/// interpreter value in the engine's native model, one variant to one
/// variant, traversing tables in the interpreter's iteration order; a
/// floating-point number is rendered as its decimal text. The traversal is
/// bounded, so the conversion returns on every value: a table nested deeper
/// than `depth` is rendered as `Unsupported`, and each entry rendered spends
/// one unit of `budget`, after which the remaining entries are dropped. A
/// script may hand back a table that refers to itself; the bound renders it
/// finitely instead of aborting the host.
#[verifier::external_body]
pub(crate) fn native_of_lua(v: &mlua::Value, depth: u32, budget: &mut u64) -> NativeValue {
    match v {
        mlua::Value::Nil => NativeValue::Nil,
        mlua::Value::Boolean(b) => NativeValue::Bool(*b),
        mlua::Value::Integer(i) => NativeValue::Int(*i),
        mlua::Value::Number(n) => NativeValue::Float(n.to_string()),
        mlua::Value::String(s) => NativeValue::Str(s.to_string_lossy()),
        mlua::Value::Table(t) if depth > 0 => NativeValue::Table(
            t.pairs::<mlua::Value, mlua::Value>().flatten().map_while(|(k, w)| {
                *budget = budget.checked_sub(1)?;
                Some((native_of_lua(&k, depth - 1, budget), native_of_lua(&w, depth - 1, budget)))
            }).collect(),
        ),
        _ => NativeValue::Unsupported,
    }
}

/// Relies on serde_json::from_str: parses the text as a JSON array and
/// returns its elements, or the parser's message when the text is not a
/// valid JSON array. Parsing is deterministic in the text alone, so the
/// elements are exactly what [`parsed_json_array`] names.
#[verifier::external_body]
pub(crate) fn parse_raw_args(s: &str) -> (r: Result<Vec<serde_json::Value>, String>)
    ensures
        match r {
            Ok(vs) => parsed_json_array(s@) == Some(
                vs@.map_values(|v: serde_json::Value| spec_of_serde(v)),
            ),
            Err(_) => parsed_json_array(s@) is None,
        },
{
    match serde_json::from_str::<Vec<serde_json::Value>>(s) {
        Ok(vs) => Ok(vs),
        Err(e) => Err(format!("{}", e)),
    }
}

/// Relies on the accessors of serde_json::Value: renders a parsed JSON value
/// in the engine's model, one variant to one variant, exactly the shape that
/// [`spec_of_serde`] names. A number that fits the 64-bit integer range
/// becomes `Int`; any other number keeps its decimal text.
#[verifier::external_body]
pub(crate) fn json_of_serde(v: &serde_json::Value) -> (r: JsonValue)
    ensures
        r@ == spec_of_serde(*v),
{
    match v {
        serde_json::Value::Null => JsonValue::Null,
        serde_json::Value::Bool(b) => JsonValue::Bool(*b),
        serde_json::Value::Number(n) => match n.as_i64() {
            Some(i) => JsonValue::Int(i),
            None => JsonValue::Float(n.to_string()),
        },
        serde_json::Value::String(s) => JsonValue::Str(s.clone()),
        serde_json::Value::Array(a) => JsonValue::Arr(a.iter().map(json_of_serde).collect()),
        serde_json::Value::Object(m) => JsonValue::Obj(
            m.iter().map(|(k, w)| (k.clone(), json_of_serde(w))).collect(),
        ),
    }
}

/// Looks `name` up among the interpreter's global bindings and calls it under
/// the protected-call mechanism, rendering the returned value in the native
/// model. An absent or non-function binding is `MissingEntryPoint`; a fault
/// raised by the script is `ScriptRuntimeError`, and the interpreter stays
/// usable for further calls.
pub(crate) fn run_func(
    lua: &mlua::Lua,
    name: &str,
    args: Option<(&str, &mlua::Table)>,
) -> (r: Result<NativeValue, ScriptError>)
    ensures
        r matches Err(e) ==> match e {
            ScriptError::MissingEntryPoint(n) => n@ == name@,
            ScriptError::ScriptRuntimeError { .. } => true,
            _ => false,
        },
{
    let globals = lua_globals(lua);
    let f = match table_get_function(&globals, name) {
        Ok(f) => f,
        Err(_) => {
            return Err(ScriptError::MissingEntryPoint(name.to_owned()));
        },
    };
    let called = match args {
        None => call_entry_no_args(&f),
        Some((request, table)) => call_entry_request(&f, request, table),
    };
    match called {
        Ok(v) => {
            let mut budget: u64 = TABLE_BUDGET;
            Ok(native_of_lua(&v, TABLE_DEPTH, &mut budget))
        },
        Err(e) => {
            let failure = failure_of_error(&e);
            Err(
                ScriptError::ScriptRuntimeError {
                    message: failure.message,
                    status: failure.status,
                },
            )
        },
    }
}

} // verus!
