//! The Script Unit: one loaded script, its exclusively-owned interpreter
//! state, and the metadata extracted once at construction.
//!
//! Construction loads the source, runs its top level, invokes the reserved
//! `schema` entry point and caches the metadata; any failure means no unit
//! exists at all. `execute` parses the argument text, flattens it, and invokes
//! the reserved `on_request` entry point. All interpreter access goes through
//! a verified reader-writer lock held in write mode, so at most one call is
//! ever inside the interpreter, and a failed call leaves the unit usable.

use vstd::prelude::*;
use vstd::rwlock::RwLock;

use crate::args::{flatten_args, obj_lookup, spec_obj_lookup};
use crate::bridge::{parse_table, spec_parse_entries};
use crate::errors::ScriptError;
use crate::interp::{
    failure_of_error, json_of_serde, lua_create_table, lua_load, lua_new, parse_raw_args,
    parsed_json_array, run_func, spec_of_serde, table_set_str,
};
use crate::value::{clone_json, JsonValue, NativeValue, SpecJson};

verus! {

/// The metadata a script declares through its `schema` entry point, extracted
/// once at construction and immutable thereafter. It is a copy, not a live
/// view into the interpreter, so it is safe to read without locking.
pub struct ScriptMetadata {
    /// The script's declared name, or empty when `schema` declares none.
    pub name: String,
    /// The script's declared description, or empty when `schema` declares
    /// none.
    pub description: String,
    /// The script's declared argument schema, or an empty string value when
    /// `schema` declares none.
    pub script_args: JsonValue,
}

/// The text of the metadata field named `key`: the field's characters when
/// the schema table binds `key` to a string, empty otherwise.
pub open spec fn spec_meta_text(es: Seq<(Seq<char>, SpecJson)>, key: Seq<char>) -> Seq<char> {
    match spec_obj_lookup(es, key) {
        Some(SpecJson::Str(s)) => s,
        _ => Seq::empty(),
    }
}

/// The declared argument schema: whatever the schema table binds `args` to,
/// or an empty string value when it binds nothing.
pub open spec fn spec_meta_args(es: Seq<(Seq<char>, SpecJson)>) -> SpecJson {
    match spec_obj_lookup(es, "args"@) {
        Some(v) => v,
        None => SpecJson::Str(Seq::empty()),
    }
}

/// Extracts the cached metadata from the value the `schema` entry point
/// returned. Exactly the non-table values are rejected, with
/// `SchemaShapeError`; a table yields the metadata fields that
/// [`spec_meta_text`] and [`spec_meta_args`] describe.
pub fn metadata_of_schema(schema: &NativeValue) -> (r: Result<ScriptMetadata, ScriptError>)
    ensures
        schema@ is Table ==> (r matches Ok(m) && {
            let es = spec_parse_entries(schema@->Table_0);
            &&& m.name@ == spec_meta_text(es, "name"@)
            &&& m.description@ == spec_meta_text(es, "description"@)
            &&& m.script_args@ == spec_meta_args(es)
        }),
        !(schema@ is Table) ==> (r matches Err(e) && e is SchemaShapeError),
{
    match schema {
        NativeValue::Table(t) => {
            let parsed = parse_table(t);
            match parsed {
                JsonValue::Obj(entries) => {
                    let name = match obj_lookup(&entries, &String::from_str("name")) {
                        Some(JsonValue::Str(s)) => s.clone(),
                        _ => String::new(),
                    };
                    let description = match obj_lookup(
                        &entries,
                        &String::from_str("description"),
                    ) {
                        Some(JsonValue::Str(s)) => s.clone(),
                        _ => String::new(),
                    };
                    let script_args = match obj_lookup(&entries, &String::from_str("args")) {
                        Some(v) => clone_json(v),
                        None => JsonValue::Str(String::new()),
                    };
                    Ok(ScriptMetadata { name, description, script_args })
                },
                _ => {
                    proof {
                        assert(false);
                    }
                    Err(ScriptError::SchemaShapeError)
                },
            }
        },
        _ => Err(ScriptError::SchemaShapeError),
    }
}

/// One loaded script: its source location, its exclusively-owned interpreter
/// state behind a verified lock, and its cached metadata.
pub struct Script {
    path: String,
    state: RwLock<mlua::Lua, spec_fn(mlua::Lua) -> bool>,
    /// The metadata extracted at construction; a lock-free copy.
    pub metadata: ScriptMetadata,
}

/// Builds the script's argument table inside the interpreter and invokes the
/// reserved `on_request` entry point with the request text and that table.
fn run_request(
    lua: &mlua::Lua,
    request: &str,
    pairs: &Vec<(String, String)>,
) -> (r: Result<NativeValue, ScriptError>)
    ensures
        r matches Err(e) ==> match e {
            ScriptError::MissingEntryPoint(n) => n@ == "on_request"@,
            ScriptError::ScriptRuntimeError { .. } => true,
            _ => false,
        },
{
    let table = match lua_create_table(lua) {
        Ok(t) => t,
        Err(e) => {
            let failure = failure_of_error(&e);
            return Err(
                ScriptError::ScriptRuntimeError {
                    message: failure.message,
                    status: failure.status,
                },
            );
        },
    };
    let mut i: usize = 0;
    while i < pairs.len()
        decreases pairs.len() - i,
    {
        if let Err(e) = table_set_str(&table, pairs[i].0.as_str(), pairs[i].1.as_str()) {
            let failure = failure_of_error(&e);
            return Err(
                ScriptError::ScriptRuntimeError {
                    message: failure.message,
                    status: failure.status,
                },
            );
        }
        i = i + 1;
    }
    run_func(lua, "on_request", Some((request, &table)))
}

impl Script {
    /// The location the script's source was read from.
    pub closed spec fn spec_path(&self) -> Seq<char> {
        self.path@
    }

    /// The location the script's source was read from.
    pub fn path(&self) -> (r: &String)
        ensures
            r@ == self.spec_path(),
    {
        &self.path
    }

    /// Constructs a Script Unit from a script source: creates a fresh
    /// interpreter, runs the source's top level, invokes the reserved
    /// `schema` entry point and caches the metadata it declares. Any failure
    /// means no unit is produced at all: a source that does not compile or
    /// run is `CompileError`, an absent `schema` entry point is
    /// `MissingEntryPoint`, a `schema` that faults is `ScriptRuntimeError`,
    /// and a `schema` that returns a non-table is `SchemaShapeError`.
    pub fn new(path: &str, source: &str) -> (r: Result<Script, ScriptError>)
        ensures
            r matches Ok(s) ==> s.spec_path() == path@,
            r matches Err(e) ==> match e {
                ScriptError::CompileError(_) => true,
                ScriptError::MissingEntryPoint(n) => n@ == "schema"@,
                ScriptError::ScriptRuntimeError { .. } => true,
                ScriptError::SchemaShapeError => true,
                _ => false,
            },
    {
        let lua = lua_new();
        if let Err(e) = lua_load(&lua, source) {
            let failure = failure_of_error(&e);
            return Err(ScriptError::CompileError(failure.message));
        }
        let schema = match run_func(&lua, "schema", None) {
            Ok(v) => v,
            Err(e) => {
                return Err(e);
            },
        };
        let metadata = match metadata_of_schema(&schema) {
            Ok(m) => m,
            Err(e) => {
                return Err(e);
            },
        };
        Ok(
            Script {
                path: path.to_owned(),
                state: RwLock::new(lua, Ghost(|l: mlua::Lua| true)),
                metadata,
            },
        )
    }

    /// Re-invokes the `schema` entry point live, under the same lock
    /// discipline as `execute`, and returns its value in the native model.
    /// Callers wanting the cached, lock-free copy read `metadata` instead.
    pub fn get_args(&self) -> (r: Result<NativeValue, ScriptError>)
        ensures
            r matches Err(e) ==> match e {
                ScriptError::MissingEntryPoint(n) => n@ == "schema"@,
                ScriptError::ScriptRuntimeError { .. } => true,
                _ => false,
            },
    {
        let (lua, handle) = self.state.acquire_write();
        let r = run_func(&lua, "schema", None);
        handle.release_write(lua);
        r
    }

    /// Executes the script on one request: parses `args` as a JSON array,
    /// flattens it into argument pairs, and invokes the reserved `on_request`
    /// entry point with the request text and the argument table, all
    /// interpreter work under the unit's exclusive lock. Text that is not a
    /// JSON array is `MalformedArguments`, rejected before any interpreter
    /// access; an absent `on_request` is `MissingEntryPoint`; a fault raised
    /// by the script is `ScriptRuntimeError`, and the unit stays usable for
    /// further calls whatever the outcome.
    pub fn execute(&self, req: String, args: String) -> (r: Result<NativeValue, ScriptError>)
        ensures
            (r matches Err(e) && e is MalformedArguments) <==> parsed_json_array(args@) is None,
            r matches Err(e) ==> match e {
                ScriptError::MalformedArguments(_) => true,
                ScriptError::MissingEntryPoint(n) => n@ == "on_request"@,
                ScriptError::ScriptRuntimeError { .. } => true,
                _ => false,
            },
    {
        let raw = match parse_raw_args(args.as_str()) {
            Ok(vs) => vs,
            Err(m) => {
                return Err(ScriptError::MalformedArguments(m));
            },
        };
        let mut jargs: Vec<JsonValue> = Vec::new();
        let mut i: usize = 0;
        while i < raw.len()
            invariant
                i <= raw.len(),
                jargs@.len() == i as int,
                forall|j: int|
                    0 <= j < i as int ==> crate::value::spec_json_of(jargs@[j]) == spec_of_serde(
                        raw@[j],
                    ),
            decreases raw.len() - i,
        {
            let j = json_of_serde(&raw[i]);
            jargs.push(j);
            i = i + 1;
        }
        let pairs = flatten_args(&jargs);
        let (lua, handle) = self.state.acquire_write();
        let r = run_request(&lua, req.as_str(), &pairs);
        handle.release_write(lua);
        r
    }
}

} // verus!
