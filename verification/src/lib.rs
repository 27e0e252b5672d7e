//! A host library for user-authored Lua extension scripts.
//!
//! A [`script::Script`] owns one embedded interpreter state, loads a script
//! source once, extracts its declared metadata through the reserved `schema`
//! entry point, and serves `execute` calls that bridge JSON arguments into the
//! interpreter, invoke the reserved `on_request` entry point under a lock that
//! serializes all interpreter access, and bridge the result back out.

pub mod args;
pub mod bridge;
pub mod errors;
pub mod interp;
pub mod numtext;
pub mod script;
pub mod value;

pub use args::flatten_args;
pub use bridge::{from_native, parse_table, to_native};
pub use errors::{ScriptError, ScriptResult};
pub use script::{Script, ScriptMetadata};
pub use value::{JsonValue, NativeValue};
