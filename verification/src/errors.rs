//! The failures the engine reports. All of them are recoverable: a
//! construction failure means no script unit exists at all, and an execution
//! failure leaves the unit usable for further calls.

use vstd::prelude::*;

verus! {

/// A failure of script construction or execution.
#[derive(Debug)]
pub enum ScriptError {
    /// The script source could not be read. The engine itself never reads
    /// files; the host constructs this when it fails to supply a source.
    IoError(String),
    /// The source failed to compile or to run at top level.
    CompileError(String),
    /// The named required global function is absent from the script.
    MissingEntryPoint(String),
    /// The `schema` entry point did not return a table.
    SchemaShapeError,
    /// The argument text is not a valid JSON array.
    MalformedArguments(String),
    /// The serialization lock is unusable. The engine's own lock cannot
    /// fail to acquire, so the engine never constructs this; it is part of
    /// the taxonomy for hosts whose locking can fail.
    LockError(String),
    /// The protected call trapped a fault raised inside the script, with the
    /// interpreter's message and the class of the fault.
    ScriptRuntimeError { message: String, status: String },
}

/// The result of a script operation.
pub type ScriptResult<T> = Result<T, ScriptError>;

} // verus!
