use vstd::prelude::*;

verus! {

/// A diagnostic reported by the native database engine: its extended error
/// code and the message text that came with it.
#[derive(Debug, Clone, Eq, PartialEq, Hash)]
pub struct SqliteError {
    pub code: i32,
    pub message: String,
}

impl SqliteError {
    /// Packages an engine diagnostic; callers read the code and message
    /// from the engine's last-error state and hand them in as plain values.
    pub fn new(code: i32, message: String) -> (r: SqliteError)
        ensures
            r.code == code,
            r.message == message,
    {
        SqliteError { code, message }
    }
}

/// Why an inference step failed.
#[derive(Debug, Clone, Eq, PartialEq, Hash)]
pub enum InferenceError {
    /// Opening a session against the target failed.
    Connection(SqliteError),
    /// The SQL text failed to compile; carries the engine's diagnostic.
    Prepare(SqliteError),
    /// Advancing a statement reported neither a row nor completion.
    Step(SqliteError),
    /// A column's schema origin resolved but the catalog metadata query for
    /// it failed: an inconsistency surfaced, never swallowed.
    SchemaLookup(SqliteError),
    /// A declared type string matched none of the recognized patterns;
    /// carries the text as it was given.
    UnknownDeclaredType(String),
}

} // verus!
