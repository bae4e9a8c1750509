//! Static introspection of SQL statements: before a statement runs, determine
//! whether it is read-only, how many bound parameters it expects, and a
//! logical type and nullability for every output column.
//!
//! This crate holds the verified core: the declared-type parser, the mapping
//! from runtime type tags to logical types, the schema-metadata resolution
//! rules, and the synthesis that merges schema-based and fallback-based
//! column types into a single report. Talking to the native database engine
//! itself requires raw FFI and lives outside the verified library; callers
//! feed the plain values the engine reports into the functions here.

use vstd::prelude::*;

pub mod error;
pub mod infer;
pub mod parse;
pub mod types;

verus! {

pub fn add(left: usize, right: usize) -> (r: usize)
    requires
        left + right <= usize::MAX,
    ensures
        r == left + right,
{
    left + right
}

} // verus!
