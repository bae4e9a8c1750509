use vstd::prelude::*;
use vstd::string::StringSliceAdditionalSpecFns;

use crate::error::InferenceError;
use crate::parse::parse_declared;
use crate::types::{column_type_of_tag, ColumnType, DataType, StatementInfo};

verus! {

/// What the schema pass records for a column whose origin resolved: the
/// catalog's declared type text decides the logical type, the catalog's
/// not-null flag decides nullability.
pub open spec fn schema_column_type(declared: Seq<u8>, not_null: bool) -> Option<ColumnType> {
    match parse_declared(declared) {
        Some(dt) => Some(ColumnType { datatype: dt, nullable: Some(!not_null) }),
        None => None,
    }
}

/// Resolves one column from its catalog metadata. `declared` is the
/// catalog's declared type text for the column's origin, or `None` where
/// the schema declares no type (legal; the column is then left for the
/// fallback pass); `not_null` is the catalog's not-null flag. A declared
/// text that matches no recognized pattern is a hard error, never a guess.
pub fn resolve_schema_metadata(declared: Option<&str>, not_null: bool) -> (r: Result<
    Option<ColumnType>,
    InferenceError,
>)
    ensures
        match declared {
            None => r == Ok::<Option<ColumnType>, InferenceError>(None),
            Some(d) => match parse_declared(d.spec_bytes()) {
                Some(dt) => r == Ok::<Option<ColumnType>, InferenceError>(
                    Some(ColumnType { datatype: dt, nullable: Some(!not_null) }),
                ) && r == Ok::<Option<ColumnType>, InferenceError>(
                    schema_column_type(d.spec_bytes(), not_null),
                ),
                None => r matches Err(e) && (e matches InferenceError::UnknownDeclaredType(t)
                    && t@ == d@),
            },
        },
{
    match declared {
        None => Ok(None),
        Some(d) => match DataType::parse(d) {
            Ok(dt) => Ok(Some(ColumnType { datatype: dt, nullable: Some(!not_null) })),
            Err(e) => Err(e),
        },
    }
}

/// Whether at least one column came out of the schema pass unresolved, so
/// that the fallback pass is needed at all.
pub fn has_unresolved(types: &Vec<Option<ColumnType>>) -> (r: bool)
    ensures
        r == exists|i: int| 0 <= i < types@.len() && types@[i] is None,
{
    let n = types.len();
    let mut i: usize = 0;
    while i < n
        invariant
            n == types@.len(),
            i <= n,
            forall|j: int| 0 <= j < i ==> !(types@[j] is None),
        decreases n - i,
    {
        if types[i].is_none() {
            return true;
        }
        i = i + 1;
    }
    false
}

/// The type a column ends up with after the two passes are merged: the
/// schema pass wins where it resolved the column; otherwise the fallback's
/// entry at the same position, if it produced one; otherwise the column
/// stays unresolved.
pub open spec fn merged_column_type(
    schema: Seq<Option<ColumnType>>,
    fallback: Seq<Option<ColumnType>>,
    i: int,
) -> Option<ColumnType> {
    if schema[i] is Some {
        schema[i]
    } else if 0 <= i < fallback.len() {
        fallback[i]
    } else {
        None
    }
}

/// Merges the fallback pass into the schema pass positionally: every column
/// the schema pass resolved keeps its type; every other column takes the
/// fallback's entry at its position, where the fallback has one.
pub fn merge_output_types(
    types: &mut Vec<Option<ColumnType>>,
    fallback: &Vec<Option<ColumnType>>,
)
    ensures
        final (types)@.len() == old(types)@.len(),
        forall|i: int|
            0 <= i < old(types)@.len() ==> final (types)@[i] == merged_column_type(
                old(types)@,
                fallback@,
                i,
            ),
{
    let n = types.len();
    let mut i: usize = 0;
    while i < n
        invariant
            n == old(types)@.len(),
            types@.len() == n,
            i <= n,
            forall|j: int| i <= j < n ==> types@[j] == old(types)@[j],
            forall|j: int|
                0 <= j < i ==> types@[j] == merged_column_type(old(types)@, fallback@, j),
        decreases n - i,
    {
        if types[i].is_none() {
            if i < fallback.len() {
                let entry = fallback[i];
                types.set(i, entry);
            }
        }
        i = i + 1;
    }
}

/// What the fallback pass produces: when the introspection observed a row,
/// one entry per observed tag, each column typed by its tag; when it
/// observed none, there is nothing to read a type from and every one of
/// the statement's columns stays unresolved.
pub fn fallback_types(produced_row: bool, tags: &Vec<i32>, column_count: usize) -> (r: Vec<
    Option<ColumnType>,
>)
    ensures
        produced_row ==> r@.len() == tags@.len() && forall|i: int|
            0 <= i < tags@.len() ==> r@[i] == Some(column_type_of_tag(tags@[i] as int)),
        !produced_row ==> r@.len() == column_count && forall|i: int|
            0 <= i < r@.len() ==> r@[i] is None,
{
    if produced_row {
        fallback_types_from_tags(tags)
    } else {
        let mut r: Vec<Option<ColumnType>> = Vec::new();
        let mut i: usize = 0;
        while i < column_count
            invariant
                i <= column_count,
                r@.len() == i,
                forall|j: int| 0 <= j < i ==> r@[j] is None,
            decreases column_count - i,
        {
            r.push(None);
            i = i + 1;
        }
        r
    }
}

/// Best-effort fallback typing from run-time type tags, one tag per output
/// column: each column gets the logical type its tag stands for, with
/// nullability left undetermined.
pub fn fallback_types_from_tags(tags: &Vec<i32>) -> (r: Vec<Option<ColumnType>>)
    ensures
        r@.len() == tags@.len(),
        forall|i: int|
            0 <= i < tags@.len() ==> r@[i] == Some(column_type_of_tag(tags@[i] as int)),
{
    let n = tags.len();
    let mut r: Vec<Option<ColumnType>> = Vec::new();
    let mut i: usize = 0;
    while i < n
        invariant
            n == tags@.len(),
            i <= n,
            r@.len() == i,
            forall|j: int| 0 <= j < i ==> r@[j] == Some(column_type_of_tag(tags@[j] as int)),
        decreases n - i,
    {
        r.push(Some(ColumnType::from_type_code(tags[i])));
        i = i + 1;
    }
    r
}

/// The synthesis step of the inference: combines the metadata the engine
/// reported (read-only flag, bound-parameter count) with the schema pass
/// and, where one ran, the fallback pass, into the final report. The report
/// carries one entry per schema-pass column, merged positionally.
pub fn synthesize_info(
    read_only: bool,
    parameter_count: usize,
    schema_types: Vec<Option<ColumnType>>,
    fallback_types: Option<&Vec<Option<ColumnType>>>,
) -> (r: StatementInfo)
    ensures
        r.read_only == read_only,
        r.input_length == parameter_count,
        r.output_length == schema_types@.len(),
        r.output_types@.len() == schema_types@.len(),
        r.wf(),
        match fallback_types {
            None => r.output_types@ == schema_types@,
            Some(fb) => forall|i: int|
                0 <= i < schema_types@.len() ==> r.output_types@[i] == merged_column_type(
                    schema_types@,
                    fb@,
                    i,
                ),
        },
{
    let mut output_types = schema_types;
    match fallback_types {
        None => {},
        Some(fb) => {
            merge_output_types(&mut output_types, fb);
        },
    }
    StatementInfo::new(read_only, parameter_count, output_types)
}

} // verus!
