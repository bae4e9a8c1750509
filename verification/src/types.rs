use vstd::prelude::*;

verus! {

/// Logical data type of a value or column, independent of the native
/// engine's dynamic run-time type tags.
#[derive(Debug, Copy, Clone, Eq, PartialEq, Hash, Structural)]
pub enum DataType {
    Null,
    Bool,
    Int,
    BigInt,
    Real,
    Text,
    Blob,
}

/// Inferred type of one output column. `nullable == None` means nullability
/// could not be determined; `Some(false)` / `Some(true)` mean it was
/// positively established.
#[derive(Debug, Copy, Clone, Eq, PartialEq, Hash, Structural)]
pub struct ColumnType {
    pub datatype: DataType,
    pub nullable: Option<bool>,
}

/// The column type that a run-time type tag stands for. The native engine
/// fixes the tags: 1 is an integer value, 2 a float, 3 text, 4 a blob.
/// A tag describes one observed value, so it determines the logical type
/// but never settles nullability: those columns carry `nullable == None`
/// (undetermined). Every other tag (5 marks a null value) gives no
/// concrete type; absence of a tag is indistinguishable from a true null
/// value at this layer, so those columns map to `Null` with
/// `nullable == Some(true)`.
pub open spec fn column_type_of_tag(tag: int) -> ColumnType {
    if tag == 1 {
        ColumnType { datatype: DataType::Int, nullable: None }
    } else if tag == 2 {
        ColumnType { datatype: DataType::Real, nullable: None }
    } else if tag == 3 {
        ColumnType { datatype: DataType::Text, nullable: None }
    } else if tag == 4 {
        ColumnType { datatype: DataType::Blob, nullable: None }
    } else {
        ColumnType { datatype: DataType::Null, nullable: Some(true) }
    }
}

impl ColumnType {
    /// Maps the native engine's run-time type tag for a column onto a
    /// logical column type. A tag alone cannot positively establish
    /// nullability, so recognized tags leave it undetermined; an
    /// unrecognized tag maps to a nullable `Null`.
    pub fn from_type_code(type_code: i32) -> (r: ColumnType)
        ensures
            r == column_type_of_tag(type_code as int),
    {
        match type_code {
            1 => ColumnType { datatype: DataType::Int, nullable: None },
            2 => ColumnType { datatype: DataType::Real, nullable: None },
            3 => ColumnType { datatype: DataType::Text, nullable: None },
            4 => ColumnType { datatype: DataType::Blob, nullable: None },
            _ => ColumnType { datatype: DataType::Null, nullable: Some(true) },
        }
    }
}

/// A constraint a caller may state about a statement's output shape.
#[derive(Debug, Clone, Eq, PartialEq, Hash)]
pub enum Constraint {
    Count(usize),
    Types(Vec<ColumnType>),
}

/// The final report for one SQL statement: whether it is read-only, how
/// many bound parameters it expects, and one type entry per output column
/// (`None` where inference failed to resolve the column after both stages).
#[derive(Debug, Clone, Eq, PartialEq, Hash)]
pub struct StatementInfo {
    pub read_only: bool,
    pub input_length: usize,
    pub output_length: usize,
    pub output_types: Vec<Option<ColumnType>>,
}

impl StatementInfo {
    /// The report always carries exactly one type entry per output column.
    pub open spec fn wf(self) -> bool {
        self.output_types@.len() == self.output_length
    }

    /// Builds the report; `output_length` is never anything but the number
    /// of entries in `output_types`.
    pub fn new(read_only: bool, input_length: usize, output_types: Vec<Option<ColumnType>>) -> (r:
        StatementInfo)
        ensures
            r.read_only == read_only,
            r.input_length == input_length,
            r.output_types == output_types,
            r.output_length == output_types@.len(),
            r.wf(),
    {
        let output_length = output_types.len();
        StatementInfo { read_only, input_length, output_length, output_types }
    }
}

} // verus!
