use explainer::error::{InferenceError, SqliteError};
use explainer::infer::{
    fallback_types, fallback_types_from_tags, has_unresolved, merge_output_types,
    resolve_schema_metadata, synthesize_info,
};
use explainer::types::{ColumnType, Constraint, DataType, StatementInfo};

#[test]
fn it_works() {
    let result = explainer::add(2, 2);
    assert_eq!(result, 4);
}

#[test]
fn test_data_type_from_str() {
    assert_eq!(DataType::Int, "INT4".parse::<DataType>().unwrap());

    assert_eq!(DataType::Int, "INT".parse::<DataType>().unwrap());
    assert_eq!(DataType::Int, "INTEGER".parse::<DataType>().unwrap());
    assert_eq!(DataType::Int, "MEDIUMINT".parse::<DataType>().unwrap());

    assert_eq!(DataType::BigInt, "INTBIG".parse::<DataType>().unwrap());
    assert_eq!(DataType::BigInt, "BIGINT".parse::<DataType>().unwrap());
    assert_eq!(DataType::BigInt, "UNSIGNED BIG INT".parse::<DataType>().unwrap());
    assert_eq!(DataType::BigInt, "INT8".parse::<DataType>().unwrap());

    assert_eq!(DataType::Text, "CHARACTER(20)".parse::<DataType>().unwrap());
    assert_eq!(DataType::Text, "NCHAR(55)".parse::<DataType>().unwrap());
    assert_eq!(DataType::Text, "TEXT".parse::<DataType>().unwrap());
    assert_eq!(DataType::Text, "CLOB".parse::<DataType>().unwrap());

    assert_eq!(DataType::Blob, "BLOB".parse::<DataType>().unwrap());

    assert_eq!(DataType::Real, "REAL".parse::<DataType>().unwrap());
    assert_eq!(DataType::Real, "FLOAT".parse::<DataType>().unwrap());
    assert_eq!(DataType::Real, "DOUBLE PRECISION".parse::<DataType>().unwrap());

    assert_eq!(DataType::Bool, "BOOLEAN".parse::<DataType>().unwrap());
    assert_eq!(DataType::Bool, "BOOL".parse::<DataType>().unwrap());
}

#[test]
fn parse_is_case_insensitive() {
    assert_eq!(DataType::parse("double precision").unwrap(), DataType::Real);
    assert_eq!(DataType::parse("Double Precision").unwrap(), DataType::Real);
    assert_eq!(DataType::parse("DOUBLE PRECISION").unwrap(), DataType::Real);
    assert_eq!(DataType::parse("int4").unwrap(), DataType::Int);
    assert_eq!(DataType::parse("Int4").unwrap(), DataType::Int);
    assert_eq!(DataType::parse("vArChAr(12)").unwrap(), DataType::Text);
    assert_eq!(DataType::parse("unsigned big int").unwrap(), DataType::BigInt);
}

#[test]
fn parse_rejects_unknown_declared_types() {
    match DataType::parse("DATETIME") {
        Err(InferenceError::UnknownDeclaredType(t)) => assert_eq!(t, "DATETIME"),
        other => panic!("expected an unknown-declared-type error, got {:?}", other),
    }
    match DataType::parse("") {
        Err(InferenceError::UnknownDeclaredType(t)) => assert_eq!(t, ""),
        other => panic!("expected an unknown-declared-type error, got {:?}", other),
    }
    assert!(DataType::parse("NUMERIC").is_err());
    assert!(DataType::parse("DECIMAL(10,5)").is_err());
}

#[test]
fn parse_exact_rules_win_over_substring_rules() {
    // "int8" would hit the generic "int" substring rule and come out as Int
    // if the exact rule did not run first.
    assert_eq!(DataType::parse("int8").unwrap(), DataType::BigInt);
    assert_eq!(DataType::parse("int4").unwrap(), DataType::Int);
    // "boolean" contains no other pattern, but "bool" must not fall through
    // to the failure case.
    assert_eq!(DataType::parse("bool").unwrap(), DataType::Bool);
}

#[test]
fn from_type_code_maps_every_tag() {
    // A tag describes one observed value: it determines the logical type
    // but leaves nullability undetermined.
    assert_eq!(
        ColumnType::from_type_code(1),
        ColumnType { datatype: DataType::Int, nullable: None }
    );
    assert_eq!(
        ColumnType::from_type_code(2),
        ColumnType { datatype: DataType::Real, nullable: None }
    );
    assert_eq!(
        ColumnType::from_type_code(3),
        ColumnType { datatype: DataType::Text, nullable: None }
    );
    assert_eq!(
        ColumnType::from_type_code(4),
        ColumnType { datatype: DataType::Blob, nullable: None }
    );
    // The null tag, and any tag the mapping does not recognize, comes out
    // as a nullable Null.
    let nullable_null = ColumnType { datatype: DataType::Null, nullable: Some(true) };
    assert_eq!(ColumnType::from_type_code(5), nullable_null);
    assert_eq!(ColumnType::from_type_code(0), nullable_null);
    assert_eq!(ColumnType::from_type_code(-7), nullable_null);
    assert_eq!(ColumnType::from_type_code(99), nullable_null);
}

#[test]
fn resolve_schema_metadata_reads_declared_type_and_not_null() {
    // A declared not-null big-integer column and a declared nullable
    // big-integer column.
    assert_eq!(
        resolve_schema_metadata(Some("bigint"), true).unwrap(),
        Some(ColumnType { datatype: DataType::BigInt, nullable: Some(false) })
    );
    assert_eq!(
        resolve_schema_metadata(Some("bigint"), false).unwrap(),
        Some(ColumnType { datatype: DataType::BigInt, nullable: Some(true) })
    );
    // No declared type text: defer to the fallback, not an error.
    assert_eq!(resolve_schema_metadata(None, true).unwrap(), None);
    assert_eq!(resolve_schema_metadata(None, false).unwrap(), None);
    // An unparseable declared type is a hard error carrying the text.
    match resolve_schema_metadata(Some("GEOMETRY"), false) {
        Err(InferenceError::UnknownDeclaredType(t)) => assert_eq!(t, "GEOMETRY"),
        other => panic!("expected an unknown-declared-type error, got {:?}", other),
    }
}

#[test]
fn has_unresolved_finds_the_gap() {
    let int_col = ColumnType { datatype: DataType::Int, nullable: Some(false) };
    assert!(!has_unresolved(&vec![]));
    assert!(!has_unresolved(&vec![Some(int_col), Some(int_col)]));
    assert!(has_unresolved(&vec![None]));
    assert!(has_unresolved(&vec![Some(int_col), None, Some(int_col)]));
}

#[test]
fn merge_keeps_schema_types_and_fills_gaps_positionally() {
    let a = ColumnType { datatype: DataType::BigInt, nullable: Some(false) };
    let b = ColumnType { datatype: DataType::Text, nullable: Some(true) };
    let c = ColumnType { datatype: DataType::Real, nullable: None };
    let mut types = vec![Some(a), None, None];
    // The fallback is shorter than the output: the last column has no entry
    // at its position and stays unresolved.
    let fallback = vec![Some(b), Some(c)];
    merge_output_types(&mut types, &fallback);
    assert_eq!(types, vec![Some(a), Some(c), None]);
}

#[test]
fn merge_with_empty_fallback_changes_nothing() {
    let a = ColumnType { datatype: DataType::Int, nullable: Some(false) };
    let mut types = vec![None, Some(a)];
    let fallback = vec![];
    merge_output_types(&mut types, &fallback);
    assert_eq!(types, vec![None, Some(a)]);
}

#[test]
fn fallback_types_from_tags_maps_each_column() {
    let tags = vec![1, 3, 5];
    assert_eq!(
        fallback_types_from_tags(&tags),
        vec![
            Some(ColumnType { datatype: DataType::Int, nullable: None }),
            Some(ColumnType { datatype: DataType::Text, nullable: None }),
            Some(ColumnType { datatype: DataType::Null, nullable: Some(true) }),
        ]
    );
    assert_eq!(fallback_types_from_tags(&vec![]), vec![]);
}

#[test]
fn fallback_without_a_row_leaves_every_column_unresolved() {
    assert_eq!(fallback_types(false, &vec![], 3), vec![None, None, None]);
    assert_eq!(fallback_types(false, &vec![], 0), vec![]);
    // With a row observed, the tags decide, one entry per tag.
    assert_eq!(
        fallback_types(true, &vec![2, 5], 2),
        vec![
            Some(ColumnType { datatype: DataType::Real, nullable: None }),
            Some(ColumnType { datatype: DataType::Null, nullable: Some(true) }),
        ]
    );
}

#[test]
fn statement_info_always_carries_one_entry_per_column() {
    let int_col = ColumnType { datatype: DataType::Int, nullable: Some(false) };
    let info = StatementInfo::new(true, 2, vec![Some(int_col), None, None]);
    assert_eq!(info.output_length, 3);
    assert_eq!(info.output_types.len(), info.output_length);
    assert_eq!(info.input_length, 2);
    assert!(info.read_only);

    let empty = StatementInfo::new(false, 0, vec![]);
    assert_eq!(empty.output_length, 0);
    assert_eq!(empty.output_types.len(), 0);
    assert_eq!(empty.input_length, 0);
    assert!(!empty.read_only);
}

#[test]
fn synthesize_without_fallback_keeps_the_schema_pass() {
    let a = ColumnType { datatype: DataType::BigInt, nullable: Some(false) };
    let info = synthesize_info(true, 1, vec![Some(a), None], None);
    assert!(info.read_only);
    assert_eq!(info.input_length, 1);
    assert_eq!(info.output_length, 2);
    assert_eq!(info.output_types, vec![Some(a), None]);
}

#[test]
fn synthesize_merges_the_fallback_pass() {
    // The shape of introspecting a single-column statement that selects a
    // literal integer constant: read-only, no placeholders, one column with
    // no schema origin, typed by its run-time tag.
    let fallback = fallback_types_from_tags(&vec![1]);
    let info = synthesize_info(true, 0, vec![None], Some(&fallback));
    assert!(info.read_only);
    assert_eq!(info.input_length, 0);
    assert_eq!(info.output_length, 1);
    assert_eq!(
        info.output_types,
        vec![Some(ColumnType { datatype: DataType::Int, nullable: None })]
    );
}

#[test]
fn sqlite_error_carries_code_and_message() {
    let e = SqliteError::new(14, String::from("unable to open database file"));
    assert_eq!(e.code, 14);
    assert_eq!(e.message, "unable to open database file");
    let wrapped = InferenceError::SchemaLookup(e.clone());
    assert_eq!(wrapped, InferenceError::SchemaLookup(e));
}

#[test]
fn constraint_values_compare_structurally() {
    let t = ColumnType { datatype: DataType::Text, nullable: Some(true) };
    assert_eq!(Constraint::Count(3), Constraint::Count(3));
    assert_ne!(Constraint::Count(3), Constraint::Count(4));
    assert_eq!(Constraint::Types(vec![t]), Constraint::Types(vec![t]));
    assert_ne!(Constraint::Types(vec![t]), Constraint::Count(1));
}
