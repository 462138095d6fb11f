use snowflake_mapper::aggregate::{aggregate_tables, decode_rows, group_rows, RawColumnRow};
use snowflake_mapper::errors::SnowflakeMapperError;

fn raw_row(schema: &str, table: &str, column: &str, max_len: Option<&str>) -> RawColumnRow {
    RawColumnRow {
        table_schema: Ok(Some(schema.to_string())),
        table_name: Ok(Some(table.to_string())),
        column_name: Ok(Some(column.to_string())),
        data_type: Ok(Some("TEXT".to_string())),
        is_nullable: Ok(Some("YES".to_string())),
        character_maximum_length: Ok(max_len.map(|s| s.to_string())),
        numeric_precision: Ok(None),
        numeric_scale: Ok(None),
    }
}

#[test]
fn two_groups_from_three_rows() {
    // keys (S1,T1), (S1,T1), (S2,T2): two tables, with 2 and 1 columns
    let raws = vec![
        raw_row("S1", "T1", "A", None),
        raw_row("S1", "T1", "B", None),
        raw_row("S2", "T2", "C", None),
    ];
    let tables = aggregate_tables("DB", &raws).unwrap();
    assert_eq!(tables.len(), 2);
    assert_eq!(tables[0].schema_name, "S1");
    assert_eq!(tables[0].table_name, "T1");
    assert_eq!(tables[0].columns.len(), 2);
    assert_eq!(tables[0].columns[0].name, "A");
    assert_eq!(tables[0].columns[1].name, "B");
    assert_eq!(tables[1].schema_name, "S2");
    assert_eq!(tables[1].table_name, "T2");
    assert_eq!(tables[1].columns.len(), 1);
    assert_eq!(tables[1].columns[0].name, "C");
    for t in &tables {
        assert_eq!(t.database_name, "DB");
    }
}

#[test]
fn empty_rows_give_empty_tables() {
    let raws: Vec<RawColumnRow> = Vec::new();
    let tables = aggregate_tables("DB", &raws).unwrap();
    assert!(tables.is_empty());
}

#[test]
fn column_counts_sum_to_row_count_in_first_appearance_order() {
    let raws = vec![
        raw_row("A", "T1", "C1", None),
        raw_row("A", "T1", "C2", None),
        raw_row("A", "T2", "C1", None),
        raw_row("B", "T1", "C1", None),
        raw_row("B", "T1", "C2", None),
        raw_row("B", "T1", "C3", None),
    ];
    let tables = aggregate_tables("DB", &raws).unwrap();
    let total: usize = tables.iter().map(|t| t.columns.len()).sum();
    assert_eq!(total, raws.len());
    let keys: Vec<(String, String)> = tables
        .iter()
        .map(|t| (t.schema_name.clone(), t.table_name.clone()))
        .collect();
    assert_eq!(
        keys,
        vec![
            ("A".to_string(), "T1".to_string()),
            ("A".to_string(), "T2".to_string()),
            ("B".to_string(), "T1".to_string()),
        ]
    );
}

#[test]
fn column_fields_are_decoded() {
    let mut row = raw_row("S", "T", "C", Some("10"));
    row.numeric_precision = Ok(Some("38".to_string()));
    row.is_nullable = Ok(Some("no".to_string()));
    let tables = aggregate_tables("DB", &vec![row]).unwrap();
    let c = &tables[0].columns[0];
    assert_eq!(c.data_type, "TEXT");
    assert!(!c.is_nullable);
    assert_eq!(c.character_maximum_length, Some(10));
    assert_eq!(c.numeric_precision, Some(38));
    assert_eq!(c.numeric_scale, None);
}

#[test]
fn null_schema_decodes_to_empty_string_key() {
    let mut row = raw_row("S", "T", "C", None);
    row.table_schema = Ok(None);
    let tables = aggregate_tables("DB", &vec![row]).unwrap();
    assert_eq!(tables[0].schema_name, "");
    assert_eq!(tables[0].columns.len(), 1);
}

#[test]
fn bad_numeric_field_fails_the_aggregation() {
    let raws = vec![
        raw_row("S", "T", "C1", None),
        raw_row("S", "T", "C2", Some("abc")),
    ];
    let e = aggregate_tables("DB", &raws).unwrap_err();
    match e {
        SnowflakeMapperError::ColumnError { column, .. } => {
            assert_eq!(column, "character_maximum_length");
        }
        _ => panic!("expected a column error"),
    }
}

#[test]
fn first_failing_row_wins() {
    let mut bad_schema = raw_row("S", "T", "C1", None);
    bad_schema.table_schema = Err("no table_schema column".to_string());
    let raws = vec![bad_schema, raw_row("S", "T", "C2", Some("zzz"))];
    let e = aggregate_tables("DB", &raws).unwrap_err();
    match e {
        SnowflakeMapperError::ColumnError { column, message } => {
            assert_eq!(column, "table_schema");
            assert_eq!(message, "no table_schema column");
        }
        _ => panic!("expected a column error"),
    }
}

#[test]
fn decode_then_group_matches_aggregate() {
    let raws = vec![
        raw_row("S1", "T1", "A", None),
        raw_row("S1", "T1", "B", None),
        raw_row("S2", "T2", "C", None),
    ];
    let rows = decode_rows(&raws).unwrap();
    assert_eq!(rows.len(), 3);
    assert_eq!(rows[0].schema_name, "S1");
    assert_eq!(rows[0].column.name, "A");
    let tables = group_rows("DB", &rows);
    assert_eq!(tables.len(), 2);
    assert_eq!(tables[0].columns.len(), 2);
    assert_eq!(tables[1].columns.len(), 1);
}

#[test]
fn ungrouped_keys_split_again() {
    // a key that recurs after another key opens a fresh table
    let raws = vec![
        raw_row("S", "T1", "A", None),
        raw_row("S", "T2", "B", None),
        raw_row("S", "T1", "C", None),
    ];
    let tables = aggregate_tables("DB", &raws).unwrap();
    assert_eq!(tables.len(), 3);
    let total: usize = tables.iter().map(|t| t.columns.len()).sum();
    assert_eq!(total, 3);
}
