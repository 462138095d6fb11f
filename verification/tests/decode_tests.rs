use snowflake_mapper::decode::{decode_i32_cell, decode_is_nullable, decode_string_cell};
use snowflake_mapper::errors::SnowflakeMapperError;
use snowflake_mapper::text::{eq_ignore_ascii_case, parse_i32};

#[test]
fn string_cell_value_passes_through() {
    let cell: Result<Option<String>, String> = Ok(Some("PUBLIC".to_string()));
    let r = decode_string_cell(&cell, "table_schema").unwrap();
    assert_eq!(r, "PUBLIC");
}

#[test]
fn string_cell_null_becomes_empty() {
    let cell: Result<Option<String>, String> = Ok(None);
    let r = decode_string_cell(&cell, "owner").unwrap();
    assert_eq!(r, "");
}

#[test]
fn string_cell_read_failure_names_column() {
    let cell: Result<Option<String>, String> = Err("column not found: owner".to_string());
    let e = decode_string_cell(&cell, "owner").unwrap_err();
    match e {
        SnowflakeMapperError::ColumnError { column, message } => {
            assert_eq!(column, "owner");
            assert_eq!(message, "column not found: owner");
        }
        _ => panic!("expected a column error"),
    }
}

#[test]
fn i32_cell_empty_and_null_are_absent() {
    let empty: Result<Option<String>, String> = Ok(Some(String::new()));
    assert_eq!(decode_i32_cell(&empty, "numeric_scale").unwrap(), None);
    let null: Result<Option<String>, String> = Ok(None);
    assert_eq!(decode_i32_cell(&null, "numeric_scale").unwrap(), None);
}

#[test]
fn i32_cell_number_is_present() {
    let cell: Result<Option<String>, String> = Ok(Some("10".to_string()));
    assert_eq!(decode_i32_cell(&cell, "character_maximum_length").unwrap(), Some(10));
}

#[test]
fn i32_cell_garbage_is_a_column_error() {
    let cell: Result<Option<String>, String> = Ok(Some("abc".to_string()));
    let e = decode_i32_cell(&cell, "character_maximum_length").unwrap_err();
    match e {
        SnowflakeMapperError::ColumnError { column, .. } => {
            assert_eq!(column, "character_maximum_length");
        }
        _ => panic!("expected a column error"),
    }
}

#[test]
fn i32_cell_read_failure_is_a_column_error() {
    let cell: Result<Option<String>, String> = Err("column not found".to_string());
    let e = decode_i32_cell(&cell, "numeric_precision").unwrap_err();
    assert!(matches!(e, SnowflakeMapperError::ColumnError { .. }));
}

#[test]
fn is_nullable_accepts_yes_in_any_case() {
    assert!(decode_is_nullable("YES"));
    assert!(decode_is_nullable("yes"));
    assert!(decode_is_nullable("Yes"));
}

#[test]
fn is_nullable_rejects_everything_else() {
    assert!(!decode_is_nullable("NO"));
    assert!(!decode_is_nullable(""));
    assert!(!decode_is_nullable("maybe"));
    assert!(!decode_is_nullable("YESS"));
}

#[test]
fn parse_accepts_plain_numbers() {
    assert_eq!(parse_i32("10"), Some(10));
    assert_eq!(parse_i32("+10"), Some(10));
    assert_eq!(parse_i32("-10"), Some(-10));
    assert_eq!(parse_i32("0"), Some(0));
    assert_eq!(parse_i32("007"), Some(7));
}

#[test]
fn parse_handles_the_extremes() {
    assert_eq!(parse_i32("2147483647"), Some(i32::MAX));
    assert_eq!(parse_i32("-2147483648"), Some(i32::MIN));
    assert_eq!(parse_i32("2147483648"), None);
    assert_eq!(parse_i32("-2147483649"), None);
    assert_eq!(parse_i32("99999999999999999999"), None);
}

#[test]
fn parse_rejects_malformed_input() {
    assert_eq!(parse_i32(""), None);
    assert_eq!(parse_i32("-"), None);
    assert_eq!(parse_i32("+"), None);
    assert_eq!(parse_i32("abc"), None);
    assert_eq!(parse_i32("1 2"), None);
    assert_eq!(parse_i32("12a"), None);
}

#[test]
fn case_insensitive_comparison() {
    assert!(eq_ignore_ascii_case("Compute_WH", "COMPUTE_wh"));
    assert!(!eq_ignore_ascii_case("COMPUTE_WH", "COMPUTE"));
    assert!(!eq_ignore_ascii_case("a", "b"));
    assert!(eq_ignore_ascii_case("", ""));
}

#[test]
fn error_messages_are_exact() {
    let e = SnowflakeMapperError::ConnectionError("timeout".to_string());
    assert_eq!(e.message(), "Failed to connect to Snowflake: timeout");
    let e = SnowflakeMapperError::QueryError("bad sql".to_string());
    assert_eq!(e.message(), "Failed to execute query: bad sql");
    let e = SnowflakeMapperError::ColumnError {
        column: "owner".to_string(),
        message: "missing".to_string(),
    };
    assert_eq!(e.message(), "Failed to read column owner: missing");
    let e = SnowflakeMapperError::OutputError("disk full".to_string());
    assert_eq!(e.message(), "Failed to write output: disk full");
    let e = SnowflakeMapperError::MissingEnvVar("SNOWFLAKE_ACCOUNT".to_string());
    assert_eq!(e.message(), "Missing required environment variable: SNOWFLAKE_ACCOUNT");
}
