//! Field decoding rules for catalog result cells.
//!
//! A cell is the outcome of reading one named column of one result row as an
//! optional string: `Ok(Some(text))` for a value, `Ok(None)` for a SQL null,
//! and `Err(message)` when the row had no such column. The rules: string
//! fields decode a null to the empty string; optional numeric fields decode a
//! null or empty source to "absent" and anything else as a 32-bit integer or
//! fail; `is_nullable` is true exactly when the source equals `"YES"` up to
//! ASCII case.

use vstd::prelude::*;

use crate::errors::{SnowflakeMapperError, SnowflakeMapperErrorView};
use crate::text::{ci_seq_eq, eq_ignore_ascii_case, parse_i32, spec_parse_i32};

verus! {

/// Spec-level image of a cell: the optional text of the named column, or the
/// message of the failure to read it.
pub open spec fn cell_view(c: Result<Option<String>, String>) -> Result<
    Option<Seq<char>>,
    Seq<char>,
> {
    match c {
        Ok(Some(s)) => Ok(Some(s@)),
        Ok(None) => Ok(None),
        Err(m) => Err(m@),
    }
}

/// What decoding a cell as a string yields: the text, the empty string for a
/// null, and a column error carrying the read failure otherwise.
pub open spec fn spec_decode_string_cell(
    cell: Result<Option<Seq<char>>, Seq<char>>,
    column: Seq<char>,
) -> Result<Seq<char>, SnowflakeMapperErrorView> {
    match cell {
        Ok(Some(v)) => Ok(v),
        Ok(None) => Ok(Seq::<char>::empty()),
        Err(m) => Err(SnowflakeMapperErrorView::ColumnError { column, message: m }),
    }
}

/// The message reported when an optional numeric field fails to parse.
pub open spec fn spec_parse_failure_message() -> Seq<char> {
    "value is not a valid 32-bit integer"@
}

/// What decoding a cell as an optional integer yields: absent for a null or
/// empty source, the parsed value otherwise, and a column error when the
/// source does not parse or the cell could not be read.
pub open spec fn spec_decode_i32_cell(
    cell: Result<Option<Seq<char>>, Seq<char>>,
    column: Seq<char>,
) -> Result<Option<i32>, SnowflakeMapperErrorView> {
    match cell {
        Ok(Some(v)) => if v.len() == 0 {
            Ok(None)
        } else {
            match spec_parse_i32(v) {
                Some(n) => Ok(Some(n as i32)),
                None => Err(
                    SnowflakeMapperErrorView::ColumnError {
                        column,
                        message: spec_parse_failure_message(),
                    },
                ),
            }
        },
        Ok(None) => Ok(None),
        Err(m) => Err(SnowflakeMapperErrorView::ColumnError { column, message: m }),
    }
}

/// What decoding an `is_nullable` source string yields: true exactly when it
/// equals `"YES"` up to ASCII case.
pub open spec fn spec_is_yes(s: Seq<char>) -> bool {
    ci_seq_eq(s, seq!['Y', 'E', 'S'])
}

/// Decodes a cell as a string field, exactly as
/// [`spec_decode_string_cell`] describes.
pub fn decode_string_cell(cell: &Result<Option<String>, String>, column: &str) -> (r: Result<
    String,
    SnowflakeMapperError,
>)
    ensures
        match r {
            Ok(v) => spec_decode_string_cell(cell_view(*cell), column@) == Ok::<
                Seq<char>,
                SnowflakeMapperErrorView,
            >(v@),
            Err(e) => spec_decode_string_cell(cell_view(*cell), column@) == Err::<
                Seq<char>,
                SnowflakeMapperErrorView,
            >(e@),
        },
{
    match cell {
        Ok(Some(v)) => Ok(v.clone()),
        Ok(None) => Ok(String::new()),
        Err(m) => Err(
            SnowflakeMapperError::ColumnError {
                column: String::from_str(column),
                message: m.clone(),
            },
        ),
    }
}

/// Decodes a cell as an optional 32-bit integer field, exactly as
/// [`spec_decode_i32_cell`] describes.
pub fn decode_i32_cell(cell: &Result<Option<String>, String>, column: &str) -> (r: Result<
    Option<i32>,
    SnowflakeMapperError,
>)
    ensures
        match r {
            Ok(v) => spec_decode_i32_cell(cell_view(*cell), column@) == Ok::<
                Option<i32>,
                SnowflakeMapperErrorView,
            >(v),
            Err(e) => spec_decode_i32_cell(cell_view(*cell), column@) == Err::<
                Option<i32>,
                SnowflakeMapperErrorView,
            >(e@),
        },
{
    match cell {
        Ok(Some(v)) => {
            if v.as_str().is_empty() {
                Ok(None)
            } else {
                match parse_i32(v.as_str()) {
                    Some(n) => Ok(Some(n)),
                    None => Err(
                        SnowflakeMapperError::ColumnError {
                            column: String::from_str(column),
                            message: String::from_str("value is not a valid 32-bit integer"),
                        },
                    ),
                }
            }
        },
        Ok(None) => Ok(None),
        Err(m) => Err(
            SnowflakeMapperError::ColumnError {
                column: String::from_str(column),
                message: m.clone(),
            },
        ),
    }
}

/// Decodes an `is_nullable` source string, exactly as [`spec_is_yes`]
/// describes.
pub fn decode_is_nullable(value: &str) -> (r: bool)
    ensures
        r == spec_is_yes(value@),
{
    proof {
        reveal_strlit("YES");
        assert("YES"@ =~= seq!['Y', 'E', 'S']);
    }
    eq_ignore_ascii_case(value, "YES")
}

} // verus!
