//! The catalog reader: decoding whole result rows into typed records.
//!
//! Queries are executed by the binary around this library; the rows come
//! back here, where every field is read through [`crate::session::row_cell`]
//! and decoded by the verified rules of [`crate::decode`]. Each contract is
//! exact over [`crate::session::row_cells`], the name for what a row holds.

use vstd::prelude::*;

use crate::aggregate::{
    aggregate_tables, raw_rows_view, spec_aggregate, spec_decode_rows, RawColumnRow,
    RawColumnRowView,
};
use crate::decode::{
    decode_i32_cell, decode_string_cell, spec_decode_i32_cell, spec_decode_string_cell,
};
use crate::errors::{SnowflakeMapperError, SnowflakeMapperErrorView};
use crate::model::{
    table_wf, tables_view, DatabaseInfo, DatabaseInfoView, TableInfo, WarehouseInfo,
    WarehouseInfoView,
};
use crate::session::{row_cell, row_cells, spec_cell_of};

verus! {

/// Reads one named column of a row as a string field, exactly as the field
/// rules describe on the row's cell: the text, the empty string for a null,
/// or a column error when the row has no such column.
pub fn get_value_from_row(row: &snowflake_connector_rs::SnowflakeRow, column: &str) -> (r: Result<
    String,
    SnowflakeMapperError,
>)
    ensures
        match r {
            Ok(v) => spec_decode_string_cell(spec_cell_of(row_cells(*row), column@), column@)
                == Ok::<Seq<char>, SnowflakeMapperErrorView>(v@),
            Err(e) => spec_decode_string_cell(spec_cell_of(row_cells(*row), column@), column@)
                == Err::<Seq<char>, SnowflakeMapperErrorView>(e@),
        },
{
    let cell = row_cell(row, column);
    decode_string_cell(&cell, column)
}

/// Reads one named column of a row as an optional integer field, exactly as
/// the field rules describe on the row's cell: absent for a null or empty
/// source, the parsed value, or a column error naming the column.
pub fn get_i32_from_row(row: &snowflake_connector_rs::SnowflakeRow, column: &str) -> (r: Result<
    Option<i32>,
    SnowflakeMapperError,
>)
    ensures
        match r {
            Ok(v) => spec_decode_i32_cell(spec_cell_of(row_cells(*row), column@), column@) == Ok::<
                Option<i32>,
                SnowflakeMapperErrorView,
            >(v),
            Err(e) => spec_decode_i32_cell(spec_cell_of(row_cells(*row), column@), column@)
                == Err::<Option<i32>, SnowflakeMapperErrorView>(e@),
        },
{
    let cell = row_cell(row, column);
    decode_i32_cell(&cell, column)
}

/// What decoding one row of the databases listing yields: the three string
/// fields read in order, with the first failure reported.
pub open spec fn spec_database_record(cells: Map<Seq<char>, Option<Seq<char>>>) -> Result<
    DatabaseInfoView,
    SnowflakeMapperErrorView,
> {
    match spec_decode_string_cell(spec_cell_of(cells, "name"@), "name"@) {
        Err(e) => Err(e),
        Ok(name) => match spec_decode_string_cell(spec_cell_of(cells, "created_on"@), "created_on"@) {
            Err(e) => Err(e),
            Ok(created_on) => match spec_decode_string_cell(
                spec_cell_of(cells, "owner"@),
                "owner"@,
            ) {
                Err(e) => Err(e),
                Ok(owner) => Ok(DatabaseInfoView { name, created_on, owner }),
            },
        },
    }
}

/// Decodes the rows of the databases listing: one record per row, in input
/// order, each field exactly as [`spec_database_record`] describes; the
/// first failing row's error is reported instead, and no partial result.
#[verifier::rlimit(60)]
pub fn decode_database_rows(rows: &Vec<snowflake_connector_rs::SnowflakeRow>) -> (r: Result<
    Vec<DatabaseInfo>,
    SnowflakeMapperError,
>)
    ensures
        match r {
            Ok(dbs) => dbs@.len() == rows@.len() && forall|i: int|
                0 <= i < rows@.len() ==> spec_database_record(row_cells(rows@[i])) == Ok::<
                    DatabaseInfoView,
                    SnowflakeMapperErrorView,
                >((#[trigger] dbs@[i])@),
            Err(e) => exists|i: int|
                0 <= i < rows@.len() && spec_database_record(row_cells(#[trigger] rows@[i]))
                    == Err::<DatabaseInfoView, SnowflakeMapperErrorView>(e@) && (forall|j: int|
                    0 <= j < i ==> spec_database_record(row_cells(#[trigger] rows@[j])) is Ok),
        },
{
    let mut dbs: Vec<DatabaseInfo> = Vec::new();
    let mut i: usize = 0;
    while i < rows.len()
        invariant
            0 <= i <= rows@.len(),
            dbs@.len() == i,
            forall|j: int|
                0 <= j < i ==> spec_database_record(row_cells(rows@[j])) == Ok::<
                    DatabaseInfoView,
                    SnowflakeMapperErrorView,
                >((#[trigger] dbs@[j])@),
        decreases rows@.len() - i,
    {
        let row = &rows[i];
        let name = match get_value_from_row(row, "name") {
            Ok(v) => v,
            Err(e) => {
                proof {
                    assert(spec_database_record(row_cells(rows@[i as int])) == Err::<
                        DatabaseInfoView,
                        SnowflakeMapperErrorView,
                    >(e@));
                    assert forall|j: int| 0 <= j < i implies spec_database_record(
                        row_cells(#[trigger] rows@[j]),
                    ) is Ok by {
                        assert(spec_database_record(row_cells(rows@[j])) == Ok::<
                            DatabaseInfoView,
                            SnowflakeMapperErrorView,
                        >(dbs@[j]@));
                    }
                }
                return Err(e);
            },
        };
        let created_on = match get_value_from_row(row, "created_on") {
            Ok(v) => v,
            Err(e) => {
                proof {
                    assert(spec_database_record(row_cells(rows@[i as int])) == Err::<
                        DatabaseInfoView,
                        SnowflakeMapperErrorView,
                    >(e@));
                    assert forall|j: int| 0 <= j < i implies spec_database_record(
                        row_cells(#[trigger] rows@[j]),
                    ) is Ok by {
                        assert(spec_database_record(row_cells(rows@[j])) == Ok::<
                            DatabaseInfoView,
                            SnowflakeMapperErrorView,
                        >(dbs@[j]@));
                    }
                }
                return Err(e);
            },
        };
        let owner = match get_value_from_row(row, "owner") {
            Ok(v) => v,
            Err(e) => {
                proof {
                    assert(spec_database_record(row_cells(rows@[i as int])) == Err::<
                        DatabaseInfoView,
                        SnowflakeMapperErrorView,
                    >(e@));
                    assert forall|j: int| 0 <= j < i implies spec_database_record(
                        row_cells(#[trigger] rows@[j]),
                    ) is Ok by {
                        assert(spec_database_record(row_cells(rows@[j])) == Ok::<
                            DatabaseInfoView,
                            SnowflakeMapperErrorView,
                        >(dbs@[j]@));
                    }
                }
                return Err(e);
            },
        };
        dbs.push(DatabaseInfo { name, created_on, owner });
        i += 1;
    }
    Ok(dbs)
}

/// What decoding one row of the warehouses listing yields: the four string
/// fields read in order, with the first failure reported.
pub open spec fn spec_warehouse_record(cells: Map<Seq<char>, Option<Seq<char>>>) -> Result<
    WarehouseInfoView,
    SnowflakeMapperErrorView,
> {
    match spec_decode_string_cell(spec_cell_of(cells, "name"@), "name"@) {
        Err(e) => Err(e),
        Ok(name) => match spec_decode_string_cell(spec_cell_of(cells, "size"@), "size"@) {
            Err(e) => Err(e),
            Ok(size) => match spec_decode_string_cell(spec_cell_of(cells, "state"@), "state"@) {
                Err(e) => Err(e),
                Ok(state) => match spec_decode_string_cell(
                    spec_cell_of(cells, "type"@),
                    "type"@,
                ) {
                    Err(e) => Err(e),
                    Ok(type_) => Ok(WarehouseInfoView { name, size, state, type_ }),
                },
            },
        },
    }
}

/// Decodes the rows of the warehouses listing: one record per row, in input
/// order, each field exactly as [`spec_warehouse_record`] describes; the
/// first failing row's error is reported instead, and no partial result.
#[verifier::rlimit(60)]
pub fn decode_warehouse_rows(rows: &Vec<snowflake_connector_rs::SnowflakeRow>) -> (r: Result<
    Vec<WarehouseInfo>,
    SnowflakeMapperError,
>)
    ensures
        match r {
            Ok(ws) => ws@.len() == rows@.len() && forall|i: int|
                0 <= i < rows@.len() ==> spec_warehouse_record(row_cells(rows@[i])) == Ok::<
                    WarehouseInfoView,
                    SnowflakeMapperErrorView,
                >((#[trigger] ws@[i])@),
            Err(e) => exists|i: int|
                0 <= i < rows@.len() && spec_warehouse_record(row_cells(#[trigger] rows@[i]))
                    == Err::<WarehouseInfoView, SnowflakeMapperErrorView>(e@) && (forall|j: int|
                    0 <= j < i ==> spec_warehouse_record(row_cells(#[trigger] rows@[j])) is Ok),
        },
{
    let mut ws: Vec<WarehouseInfo> = Vec::new();
    let mut i: usize = 0;
    while i < rows.len()
        invariant
            0 <= i <= rows@.len(),
            ws@.len() == i,
            forall|j: int|
                0 <= j < i ==> spec_warehouse_record(row_cells(rows@[j])) == Ok::<
                    WarehouseInfoView,
                    SnowflakeMapperErrorView,
                >((#[trigger] ws@[j])@),
        decreases rows@.len() - i,
    {
        let row = &rows[i];
        let name = match get_value_from_row(row, "name") {
            Ok(v) => v,
            Err(e) => {
                proof {
                    assert(spec_warehouse_record(row_cells(rows@[i as int])) == Err::<
                        WarehouseInfoView,
                        SnowflakeMapperErrorView,
                    >(e@));
                    assert forall|j: int| 0 <= j < i implies spec_warehouse_record(
                        row_cells(#[trigger] rows@[j]),
                    ) is Ok by {
                        assert(spec_warehouse_record(row_cells(rows@[j])) == Ok::<
                            WarehouseInfoView,
                            SnowflakeMapperErrorView,
                        >(ws@[j]@));
                    }
                }
                return Err(e);
            },
        };
        let size = match get_value_from_row(row, "size") {
            Ok(v) => v,
            Err(e) => {
                proof {
                    assert(spec_warehouse_record(row_cells(rows@[i as int])) == Err::<
                        WarehouseInfoView,
                        SnowflakeMapperErrorView,
                    >(e@));
                    assert forall|j: int| 0 <= j < i implies spec_warehouse_record(
                        row_cells(#[trigger] rows@[j]),
                    ) is Ok by {
                        assert(spec_warehouse_record(row_cells(rows@[j])) == Ok::<
                            WarehouseInfoView,
                            SnowflakeMapperErrorView,
                        >(ws@[j]@));
                    }
                }
                return Err(e);
            },
        };
        let state = match get_value_from_row(row, "state") {
            Ok(v) => v,
            Err(e) => {
                proof {
                    assert(spec_warehouse_record(row_cells(rows@[i as int])) == Err::<
                        WarehouseInfoView,
                        SnowflakeMapperErrorView,
                    >(e@));
                    assert forall|j: int| 0 <= j < i implies spec_warehouse_record(
                        row_cells(#[trigger] rows@[j]),
                    ) is Ok by {
                        assert(spec_warehouse_record(row_cells(rows@[j])) == Ok::<
                            WarehouseInfoView,
                            SnowflakeMapperErrorView,
                        >(ws@[j]@));
                    }
                }
                return Err(e);
            },
        };
        let type_ = match get_value_from_row(row, "type") {
            Ok(v) => v,
            Err(e) => {
                proof {
                    assert(spec_warehouse_record(row_cells(rows@[i as int])) == Err::<
                        WarehouseInfoView,
                        SnowflakeMapperErrorView,
                    >(e@));
                    assert forall|j: int| 0 <= j < i implies spec_warehouse_record(
                        row_cells(#[trigger] rows@[j]),
                    ) is Ok by {
                        assert(spec_warehouse_record(row_cells(rows@[j])) == Ok::<
                            WarehouseInfoView,
                            SnowflakeMapperErrorView,
                        >(ws@[j]@));
                    }
                }
                return Err(e);
            },
        };
        ws.push(WarehouseInfo { name, size, state, type_ });
        i += 1;
    }
    Ok(ws)
}

/// The raw row determined by a row's contents: each catalog field read by
/// the cell rules.
pub open spec fn spec_raw_of(cells: Map<Seq<char>, Option<Seq<char>>>) -> RawColumnRowView {
    RawColumnRowView {
        table_schema: spec_cell_of(cells, "table_schema"@),
        table_name: spec_cell_of(cells, "table_name"@),
        column_name: spec_cell_of(cells, "column_name"@),
        data_type: spec_cell_of(cells, "data_type"@),
        is_nullable: spec_cell_of(cells, "is_nullable"@),
        character_maximum_length: spec_cell_of(cells, "character_maximum_length"@),
        numeric_precision: spec_cell_of(cells, "numeric_precision"@),
        numeric_scale: spec_cell_of(cells, "numeric_scale"@),
    }
}

/// The raw rows determined by a row sequence, in order.
pub open spec fn spec_raws_of(rows: Seq<snowflake_connector_rs::SnowflakeRow>) -> Seq<
    RawColumnRowView,
> {
    rows.map_values(|row: snowflake_connector_rs::SnowflakeRow| spec_raw_of(row_cells(row)))
}

/// Reads every catalog field of one columns-view row, without decoding,
/// exactly as [`spec_raw_of`] describes.
pub fn read_column_row(row: &snowflake_connector_rs::SnowflakeRow) -> (raw: RawColumnRow)
    ensures
        raw@ == spec_raw_of(row_cells(*row)),
{
    let raw = RawColumnRow {
        table_schema: row_cell(row, "table_schema"),
        table_name: row_cell(row, "table_name"),
        column_name: row_cell(row, "column_name"),
        data_type: row_cell(row, "data_type"),
        is_nullable: row_cell(row, "is_nullable"),
        character_maximum_length: row_cell(row, "character_maximum_length"),
        numeric_precision: row_cell(row, "numeric_precision"),
        numeric_scale: row_cell(row, "numeric_scale"),
    };
    proof {
        assert(raw@ =~~= spec_raw_of(row_cells(*row)));
    }
    raw
}

/// Reads every catalog field of each columns-view row, without decoding.
pub fn collect_column_rows(rows: &Vec<snowflake_connector_rs::SnowflakeRow>) -> (raws: Vec<
    RawColumnRow,
>)
    ensures
        raws@.len() == rows@.len(),
        raw_rows_view(raws@) == spec_raws_of(rows@),
{
    let mut raws: Vec<RawColumnRow> = Vec::new();
    let mut i: usize = 0;
    while i < rows.len()
        invariant
            0 <= i <= rows@.len(),
            raws@.len() == i,
            forall|j: int|
                0 <= j < i ==> (#[trigger] raws@[j])@ == spec_raw_of(row_cells(rows@[j])),
        decreases rows@.len() - i,
    {
        raws.push(read_column_row(&rows[i]));
        i += 1;
    }
    proof {
        assert(raw_rows_view(raws@) =~= spec_raws_of(rows@));
    }
    raws
}

/// Builds the table documents of one database from its columns-view rows:
/// every field read, decoded and grouped, exactly the aggregation of the
/// raw rows the row contents determine; the first decode failure is
/// reported instead. A success yields only well-formed tables — each
/// carrying the database's name and owning at least one column.
pub fn tables_from_rows(
    database: &str,
    rows: &Vec<snowflake_connector_rs::SnowflakeRow>,
) -> (r: Result<Vec<TableInfo>, SnowflakeMapperError>)
    ensures
        match r {
            Ok(tables) => spec_decode_rows(spec_raws_of(rows@)) is Ok && tables_view(tables@)
                == spec_aggregate(database@, spec_decode_rows(spec_raws_of(rows@))->Ok_0)
                && forall|i: int|
                0 <= i < tables@.len() ==> table_wf((#[trigger] tables@[i])@, database@),
            Err(e) => spec_decode_rows(spec_raws_of(rows@)) == Err::<
                Seq<crate::aggregate::ColumnRowView>,
                SnowflakeMapperErrorView,
            >(e@),
        },
{
    let raws = collect_column_rows(rows);
    let r = aggregate_tables(database, &raws);
    match r {
        Ok(tables) => {
            proof {
                let decoded = spec_decode_rows(spec_raws_of(rows@))->Ok_0;
                crate::aggregate::lemma_aggregate_wf(database@, decoded);
                let tv = tables_view(tables@);
                assert(tv == spec_aggregate(database@, decoded));
                assert forall|i: int| 0 <= i < tables@.len() implies table_wf(
                    (#[trigger] tables@[i])@,
                    database@,
                ) by {
                    assert(tv[i] == tables@[i]@);
                    assert(table_wf(spec_aggregate(database@, decoded)[i], database@));
                }
            }
            Ok(tables)
        },
        Err(e) => Err(e),
    }
}

} // verus!
