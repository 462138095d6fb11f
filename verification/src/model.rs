//! The typed records the tool works with: databases, warehouses, columns and
//! tables, together with their spec-level views.

use vstd::prelude::*;

verus! {

/// Spec-level image of [`ColumnInfo`].
pub ghost struct ColumnInfoView {
    pub name: Seq<char>,
    pub data_type: Seq<char>,
    pub is_nullable: bool,
    pub character_maximum_length: Option<i32>,
    pub numeric_precision: Option<i32>,
    pub numeric_scale: Option<i32>,
}

/// One column of one table, as decoded from the catalog.
#[derive(Debug)]
pub struct ColumnInfo {
    pub name: String,
    pub data_type: String,
    pub is_nullable: bool,
    pub character_maximum_length: Option<i32>,
    pub numeric_precision: Option<i32>,
    pub numeric_scale: Option<i32>,
}

impl View for ColumnInfo {
    type V = ColumnInfoView;

    open spec fn view(&self) -> ColumnInfoView {
        ColumnInfoView {
            name: self.name@,
            data_type: self.data_type@,
            is_nullable: self.is_nullable,
            character_maximum_length: self.character_maximum_length,
            numeric_precision: self.numeric_precision,
            numeric_scale: self.numeric_scale,
        }
    }
}

/// Spec-level image of [`TableInfo`].
pub ghost struct TableInfoView {
    pub database_name: Seq<char>,
    pub schema_name: Seq<char>,
    pub table_name: Seq<char>,
    pub columns: Seq<ColumnInfoView>,
}

/// One table document: its fully qualified name and its columns in catalog
/// ordinal order.
#[derive(Debug)]
pub struct TableInfo {
    pub database_name: String,
    pub schema_name: String,
    pub table_name: String,
    pub columns: Vec<ColumnInfo>,
}

impl View for TableInfo {
    type V = TableInfoView;

    open spec fn view(&self) -> TableInfoView {
        TableInfoView {
            database_name: self.database_name@,
            schema_name: self.schema_name@,
            table_name: self.table_name@,
            columns: self.columns@.map_values(|c: ColumnInfo| c@),
        }
    }
}

/// Spec-level image of [`DatabaseInfo`].
pub ghost struct DatabaseInfoView {
    pub name: Seq<char>,
    pub created_on: Seq<char>,
    pub owner: Seq<char>,
}

/// One catalog database.
#[derive(Debug)]
pub struct DatabaseInfo {
    pub name: String,
    pub created_on: String,
    pub owner: String,
}

impl View for DatabaseInfo {
    type V = DatabaseInfoView;

    open spec fn view(&self) -> DatabaseInfoView {
        DatabaseInfoView { name: self.name@, created_on: self.created_on@, owner: self.owner@ }
    }
}

/// Spec-level image of [`WarehouseInfo`].
pub ghost struct WarehouseInfoView {
    pub name: Seq<char>,
    pub size: Seq<char>,
    pub state: Seq<char>,
    pub type_: Seq<char>,
}

/// One compute warehouse, used only to validate the configured warehouse
/// name.
#[derive(Debug)]
pub struct WarehouseInfo {
    pub name: String,
    pub size: String,
    pub state: String,
    pub type_: String,
}

impl View for WarehouseInfo {
    type V = WarehouseInfoView;

    open spec fn view(&self) -> WarehouseInfoView {
        WarehouseInfoView {
            name: self.name@,
            size: self.size@,
            state: self.state@,
            type_: self.type_@,
        }
    }
}

/// The views of a sequence of tables.
pub open spec fn tables_view(ts: Seq<TableInfo>) -> Seq<TableInfoView> {
    ts.map_values(|t: TableInfo| t@)
}

/// A finalized table document is well formed when it carries the database it
/// was built for and owns at least one column.
pub open spec fn table_wf(t: TableInfoView, database: Seq<char>) -> bool {
    &&& t.database_name == database
    &&& t.columns.len() > 0
}

} // verus!
