//! The fixed metadata statements the tool issues, and the output path of a
//! database's document, each built to an exact specification.

use vstd::prelude::*;

verus! {

/// The catalog query listing the accessible databases.
pub fn show_databases_query() -> (r: String)
    ensures
        r@ == "SHOW DATABASES"@,
{
    String::from_str("SHOW DATABASES")
}

/// The catalog query listing the compute warehouses.
pub fn show_warehouses_query() -> (r: String)
    ensures
        r@ == "SHOW WAREHOUSES"@,
{
    String::from_str("SHOW WAREHOUSES")
}

/// What the columns query for a database is: its information-schema columns
/// view, ordered by schema name, table name and ordinal position. The
/// ordering is load-bearing: the aggregator depends on grouping runs being
/// contiguous.
pub open spec fn spec_columns_query(database: Seq<char>) -> Seq<char> {
    "SELECT table_schema, table_name, column_name, data_type, is_nullable, character_maximum_length, numeric_precision, numeric_scale FROM "@
        + database
        + ".information_schema.columns ORDER BY table_schema, table_name, ordinal_position"@
}

/// Builds the columns query for a database, exactly as
/// [`spec_columns_query`] describes.
pub fn columns_query(database: &str) -> (r: String)
    ensures
        r@ == spec_columns_query(database@),
{
    let mut q = String::from_str(
        "SELECT table_schema, table_name, column_name, data_type, is_nullable, character_maximum_length, numeric_precision, numeric_scale FROM ",
    );
    q.append(database);
    q.append(".information_schema.columns ORDER BY table_schema, table_name, ordinal_position");
    q
}

/// The session statement activating a warehouse.
pub fn use_warehouse_statement(warehouse: &str) -> (r: String)
    ensures
        r@ == "USE WAREHOUSE \""@ + warehouse@ + "\""@,
{
    let mut q = String::from_str("USE WAREHOUSE \"");
    q.append(warehouse);
    q.append("\"");
    q
}

/// The session statement activating a role.
pub fn use_role_statement(role: &str) -> (r: String)
    ensures
        r@ == "USE ROLE \""@ + role@ + "\""@,
{
    let mut q = String::from_str("USE ROLE \"");
    q.append(role);
    q.append("\"");
    q
}

/// The path of the document written for a database: a file named after the
/// database, with the `json` extension, under the output directory.
pub fn output_path(output_dir: &str, database: &str) -> (r: String)
    ensures
        r@ == output_dir@ + "/"@ + database@ + ".json"@,
{
    let mut p = String::from_str(output_dir);
    p.append("/");
    p.append(database);
    p.append(".json");
    p
}

} // verus!
