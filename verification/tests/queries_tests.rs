use snowflake_mapper::config::default_role;
use snowflake_mapper::queries::{
    columns_query, output_path, show_databases_query, show_warehouses_query,
    use_role_statement, use_warehouse_statement,
};

#[test]
fn the_fixed_catalog_queries() {
    assert_eq!(show_databases_query(), "SHOW DATABASES");
    assert_eq!(show_warehouses_query(), "SHOW WAREHOUSES");
}

#[test]
fn the_columns_query_orders_by_the_grouping_key() {
    let q = columns_query("SALES");
    assert_eq!(
        q,
        "SELECT table_schema, table_name, column_name, data_type, is_nullable, \
         character_maximum_length, numeric_precision, numeric_scale \
         FROM SALES.information_schema.columns \
         ORDER BY table_schema, table_name, ordinal_position"
    );
}

#[test]
fn session_statements_quote_the_name() {
    assert_eq!(use_warehouse_statement("Compute_WH"), "USE WAREHOUSE \"Compute_WH\"");
    assert_eq!(use_role_statement("SALES"), "USE ROLE \"SALES\"");
}

#[test]
fn the_output_path_of_a_database() {
    assert_eq!(output_path("output", "SALES"), "output/SALES.json");
    assert_eq!(output_path("/tmp/out", "HR"), "/tmp/out/HR.json");
}

#[test]
fn the_default_role_name() {
    assert_eq!(default_role(), "SALES");
}
