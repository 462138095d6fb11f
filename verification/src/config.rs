//! Run configuration: command-line options and connection settings.

use vstd::prelude::*;

verus! {

/// Default number of retries for failed operations.
pub const DEFAULT_RETRIES: u32 = 3;

/// Default delay in seconds between retries.
pub const DEFAULT_RETRY_DELAY_SECS: u64 = 5;

/// Command-line options of the tool, as plain values.
///
/// `output_dir` is the directory the per-database documents are written
/// under; `databases` is the optional explicit list of databases to process.
#[derive(Debug)]
pub struct Args {
    /// Specific databases to process; `None` means every accessible database.
    pub databases: Option<Vec<String>>,
    /// Output directory for the per-database documents.
    pub output_dir: String,
    /// Number of retries for failed operations.
    pub retries: u32,
    /// Delay in seconds between retries.
    pub retry_delay: u64,
    /// Continue with the next database when one fails to process.
    pub skip_failed_tables: bool,
}

/// Connection settings for the warehouse session, read from the environment
/// by the surrounding binary.
#[derive(Debug)]
pub struct SnowflakeConfig {
    pub account: String,
    pub username: String,
    pub password: String,
    pub warehouse: String,
    pub database: Option<String>,
    pub role: Option<String>,
}

/// The role activated when the environment names none.
pub fn default_role() -> (r: String)
    ensures
        r@ == "SALES"@,
{
    String::from_str("SALES")
}

} // verus!
