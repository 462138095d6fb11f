//! The connection session: the mapper owning the configuration and the lazy
//! client/session pair, and the one trusted reading of a result-row cell.
//!
//! Session creation and query execution are network work and live in the
//! binary around this library; the mapper's state transitions — when a
//! connection must be established, what an installed or failed session
//! leaves behind — are decided and verified here.

use vstd::prelude::*;

use crate::config::{Args, SnowflakeConfig};
use crate::decode::cell_view;
use crate::errors::{SnowflakeMapperError, SnowflakeMapperErrorView};
use crate::text::ascii_upper;

verus! {

#[verifier::external_type_specification]
#[verifier::external_body]
pub struct ExSnowflakeClient(snowflake_connector_rs::SnowflakeClient);

#[verifier::external_type_specification]
#[verifier::external_body]
pub struct ExSnowflakeSession(snowflake_connector_rs::SnowflakeSession);

#[verifier::external_type_specification]
#[verifier::external_body]
pub struct ExSnowflakeRow(snowflake_connector_rs::SnowflakeRow);

/// What a result row holds: the optional text of each cell, keyed by the
/// upper-case column name the row's column map uses.
pub uninterp spec fn row_cells(row: snowflake_connector_rs::SnowflakeRow) -> Map<
    Seq<char>,
    Option<Seq<char>>,
>;

/// Looks a column up in a row's contents the way the row does: by the
/// ASCII-uppercased name. `None` means the row has no such column.
pub open spec fn spec_row_lookup(
    cells: Map<Seq<char>, Option<Seq<char>>>,
    column: Seq<char>,
) -> Option<Option<Seq<char>>> {
    if cells.dom().contains(ascii_upper(column)) {
        Some(cells[ascii_upper(column)])
    } else {
        None
    }
}

/// What reading a named cell of a row yields: the cell at the column's key
/// when the row has the column, a failure naming the column otherwise.
pub open spec fn spec_cell_of(
    cells: Map<Seq<char>, Option<Seq<char>>>,
    column: Seq<char>,
) -> Result<Option<Seq<char>>, Seq<char>> {
    match spec_row_lookup(cells, column) {
        Some(c) => Ok(c),
        None => Err("decode error: column not found: "@ + column),
    }
}

/// Reads one named column of a result row as an optional string.
///
/// Relies on `SnowflakeRow::get::<Option<String>>`: a pure lookup of the
/// ASCII-uppercased column name in the row's column map, returning the
/// cell's optional text, or `Error::Decode` naming the column when the row
/// has no such column (decoding an optional string itself never fails).
#[verifier::external_body]
pub fn row_cell(row: &snowflake_connector_rs::SnowflakeRow, column: &str) -> (r: Result<
    Option<String>,
    String,
>)
    ensures
        cell_view(r) == spec_cell_of(row_cells(*row), column@),
{
    match row.get::<Option<String>>(column) {
        Ok(v) => Ok(v),
        Err(e) => Err(e.to_string()),
    }
}

/// The tool's handle on the warehouse: configuration, options, and the
/// lazily created client/session pair.
pub struct SnowflakeMapper {
    pub config: SnowflakeConfig,
    pub client: Option<snowflake_connector_rs::SnowflakeClient>,
    pub session: Option<snowflake_connector_rs::SnowflakeSession>,
    pub args: Args,
}

impl SnowflakeMapper {
    /// A fresh mapper: configured but not yet connected.
    pub fn new(config: SnowflakeConfig, args: Args) -> (r: Self)
        ensures
            r.config == config,
            r.args == args,
            r.client is None,
            r.session is None,
    {
        SnowflakeMapper { config, client: None, session: None, args }
    }

    /// A connection must still be established: `connect` is idempotent, so
    /// the session is created only when none exists yet.
    pub fn needs_connection(&self) -> (b: bool)
        ensures
            b == (self.client is None),
    {
        self.client.is_none()
    }

    /// Installs a freshly created client and session.
    pub fn install_session(
        &mut self,
        client: snowflake_connector_rs::SnowflakeClient,
        session: snowflake_connector_rs::SnowflakeSession,
    )
        ensures
            final(self).client is Some,
            final(self).session is Some,
            final(self).config == old(self).config,
            final(self).args == old(self).args,
    {
        self.client = Some(client);
        self.session = Some(session);
    }

    /// Drops a failed client and session, so that a later `connect` retries
    /// from scratch.
    pub fn clear_session(&mut self)
        ensures
            final(self).client is None,
            final(self).session is None,
            final(self).config == old(self).config,
            final(self).args == old(self).args,
    {
        self.client = None;
        self.session = None;
    }

    /// The live session, or a connection error when none is established.
    pub fn get_session(&self) -> (r: Result<
        &snowflake_connector_rs::SnowflakeSession,
        SnowflakeMapperError,
    >)
        ensures
            match r {
                Ok(_) => self.session is Some,
                Err(e) => self.session is None && e@ == SnowflakeMapperErrorView::ConnectionError(
                    "Not connected to Snowflake"@,
                ),
            },
    {
        match &self.session {
            Some(s) => Ok(s),
            None => Err(
                SnowflakeMapperError::ConnectionError(
                    String::from_str("Not connected to Snowflake"),
                ),
            ),
        }
    }
}

} // verus!
