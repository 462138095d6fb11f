//! The error taxonomy of the tool.

use vstd::prelude::*;

verus! {

/// Spec-level image of [`SnowflakeMapperError`], with every string replaced by
/// its character sequence.
pub ghost enum SnowflakeMapperErrorView {
    ConnectionError(Seq<char>),
    QueryError(Seq<char>),
    ColumnError { column: Seq<char>, message: Seq<char> },
    OutputError(Seq<char>),
    MissingEnvVar(Seq<char>),
}

/// Every failure the tool can report: session or auth failures, failed
/// statement executions, per-column decode failures, filesystem write
/// failures, and missing startup configuration.
#[derive(Debug)]
pub enum SnowflakeMapperError {
    ConnectionError(String),
    QueryError(String),
    ColumnError { column: String, message: String },
    OutputError(String),
    MissingEnvVar(String),
}

impl View for SnowflakeMapperError {
    type V = SnowflakeMapperErrorView;

    open spec fn view(&self) -> SnowflakeMapperErrorView {
        match self {
            SnowflakeMapperError::ConnectionError(s) => {
                SnowflakeMapperErrorView::ConnectionError(s@)
            },
            SnowflakeMapperError::QueryError(s) => SnowflakeMapperErrorView::QueryError(s@),
            SnowflakeMapperError::ColumnError { column, message } => {
                SnowflakeMapperErrorView::ColumnError { column: column@, message: message@ }
            },
            SnowflakeMapperError::OutputError(s) => SnowflakeMapperErrorView::OutputError(s@),
            SnowflakeMapperError::MissingEnvVar(s) => SnowflakeMapperErrorView::MissingEnvVar(s@),
        }
    }
}

/// What [`SnowflakeMapperError::message`] returns for a given error.
pub open spec fn spec_message(e: SnowflakeMapperErrorView) -> Seq<char> {
    match e {
        SnowflakeMapperErrorView::ConnectionError(s) => "Failed to connect to Snowflake: "@ + s,
        SnowflakeMapperErrorView::QueryError(s) => "Failed to execute query: "@ + s,
        SnowflakeMapperErrorView::ColumnError { column, message } => {
            "Failed to read column "@ + column + ": "@ + message
        },
        SnowflakeMapperErrorView::OutputError(s) => "Failed to write output: "@ + s,
        SnowflakeMapperErrorView::MissingEnvVar(s) => {
            "Missing required environment variable: "@ + s
        },
    }
}

impl SnowflakeMapperError {
    /// The human-readable description of this error.
    pub fn message(&self) -> (r: String)
        ensures
            r@ == spec_message(self@),
    {
        match self {
            SnowflakeMapperError::ConnectionError(s) => {
                let mut m = String::from_str("Failed to connect to Snowflake: ");
                m.append(s.as_str());
                m
            },
            SnowflakeMapperError::QueryError(s) => {
                let mut m = String::from_str("Failed to execute query: ");
                m.append(s.as_str());
                m
            },
            SnowflakeMapperError::ColumnError { column, message } => {
                let mut m = String::from_str("Failed to read column ");
                m.append(column.as_str());
                m.append(": ");
                m.append(message.as_str());
                m
            },
            SnowflakeMapperError::OutputError(s) => {
                let mut m = String::from_str("Failed to write output: ");
                m.append(s.as_str());
                m
            },
            SnowflakeMapperError::MissingEnvVar(s) => {
                let mut m = String::from_str("Missing required environment variable: ");
                m.append(s.as_str());
                m
            },
        }
    }
}

} // verus!
