//! Verified core of a warehouse schema-mapping tool.
//!
//! The library holds the logic of the tool: decoding catalog rows into typed
//! records, folding ordered column rows into per-table documents, selecting a
//! compute warehouse with a fallback policy, bounded retry decisions, and the
//! run-level skip-or-abort policy. Network and filesystem work stays outside,
//! in the thin binary built around this crate.

pub mod errors;

pub mod config;

pub mod model;

pub mod text;

pub mod decode;

pub mod aggregate;

pub mod warehouse;

pub mod retry;

pub mod queries;

pub mod orchestrate;

pub mod session;

pub mod catalog;

