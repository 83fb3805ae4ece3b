//! Read-only metadata tools over a table catalog: identifier validation,
//! backend error classification, table-properties aggregation and the
//! per-request decisions of the tool dispatcher.
pub mod error;
pub mod ident;
pub mod metadata;
pub mod dispatch;
