//! Error-context layer for a CSV-driven record ingestion routine.
//!
//! A failure from a lower layer (the CSV reader, the record builder, or a
//! domain-value parser) is wrapped once into an [`error::Error`], which pairs
//! a closed classification of the cause with an ordered stack of free-text
//! context entries. Each layer that catches and re-propagates the failure
//! appends one description of its own stage; rendering joins the entries in
//! reverse order of appending, most recent first.

pub mod csv_support;
pub mod error;
pub mod render;
