//! Ingestion pipeline for a versioned, catalog-managed table store.
//!
//! A columnar wire stream is decoded into a typed batch, the batch's schema is
//! mapped into the table format's schema model, catalog state (namespace and
//! table existence) is reconciled idempotently, and the batch is committed as a
//! new snapshot under optimistic-concurrency metadata update semantics.

pub mod batch;
pub mod catalog;
pub mod committer;
pub mod decimal;
pub mod errors;
pub mod handler;
pub mod pipeline;
pub mod reconciler;
pub mod schema;
pub mod testdata;
pub mod wire;
