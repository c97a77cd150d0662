//! Error taxonomy of the ingestion pipeline.
//!
//! Decode errors are caller-input faults; catalog and write errors are
//! backend faults. The pipeline entry point folds everything into
//! `IngestError`, so that a caller can tell bad input from a backend that
//! should be retried later.

use vstd::prelude::*;

verus! {

/// Failure while decoding the columnar wire stream.
#[derive(Clone, Copy, Debug, PartialEq, Eq, Structural)]
pub enum DecodeError {
    /// Malformed framing, a truncated stream, or a schema/data mismatch.
    Malformed,
    /// A syntactically valid stream that carries no batch block at all.
    Empty,
}

/// Failure reported by the catalog service.
#[derive(Clone, Copy, Debug, PartialEq, Eq, Structural)]
pub enum CatalogError {
    /// The catalog could not be reached.
    Unavailable,
    /// The catalog answered with a non-success status.
    RequestFailed(u16),
    /// The resource to create already exists.
    Conflict,
}

/// Failure while committing a batch to a table.
#[derive(Clone, Copy, Debug, PartialEq, Eq, Structural)]
pub enum WriteError {
    /// Another writer advanced the table's metadata first, and the bounded
    /// retry budget was exhausted.
    CommitConflict,
    /// The data file writer failed; not retried.
    StorageFailure,
}

/// Discriminated result of the whole pipeline.
#[derive(Clone, Copy, Debug, PartialEq, Eq, Structural)]
pub enum IngestError {
    /// The request bytes were bad; a client fault.
    Decode(DecodeError),
    /// The catalog failed; a backend fault.
    Catalog(CatalogError),
    /// The commit failed; a backend fault.
    Write(WriteError),
}

/// The human-readable detail for each pipeline error.
pub open spec fn error_message_model(e: IngestError) -> Seq<char> {
    match e {
        IngestError::Decode(DecodeError::Malformed) => "malformed wire stream"@,
        IngestError::Decode(DecodeError::Empty) => "no record batch found in the stream"@,
        IngestError::Catalog(CatalogError::Unavailable) => "catalog unavailable"@,
        IngestError::Catalog(CatalogError::RequestFailed(_)) => "catalog request failed"@,
        IngestError::Catalog(CatalogError::Conflict) => "catalog conflict"@,
        IngestError::Write(WriteError::CommitConflict) => "commit conflict not resolved by retries"@,
        IngestError::Write(WriteError::StorageFailure) => "data file write failed"@,
    }
}

impl IngestError {
    /// A decode error is the caller's fault; everything else is the backend's.
    pub fn is_client_fault(&self) -> (r: bool)
        ensures
            r <==> self is Decode,
    {
        match self {
            IngestError::Decode(_) => true,
            _ => false,
        }
    }

    /// The human-readable detail of this error.
    pub fn describe(&self) -> (r: String)
        ensures
            r@ == error_message_model(*self),
    {
        match self {
            IngestError::Decode(DecodeError::Malformed) => String::from_str(
                "malformed wire stream",
            ),
            IngestError::Decode(DecodeError::Empty) => String::from_str(
                "no record batch found in the stream",
            ),
            IngestError::Catalog(CatalogError::Unavailable) => String::from_str(
                "catalog unavailable",
            ),
            IngestError::Catalog(CatalogError::RequestFailed(_)) => String::from_str(
                "catalog request failed",
            ),
            IngestError::Catalog(CatalogError::Conflict) => String::from_str("catalog conflict"),
            IngestError::Write(WriteError::CommitConflict) => String::from_str(
                "commit conflict not resolved by retries",
            ),
            IngestError::Write(WriteError::StorageFailure) => String::from_str(
                "data file write failed",
            ),
        }
    }
}

} // verus!
