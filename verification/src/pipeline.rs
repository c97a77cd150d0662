//! The pipeline entry point: decode the request bytes, map the schema,
//! reconcile the catalog, commit the batch, and shape the boundary response.
//!
//! A decode fault is the caller's and leaves the catalog untouched — no
//! catalog operation runs before the bytes parse. Everything else surfaces as
//! a backend fault. The boundary response distinguishes the two so a client
//! can tell bad input from a service to retry later.

use vstd::prelude::*;

use crate::batch::MAX_COLUMNS;
use crate::catalog::{Catalog, TableIdModel};
use crate::committer::{commit_headroom, write_table_t, write_to_table};
use crate::decimal::{spec_u64_string, u64_to_string};
use crate::errors::{error_message_model, DecodeError, IngestError};
use crate::handler::ArrowStreamHandler;
use crate::reconciler::split_dots;
use crate::wire::{stream_first_batch, stream_well_formed};

verus! {

/// Query parameters of one ingestion request: the destination table and an
/// optional namespace.
pub struct IngestQuery {
    pub table_name: String,
    pub namespace: Option<String>,
}

/// The discriminated boundary result: success with the committed row count,
/// or failure with a human-readable detail.
pub struct IngestResponse {
    pub success: bool,
    pub message: String,
    pub records_ingested: Option<u64>,
}

/// The namespace used when a request names none.
pub open spec fn default_namespace() -> Seq<char> {
    "default"@
}

/// The namespace a request addresses: the one it names, or the default.
pub fn resolve_namespace(namespace: &Option<String>) -> (r: String)
    ensures
        namespace matches Some(s) ==> r@ == s@,
        namespace is None ==> r@ == default_namespace(),
{
    match namespace {
        Some(s) => s.clone(),
        None => String::from_str("default"),
    }
}

/// What a failed decode tells about the bytes: `Empty` means a well-formed
/// stream with no batch block; `Malformed` means broken framing, or a first
/// block with more columns than field identifiers can be assigned to.
pub open spec fn decode_failure(bytes: Seq<u8>, e: DecodeError) -> bool {
    &&& (e == DecodeError::Empty ==> stream_well_formed(bytes) && stream_first_batch(bytes) is None)
    &&& (e == DecodeError::Malformed ==> (!stream_well_formed(bytes) && stream_first_batch(bytes)
        is None) || (stream_first_batch(bytes) matches Some(m) && m.cols.len() > MAX_COLUMNS))
}

/// Runs the whole pipeline for one request: decodes the bytes into a batch,
/// then writes it to the table (deriving the schema, ensuring namespace and
/// table, and committing one snapshot). On a decode fault the catalog is
/// untouched and the error is the caller's; on success the committed row
/// count is returned, zero rows included.
pub fn ingest(cat: &mut Catalog, namespace: &str, table_name: &str, raw_bytes: &[u8]) -> (r:
    Result<u64, IngestError>)
    requires
        old(cat).inv(),
        table_name@.len() >= 1,
        commit_headroom(
            old(cat)@,
            TableIdModel { path: split_dots(namespace@), name: table_name@ },
        ),
    ensures
        final(cat).inv(),
        r matches Ok(n) ==> (stream_first_batch(raw_bytes@) matches Some(m) && m.cols.len()
            <= MAX_COLUMNS && n as nat == m.rows && final(cat)@ == write_table_t(
            old(cat)@,
            namespace@,
            table_name@,
            m,
        )),
        r matches Err(e) ==> final(cat)@ == old(cat)@ && (e matches IngestError::Decode(de)
            && decode_failure(raw_bytes@, de)),
        (stream_first_batch(raw_bytes@) matches Some(m) && m.cols.len() <= MAX_COLUMNS) ==> r
            is Ok,
{
    let handler = ArrowStreamHandler::new();
    let batch = match handler.process_arrow_bytes(raw_bytes) {
        Ok(b) => b,
        Err(e) => {
            return Err(IngestError::Decode(e));
        },
    };
    write_to_table(cat, namespace, table_name, &batch)
}

/// The message reported for a successful ingestion of `n` rows.
pub open spec fn success_message_model(n: nat) -> Seq<char> {
    "Successfully ingested "@ + spec_u64_string(n) + " records"@
}

/// Shapes the boundary response for one pipeline outcome: the committed row
/// count with a success message, or the error's detail.
pub fn ingest_response(outcome: &Result<u64, IngestError>) -> (r: IngestResponse)
    ensures
        outcome matches Ok(n) ==> r.success && r.records_ingested == Some(*n) && r.message@
            == success_message_model(n as nat),
        outcome matches Err(e) ==> !r.success && r.records_ingested is None && r.message@
            == error_message_model(*e),
{
    match outcome {
        Ok(n) => {
            let mut message = String::from_str("Successfully ingested ");
            let num = u64_to_string(*n);
            message.append(num.as_str());
            message.append(" records");
            proof {
                assert(message@ =~= success_message_model(*n as nat));
            }
            IngestResponse { success: true, message, records_ingested: Some(*n) }
        },
        Err(e) => IngestResponse {
            success: false,
            message: e.describe(),
            records_ingested: None,
        },
    }
}

} // verus!
