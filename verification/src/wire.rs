//! Trusted boundary to the columnar wire format and to base64.
//!
//! Everything the library knows about the wire format is stated here, as
//! contracts over uninterpreted names: the parse of a stream and the canonical
//! base64 encoding are deterministic functions of the bytes alone, so each is
//! given a name, and the wrappers relate their results to those names. The
//! rest of the crate is verified against these contracts.

use vstd::prelude::*;

use crate::batch::BatchModel;
use crate::errors::DecodeError;
use crate::schema::{ColumnModel, SourceType};
use arrow::datatypes::DataType;
use arrow::ipc::reader::StreamReader;
use arrow::ipc::{root_as_message, MessageHeader};
use arrow::ipc::writer::StreamWriter;
use arrow::record_batch::RecordBatch;
use base64::Engine;
use std::io::Cursor;

verus! {

/// The in-memory columnar payload of one decoded batch block, opaque to the
/// pipeline's verified logic.
#[verifier::external_body]
pub struct BatchPayload {
    pub(crate) rb: RecordBatch,
}

/// The columns (name, type, nullability) of an in-memory record batch.
pub uninterp spec fn rb_columns(rb: BatchPayload) -> Seq<ColumnModel>;

/// The row count of an in-memory record batch.
pub uninterp spec fn rb_rows(rb: BatchPayload) -> nat;

/// The model of an in-memory record batch: its columns and its row count.
pub open spec fn rb_model(rb: BatchPayload) -> BatchModel {
    BatchModel { cols: rb_columns(rb), rows: rb_rows(rb) }
}

/// The cells of an in-memory record batch: for each column, for each row,
/// `None` for a null cell and otherwise the value's bytes in the format's
/// fixed encoding of the column's type.
pub uninterp spec fn rb_cells(rb: BatchPayload) -> Seq<Seq<Option<Seq<u8>>>>;

/// Whether the bytes form a wire stream whose schema header is valid, whose
/// first block, if any, is readable, and whose declared buffers lie within
/// each block's declared body, through the first block.
pub uninterp spec fn stream_well_formed(bytes: Seq<u8>) -> bool;

/// The first batch block of the wire stream, if the stream is well formed
/// and carries at least one block.
pub uninterp spec fn stream_first_batch(bytes: Seq<u8>) -> Option<BatchModel>;

/// The cells of the wire stream's first batch block, if the stream is well
/// formed and carries at least one block.
pub uninterp spec fn stream_first_cells(bytes: Seq<u8>) -> Option<Seq<Seq<Option<Seq<u8>>>>>;

/// The canonical padded base64 encoding (standard alphabet) of the bytes.
pub uninterp spec fn b64_string(bytes: Seq<u8>) -> Seq<char>;

/// The bytes a base64 string (standard alphabet) decodes to, if it is a
/// valid encoding.
pub uninterp spec fn b64_bytes(s: Seq<char>) -> Option<Seq<u8>>;

/// Little-endian 32-bit word at `pos`, when the bytes reach that far.
fn le_word(bytes: &[u8], pos: usize) -> (r: Option<u32>)
    ensures
        r is Some <==> pos + 4 <= bytes@.len(),
{
    if pos < bytes.len() && bytes.len() - pos >= 4 {
        let w: u32 = (bytes[pos] as u32) | ((bytes[pos + 1] as u32) << 8u32) | ((bytes[pos + 2]
            as u32) << 16u32) | ((bytes[pos + 3] as u32) << 24u32);
        Some(w)
    } else {
        None
    }
}

/// Relies on the flatbuffer accessors of one wire message's metadata, held
/// in `bytes[start..end]`: whether the message is a batch block, and its
/// declared body length (zero when the message does not parse or declares a
/// negative length; the stream reader rejects both with errors of its own).
#[verifier::external_body]
fn message_shape(bytes: &[u8], start: usize, end: usize) -> (r: (bool, u64))
    requires
        start <= end <= bytes@.len(),
{
    match root_as_message(&bytes[start..end]) {
        Ok(m) => (
            m.header_type() == MessageHeader::RecordBatch,
            m.bodyLength().max(0) as u64,
        ),
        Err(_) => (false, 0),
    }
}

/// Relies on the flatbuffer accessors of one wire message's metadata, held
/// in `bytes[start..end]`: whether every buffer declared by the message's
/// batch block (or by the batch nested in its dictionary block) has a
/// non-negative offset and length, ending within the declared body length.
/// The stream reader trusts exactly these extents when it slices the body.
#[verifier::external_body]
fn message_buffers_bounded(bytes: &[u8], start: usize, end: usize) -> (r: bool)
    requires
        start <= end <= bytes@.len(),
{
    let m = match root_as_message(&bytes[start..end]) {
        Ok(m) => m,
        Err(_) => return true,
    };
    let block = match m.header_as_record_batch() {
        Some(b) => Some(b),
        None => m.header_as_dictionary_batch().and_then(|d| d.data()),
    };
    let mut ok = true;
    for b in block.iter().flat_map(|rb| rb.buffers().into_iter().flatten()) {
        ok = ok && b.offset() >= 0 && b.length() >= 0;
        ok = ok && b.offset().checked_add(b.length()).map_or(false, |e| e <= m.bodyLength());
    }
    ok
}

/// Walks the wire stream's framing up to and including its first batch
/// block and reports whether every buffer declaration inspected is in
/// bounds. Anything the stream reader itself rejects with an error of its
/// own (bad framing, short reads, negative lengths) is accepted here: only
/// the declared buffer extents reach the reader's body slicing unchecked.
fn ipc_buffers_bounded(bytes: &[u8]) -> (r: bool) {
    let len: usize = bytes.len();
    let mut pos: usize = 0;
    loop
        invariant
            pos <= len,
            len == bytes@.len(),
        decreases len - pos,
    {
        let mut word: u32 = match le_word(bytes, pos) {
            Some(w) => w,
            None => return true,
        };
        pos = pos + 4;
        if word == 0xFFFF_FFFFu32 {
            word = match le_word(bytes, pos) {
                Some(w) => w,
                None => return true,
            };
            pos = pos + 4;
        }
        if word == 0u32 || word >= 0x8000_0000u32 {
            return true;
        }
        let meta_len: usize = word as usize;
        if len - pos < meta_len {
            return true;
        }
        let meta_end: usize = pos + meta_len;
        let (is_batch, body_len): (bool, u64) = message_shape(bytes, pos, meta_end);
        if !message_buffers_bounded(bytes, pos, meta_end) {
            return false;
        }
        pos = meta_end;
        if is_batch {
            return true;
        }
        if body_len > (len - pos) as u64 {
            return true;
        }
        pos = pos + body_len as usize;
    }
}

/// Relies on arrow's IPC `StreamReader`: `try_new` validates the stream's
/// schema header, and the reader then yields the stream's batch blocks in
/// order; the parse is a deterministic function of the bytes alone. A block
/// whose declared buffers reach outside its declared body would make the
/// reader's body slicing panic instead of erroring, so such streams are
/// rejected as malformed up front by `ipc_buffers_bounded`.
#[verifier::external_body]
pub(crate) fn read_stream_batch(bytes: &[u8]) -> (r: Result<BatchPayload, DecodeError>)
    ensures
        r matches Ok(rb) ==> stream_well_formed(bytes@) && stream_first_batch(bytes@) == Some(
            rb_model(rb),
        ) && stream_first_cells(bytes@) == Some(rb_cells(rb)),
        r is Err ==> stream_first_batch(bytes@) is None,
        r matches Err(e) ==> (e == DecodeError::Empty <==> stream_well_formed(bytes@)),
{
    if !ipc_buffers_bounded(bytes) {
        return Err(DecodeError::Malformed);
    }
    let cursor = Cursor::new(bytes);
    let mut reader = match StreamReader::try_new(cursor, None) {
        Ok(reader) => reader,
        Err(_) => return Err(DecodeError::Malformed),
    };
    match reader.next() {
        Some(Ok(batch)) => Ok(BatchPayload { rb: batch }),
        Some(Err(_)) => Err(DecodeError::Malformed),
        None => Err(DecodeError::Empty),
    }
}

/// Relies on `RecordBatch::num_rows`.
#[verifier::external_body]
pub(crate) fn rb_num_rows(rb: &BatchPayload) -> (n: usize)
    ensures
        n as nat == rb_rows(*rb),
{
    rb.rb.num_rows()
}

/// Relies on `RecordBatch::num_columns`, which equals the field count of the
/// batch's schema.
#[verifier::external_body]
pub(crate) fn rb_num_columns(rb: &BatchPayload) -> (n: usize)
    ensures
        n as nat == rb_columns(*rb).len(),
{
    rb.rb.num_columns()
}

/// Relies on `Field::name` of the batch schema's field at `i`.
#[verifier::external_body]
pub(crate) fn rb_column_name(rb: &BatchPayload, i: usize) -> (s: String)
    requires
        i < rb_columns(*rb).len(),
    ensures
        s@ == rb_columns(*rb)[i as int].name,
{
    rb.rb.schema_ref().field(i).name().clone()
}

/// Relies on `Field::data_type` of the batch schema's field at `i`; one arm
/// for each recognized primitive type, anything else is `Other`.
#[verifier::external_body]
pub(crate) fn rb_column_type(rb: &BatchPayload, i: usize) -> (t: SourceType)
    requires
        i < rb_columns(*rb).len(),
    ensures
        t == rb_columns(*rb)[i as int].ty,
{
    match rb.rb.schema_ref().field(i).data_type() {
        DataType::Boolean => SourceType::Boolean,
        DataType::Int8 => SourceType::Int8, DataType::Int16 => SourceType::Int16,
        DataType::Int32 => SourceType::Int32, DataType::Int64 => SourceType::Int64,
        DataType::UInt8 => SourceType::UInt8, DataType::UInt16 => SourceType::UInt16,
        DataType::UInt32 => SourceType::UInt32, DataType::UInt64 => SourceType::UInt64,
        DataType::Float32 => SourceType::Float32, DataType::Float64 => SourceType::Float64,
        DataType::Utf8 => SourceType::Utf8, DataType::LargeUtf8 => SourceType::LargeUtf8,
        DataType::Binary => SourceType::Binary, DataType::LargeBinary => SourceType::LargeBinary,
        DataType::Date32 => SourceType::Date32, DataType::Date64 => SourceType::Date64,
        DataType::Timestamp(_, _) => SourceType::Timestamp,
        _ => SourceType::Other,
    }
}

/// Relies on `Field::is_nullable` of the batch schema's field at `i`.
#[verifier::external_body]
pub(crate) fn rb_column_nullable(rb: &BatchPayload, i: usize) -> (b: bool)
    requires
        i < rb_columns(*rb).len(),
    ensures
        b == rb_columns(*rb)[i as int].nullable,
{
    rb.rb.schema_ref().field(i).is_nullable()
}

/// Relies on arrow's IPC `StreamWriter`: writing one batch and finishing
/// yields a well-formed stream, and the IPC reader parses it back to a batch
/// with the same schema, row count and cell values (the write/read pair
/// round-trips).
#[verifier::external_body]
pub(crate) fn write_stream(rb: &BatchPayload) -> (r: Vec<u8>)
    ensures
        stream_well_formed(r@),
        stream_first_batch(r@) == Some(rb_model(*rb)),
        stream_first_cells(r@) == Some(rb_cells(*rb)),
{
    let mut buffer: Vec<u8> = Vec::new();
    {
        let mut writer = StreamWriter::try_new(&mut buffer, rb.rb.schema_ref()).unwrap();
        writer.write(&rb.rb).unwrap();
        writer.finish().unwrap();
    }
    buffer
}

/// Relies on base64's standard-alphabet engine: `encode` emits the canonical
/// padded encoding of the bytes, which `decode` inverts.
#[verifier::external_body]
pub(crate) fn b64_encode(bytes: &[u8]) -> (s: String)
    ensures
        s@ == b64_string(bytes@),
        b64_bytes(s@) == Some(bytes@),
{
    base64::engine::general_purpose::STANDARD.encode(bytes)
}

/// Relies on base64's standard-alphabet engine: `decode` returns the bytes
/// whose canonical encoding the input is, and rejects anything else.
#[verifier::external_body]
pub(crate) fn b64_decode(s: &str) -> (r: Result<Vec<u8>, DecodeError>)
    ensures
        r matches Ok(v) ==> b64_bytes(s@) == Some(v@),
        r is Ok <==> b64_bytes(s@) is Some,
        r matches Err(e) ==> e == DecodeError::Malformed,
{
    match base64::engine::general_purpose::STANDARD.decode(s) {
        Ok(v) => Ok(v),
        Err(_) => Err(DecodeError::Malformed),
    }
}

} // verus!
