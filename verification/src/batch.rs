//! The decoded batch: an ordered sequence of named, typed columns together
//! with the batch's row count, carried alongside the opaque in-memory payload
//! that the data file writer will eventually encode.

use vstd::prelude::*;

use crate::errors::DecodeError;
use crate::schema::{ColumnMeta, ColumnModel};
use crate::wire::{
    rb_cells, rb_columns, rb_column_name, rb_column_nullable, rb_column_type, rb_model,
    rb_num_columns, rb_num_rows, read_stream_batch, stream_first_batch, stream_first_cells,
    stream_well_formed, write_stream, BatchPayload,
};
use vstd::pervasive::unreached;

verus! {

/// The largest column count the schema mapper can assign 32-bit field
/// identifiers to.
pub const MAX_COLUMNS: usize = 0x7FFF_FFFF;

/// Spec-level model of a batch: its columns and its row count.
#[verifier::ext_equal]
pub struct BatchModel {
    pub cols: Seq<ColumnModel>,
    pub rows: nat,
}

/// A decoded batch: schema metadata and row count, plus the in-memory
/// columnar payload they describe.
pub struct Batch {
    /// Name, type and nullability of each column, in column order.
    pub columns: Vec<ColumnMeta>,
    /// The number of rows; every column holds exactly this many values.
    pub row_count: usize,
    /// The in-memory columnar data itself, opaque to the pipeline's logic;
    /// only the data file writer consumes it.
    pub payload: BatchPayload,
}

impl View for Batch {
    type V = BatchModel;

    open spec fn view(&self) -> BatchModel {
        BatchModel {
            cols: self.columns@.map_values(|c: ColumnMeta| c@),
            rows: self.row_count as nat,
        }
    }
}

impl Batch {
    /// Well-formedness: the recorded schema metadata and row count agree with
    /// the payload, and the column count is small enough for field
    /// identifiers to be assigned.
    pub open spec fn wf(&self) -> bool {
        &&& rb_model(self.payload) == self@
        &&& self.columns@.len() <= MAX_COLUMNS
    }

    /// Writes the batch back to the wire format as one stream holding one
    /// block.
    pub fn to_stream_bytes(&self) -> (r: Vec<u8>)
        requires
            self.wf(),
        ensures
            stream_well_formed(r@),
            stream_first_batch(r@) == Some(self@),
            stream_first_cells(r@) == Some(rb_cells(self.payload)),
    {
        write_stream(&self.payload)
    }
}

/// What `decode` promises about its result for the input `bytes`: on success
/// the batch is exactly the stream's first block; `Empty` comes on a well
/// formed stream with no block; `Malformed` comes on broken framing, or on
/// the machine limit of more than `MAX_COLUMNS` columns; and success is owed
/// whenever the stream carries a first block within that limit.
pub open spec fn decode_post(bytes: Seq<u8>, r: Result<Batch, DecodeError>) -> bool {
    &&& (r matches Ok(b) ==> b.wf() && stream_well_formed(bytes) && stream_first_batch(bytes)
        == Some(b@) && stream_first_cells(bytes) == Some(rb_cells(b.payload)))
    &&& (r == Err::<Batch, DecodeError>(DecodeError::Empty) ==> stream_well_formed(bytes)
        && stream_first_batch(bytes) is None)
    &&& (r == Err::<Batch, DecodeError>(DecodeError::Malformed) ==> (!stream_well_formed(bytes)
        && stream_first_batch(bytes) is None) || (stream_first_batch(bytes) matches Some(m)
        && m.cols.len() > MAX_COLUMNS))
    &&& ((stream_first_batch(bytes) matches Some(m) && m.cols.len() <= MAX_COLUMNS) ==> r is Ok)
}

/// Decodes one wire stream into a typed batch, consuming only the stream's
/// first batch block.
pub fn decode(bytes: &[u8]) -> (r: Result<Batch, DecodeError>)
    ensures
        decode_post(bytes@, r),
{
    let rb = match read_stream_batch(bytes) {
        Ok(rb) => rb,
        Err(e) => {
            return Err(e);
        },
    };
    let n = rb_num_columns(&rb);
    if n > MAX_COLUMNS {
        return Err(DecodeError::Malformed);
    }
    let row_count = rb_num_rows(&rb);
    let mut columns: Vec<ColumnMeta> = Vec::new();
    let mut i: usize = 0;
    while i < n
        invariant
            n == rb_columns(rb).len(),
            i <= n,
            columns@.len() == i,
            forall|j: int| 0 <= j < i ==> columns@[j]@ == rb_columns(rb)[j],
        decreases n - i,
    {
        let name = rb_column_name(&rb, i);
        let source_type = rb_column_type(&rb, i);
        let nullable = rb_column_nullable(&rb, i);
        columns.push(ColumnMeta { name, source_type, nullable });
        i = i + 1;
    }
    let b = Batch { columns, row_count, payload: rb };
    proof {
        assert(b@.cols =~= rb_columns(rb));
        assert(b@ =~= rb_model(rb));
    }
    Ok(b)
}

/// Round-trip law: writing a batch back to the wire format and decoding the
/// resulting stream yields a batch with the same schema (names, types,
/// nullability), the same row count, and the same cell values, null
/// positions included.
pub fn round_trip(b: &Batch) -> (r: Batch)
    requires
        b.wf(),
    ensures
        r@ == b@,
        r.wf(),
        rb_cells(r.payload) == rb_cells(b.payload),
{
    let bytes = b.to_stream_bytes();
    match decode(bytes.as_slice()) {
        Ok(d) => d,
        Err(_) => unreached(),
    }
}

} // verus!
