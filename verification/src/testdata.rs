//! Builders for in-memory batches with known schemas and row counts, and
//! helpers that put them on the wire; used by callers that need ready-made
//! ingestion payloads.

use vstd::prelude::*;

use crate::batch::BatchModel;
use crate::schema::{ColumnModel, SourceType};
use crate::wire::{
    b64_bytes, b64_encode, rb_model, stream_first_batch, write_stream, BatchPayload,
};
use arrow::array::{BooleanArray, Int32Array, StringArray};
use arrow::datatypes::{DataType, Field, Schema as ArrowSchema};
use arrow::record_batch::RecordBatch;
use std::sync::Arc;

verus! {

/// The model of the simple test batch: three required columns and five rows.
pub open spec fn simple_batch_model() -> BatchModel {
    BatchModel {
        cols: seq![
            ColumnModel { name: "id"@, ty: SourceType::Int32, nullable: false },
            ColumnModel { name: "name"@, ty: SourceType::Utf8, nullable: false },
            ColumnModel { name: "active"@, ty: SourceType::Boolean, nullable: false },
        ],
        rows: 5,
    }
}

/// The model of the large test batch: three required columns and the chosen
/// row count.
pub open spec fn large_batch_model(rows: nat) -> BatchModel {
    BatchModel {
        cols: seq![
            ColumnModel { name: "id"@, ty: SourceType::Int32, nullable: false },
            ColumnModel { name: "value"@, ty: SourceType::Utf8, nullable: false },
            ColumnModel { name: "score"@, ty: SourceType::Float64, nullable: false },
        ],
        rows,
    }
}

/// The model of the empty test batch: two required columns and no rows.
pub open spec fn empty_batch_model() -> BatchModel {
    BatchModel {
        cols: seq![
            ColumnModel { name: "id"@, ty: SourceType::Int32, nullable: false },
            ColumnModel { name: "name"@, ty: SourceType::Utf8, nullable: false },
        ],
        rows: 0,
    }
}

/// The model of the nullable test batch: two nullable columns and three rows.
pub open spec fn nullable_batch_model() -> BatchModel {
    BatchModel {
        cols: seq![
            ColumnModel { name: "id"@, ty: SourceType::Int32, nullable: true },
            ColumnModel { name: "name"@, ty: SourceType::Utf8, nullable: true },
        ],
        rows: 3,
    }
}

/// Builders for in-memory test batches.
pub struct ArrowTestUtils;

impl ArrowTestUtils {
    /// Relies on arrow's array and batch constructors to build a batch of
    /// the stated schema with five rows.
    #[verifier::external_body]
    pub fn create_simple_test_batch() -> (rb: BatchPayload)
        ensures
            rb_model(rb) == simple_batch_model(),
    {
        let schema = ArrowSchema::new(vec![
            Field::new("id", DataType::Int32, false),
            Field::new("name", DataType::Utf8, false),
            Field::new("active", DataType::Boolean, false),
        ]);
        let ids = Int32Array::from(vec![1, 2, 3, 4, 5]);
        let names = StringArray::from(vec!["Alice", "Bob", "Charlie", "David", "Eve"]);
        let active = BooleanArray::from(vec![true, false, true, true, false]);
        let rb = RecordBatch::try_new(
            Arc::new(schema),
            vec![Arc::new(ids), Arc::new(names), Arc::new(active)],
        ).unwrap();
        BatchPayload { rb }
    }

    /// Relies on arrow's array and batch constructors to build a batch of
    /// the stated schema with `row_count` rows (the cast kernel fills the
    /// floating-point column). The bound keeps the string column's 32-bit
    /// offsets, which overflow with a panic near 215 million ten-byte rows,
    /// comfortably in range.
    #[verifier::external_body]
    pub fn create_large_test_batch(row_count: usize) -> (rb: BatchPayload)
        requires
            row_count <= 100_000_000,
        ensures
            rb_model(rb) == large_batch_model(row_count as nat),
    {
        let schema = ArrowSchema::new(vec![
            Field::new("id", DataType::Int32, false),
            Field::new("value", DataType::Utf8, false),
            Field::new("score", DataType::Float64, false),
        ]);
        let ids = Int32Array::from((1..=row_count as i32).collect::<Vec<i32>>());
        let values = StringArray::from((1..=row_count).map(|_i| "test_value").collect::<Vec<&str>>());
        let scores = arrow::compute::cast(&ids, &DataType::Float64).unwrap();
        let rb = RecordBatch::try_new(
            Arc::new(schema),
            vec![Arc::new(ids), Arc::new(values), scores],
        ).unwrap();
        BatchPayload { rb }
    }

    /// Relies on arrow's array and batch constructors to build a batch of
    /// the stated schema with no rows.
    #[verifier::external_body]
    pub fn create_empty_test_batch() -> (rb: BatchPayload)
        ensures
            rb_model(rb) == empty_batch_model(),
    {
        let schema = ArrowSchema::new(vec![
            Field::new("id", DataType::Int32, false),
            Field::new("name", DataType::Utf8, false),
        ]);
        let ids = Int32Array::from(Vec::<i32>::new());
        let names = StringArray::from(Vec::<&str>::new());
        let rb = RecordBatch::try_new(Arc::new(schema), vec![Arc::new(ids), Arc::new(names)])
            .unwrap();
        BatchPayload { rb }
    }

    /// Relies on arrow's array and batch constructors to build a batch with
    /// two nullable columns, three rows, and one null in each column.
    #[verifier::external_body]
    pub fn create_nullable_test_batch() -> (rb: BatchPayload)
        ensures
            rb_model(rb) == nullable_batch_model(),
    {
        let schema = ArrowSchema::new(vec![
            Field::new("id", DataType::Int32, true),
            Field::new("name", DataType::Utf8, true),
        ]);
        let ids = Int32Array::from(vec![Some(1), None, Some(3)]);
        let names = StringArray::from(vec![Some("Alice"), None, Some("Charlie")]);
        let rb = RecordBatch::try_new(Arc::new(schema), vec![Arc::new(ids), Arc::new(names)])
            .unwrap();
        BatchPayload { rb }
    }

    /// Puts a batch on the wire and wraps it in a base64 envelope: the result
    /// decodes back to a stream whose first block is exactly this batch.
    pub fn record_batch_to_base64(record_batch: &BatchPayload) -> (s: String)
        ensures
            b64_bytes(s@) matches Some(d) && stream_first_batch(d) == Some(
                rb_model(*record_batch),
            ),
    {
        let buffer = write_stream(record_batch);
        b64_encode(buffer.as_slice())
    }

    /// A base64-encoded wire stream carrying the simple test batch.
    pub fn create_test_arrow_stream() -> (s: String)
        ensures
            b64_bytes(s@) matches Some(d) && stream_first_batch(d) == Some(simple_batch_model()),
    {
        let batch = Self::create_simple_test_batch();
        Self::record_batch_to_base64(&batch)
    }

    /// A base64-encoded wire stream carrying the large test batch with
    /// `row_count` rows.
    pub fn create_large_test_arrow_stream(row_count: usize) -> (s: String)
        requires
            row_count <= 100_000_000,
        ensures
            b64_bytes(s@) matches Some(d) && stream_first_batch(d) == Some(
                large_batch_model(row_count as nat),
            ),
    {
        let batch = Self::create_large_test_batch(row_count);
        Self::record_batch_to_base64(&batch)
    }
}

} // verus!
