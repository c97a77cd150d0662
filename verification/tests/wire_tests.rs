use arrow::array::{BooleanArray, Int32Array, StringArray};
use arrow::datatypes::{DataType, Field, Schema};
use arrow::ipc::reader::StreamReader;
use arrow::ipc::writer::StreamWriter;
use arrow::record_batch::RecordBatch;
use base64::Engine;
use ingress_iceberg::batch::decode;
use ingress_iceberg::errors::DecodeError;
use ingress_iceberg::handler::ArrowStreamHandler;
use ingress_iceberg::schema::SourceType;
use ingress_iceberg::testdata::ArrowTestUtils;
use std::io::Cursor;
use std::sync::Arc;

fn create_test_record_batch() -> RecordBatch {
    let schema = Schema::new(vec![
        Field::new("id", DataType::Int32, false),
        Field::new("name", DataType::Utf8, false),
        Field::new("active", DataType::Boolean, false),
    ]);

    let id_array = Int32Array::from(vec![1, 2, 3, 4, 5]);
    let name_array = StringArray::from(vec!["Alice", "Bob", "Charlie", "David", "Eve"]);
    let active_array = BooleanArray::from(vec![true, false, true, true, false]);

    RecordBatch::try_new(
        Arc::new(schema),
        vec![Arc::new(id_array), Arc::new(name_array), Arc::new(active_array)],
    )
    .unwrap()
}

fn create_arrow_stream_bytes(record_batch: &RecordBatch) -> Vec<u8> {
    let mut buffer = Vec::new();
    {
        let mut writer = StreamWriter::try_new(&mut buffer, &record_batch.schema()).unwrap();
        writer.write(record_batch).unwrap();
        writer.finish().unwrap();
    }
    buffer
}

#[test]
fn test_process_arrow_data_success() {
    let handler = ArrowStreamHandler::new();
    let test_batch = create_test_record_batch();
    let arrow_bytes = create_arrow_stream_bytes(&test_batch);
    let base64_data = base64::engine::general_purpose::STANDARD.encode(&arrow_bytes);

    let result = handler.process_arrow_data(&base64_data);

    assert!(result.is_ok());
    let processed_batch = result.unwrap();
    assert_eq!(processed_batch.row_count, 5);
    assert_eq!(processed_batch.columns.len(), 3);
}

#[test]
fn test_process_arrow_data_invalid_base64() {
    let handler = ArrowStreamHandler::new();
    let invalid_base64 = "invalid-base64-data!@#";

    let result = handler.process_arrow_data(invalid_base64);

    assert!(matches!(result, Err(DecodeError::Malformed)));
}

#[test]
fn test_process_arrow_data_invalid_arrow_data() {
    let handler = ArrowStreamHandler::new();
    let invalid_arrow_data = "SGVsbG8gV29ybGQ=";

    let result = handler.process_arrow_data(invalid_arrow_data);

    assert!(matches!(result, Err(DecodeError::Malformed)));
}

#[test]
fn test_process_arrow_data_empty_stream() {
    let handler = ArrowStreamHandler::new();
    let schema = Schema::new(vec![Field::new("id", DataType::Int32, false)]);
    let empty_batch = RecordBatch::new_empty(Arc::new(schema));
    let arrow_bytes = create_arrow_stream_bytes(&empty_batch);
    let base64_data = base64::engine::general_purpose::STANDARD.encode(&arrow_bytes);

    let result = handler.process_arrow_data(&base64_data);

    assert!(result.is_ok());
    let processed_batch = result.unwrap();
    assert_eq!(processed_batch.row_count, 0);
}

#[test]
fn test_process_arrow_data_large_dataset() {
    let handler = ArrowStreamHandler::new();

    let schema = Schema::new(vec![
        Field::new("id", DataType::Int32, false),
        Field::new("value", DataType::Utf8, false),
    ]);

    let ids: Vec<i32> = (1..=1000).collect();
    let values: Vec<&str> = (1..=1000).map(|_i| "test_value").collect();

    let id_array = Int32Array::from(ids);
    let value_array = StringArray::from(values);

    let large_batch =
        RecordBatch::try_new(Arc::new(schema), vec![Arc::new(id_array), Arc::new(value_array)])
            .unwrap();

    let arrow_bytes = create_arrow_stream_bytes(&large_batch);
    let base64_data = base64::engine::general_purpose::STANDARD.encode(&arrow_bytes);

    let result = handler.process_arrow_data(&base64_data);

    assert!(result.is_ok());
    let processed_batch = result.unwrap();
    assert_eq!(processed_batch.row_count, 1000);
    assert_eq!(processed_batch.columns.len(), 2);
}

#[test]
fn test_process_arrow_bytes_success() {
    let handler = ArrowStreamHandler::new();
    let test_batch = create_test_record_batch();
    let arrow_bytes = create_arrow_stream_bytes(&test_batch);

    let result = handler.process_arrow_bytes(&arrow_bytes);

    assert!(result.is_ok());
    let processed_batch = result.unwrap();
    assert_eq!(processed_batch.row_count, 5);
    assert_eq!(processed_batch.columns.len(), 3);
}

#[test]
fn test_process_arrow_bytes_invalid_data() {
    let handler = ArrowStreamHandler::new();
    let invalid_data = b"invalid arrow data";

    let result = handler.process_arrow_bytes(invalid_data);

    assert!(matches!(result, Err(DecodeError::Malformed)));
}

#[test]
fn test_process_arrow_bytes_empty_data() {
    let handler = ArrowStreamHandler::new();
    let empty_data = b"";

    let result = handler.process_arrow_bytes(empty_data);

    assert!(matches!(result, Err(DecodeError::Malformed)));
}

#[test]
fn test_schema_only_stream_is_empty() {
    let handler = ArrowStreamHandler::new();
    let schema = Schema::new(vec![Field::new("id", DataType::Int32, false)]);
    let mut buffer = Vec::new();
    {
        let mut writer = StreamWriter::try_new(&mut buffer, &schema).unwrap();
        writer.finish().unwrap();
    }

    let result = handler.process_arrow_bytes(&buffer);

    assert!(matches!(result, Err(DecodeError::Empty)));
}

#[test]
fn test_decode_reads_schema_metadata() {
    let test_batch = create_test_record_batch();
    let arrow_bytes = create_arrow_stream_bytes(&test_batch);

    let decoded = decode(&arrow_bytes).unwrap();

    assert_eq!(decoded.columns.len(), 3);
    assert_eq!(decoded.columns[0].name, "id");
    assert!(matches!(decoded.columns[0].source_type, SourceType::Int32));
    assert!(!decoded.columns[0].nullable);
    assert_eq!(decoded.columns[1].name, "name");
    assert!(matches!(decoded.columns[1].source_type, SourceType::Utf8));
    assert_eq!(decoded.columns[2].name, "active");
    assert!(matches!(decoded.columns[2].source_type, SourceType::Boolean));
}

#[test]
fn test_decode_nullable_columns() {
    let batch = ArrowTestUtils::create_nullable_test_batch();
    let encoded = ArrowTestUtils::record_batch_to_base64(&batch);
    let handler = ArrowStreamHandler::new();

    let decoded = handler.process_arrow_data(&encoded).unwrap();

    assert_eq!(decoded.row_count, 3);
    assert_eq!(decoded.columns.len(), 2);
    assert!(decoded.columns[0].nullable);
    assert!(decoded.columns[1].nullable);
}

#[test]
fn test_round_trip_preserves_schema_and_values() {
    let test_batch = create_test_record_batch();
    let arrow_bytes = create_arrow_stream_bytes(&test_batch);

    let decoded = decode(&arrow_bytes).unwrap();
    let reencoded = decoded.to_stream_bytes();

    let mut reader = StreamReader::try_new(Cursor::new(reencoded), None).unwrap();
    let reread = reader.next().unwrap().unwrap();
    assert_eq!(reread, test_batch);
}

#[test]
fn test_oversized_buffer_declaration_is_malformed() {
    let schema = Schema::new(vec![Field::new("id", DataType::Int32, false)]);
    let ids = Int32Array::from(vec![1, 2, 3, 4, 5]);
    let batch = RecordBatch::try_new(Arc::new(schema), vec![Arc::new(ids)]).unwrap();
    let mut bytes = create_arrow_stream_bytes(&batch);

    // Inflate the declared length of the values buffer (20 bytes, stored as
    // a little-endian 64-bit integer in the batch message's metadata) far
    // beyond the message body; such a stream must be rejected as malformed,
    // never trusted.
    let needle = 20u64.to_le_bytes();
    let huge = (1u64 << 40).to_le_bytes();
    let mut patched = false;
    let mut i = 0;
    while i + 8 <= bytes.len() {
        if bytes[i..i + 8] == needle {
            bytes[i..i + 8].copy_from_slice(&huge);
            patched = true;
        }
        i += 1;
    }
    assert!(patched);

    let result = decode(&bytes);
    assert!(matches!(result, Err(DecodeError::Malformed)));
}

#[test]
fn test_round_trip_function_preserves_model() {
    let test_batch = create_test_record_batch();
    let arrow_bytes = create_arrow_stream_bytes(&test_batch);
    let decoded = decode(&arrow_bytes).unwrap();

    let rt = ingress_iceberg::batch::round_trip(&decoded);

    assert_eq!(rt.row_count, decoded.row_count);
    assert_eq!(rt.columns.len(), decoded.columns.len());
    assert_eq!(rt.columns[0].name, decoded.columns[0].name);
    assert_eq!(rt.columns[1].name, decoded.columns[1].name);
    assert_eq!(rt.columns[2].name, decoded.columns[2].name);
}

#[test]
fn test_create_simple_test_batch() {
    let batch = ArrowTestUtils::create_simple_test_batch();
    let encoded = ArrowTestUtils::record_batch_to_base64(&batch);
    let handler = ArrowStreamHandler::new();
    let decoded = handler.process_arrow_data(&encoded).unwrap();
    assert_eq!(decoded.row_count, 5);
    assert_eq!(decoded.columns.len(), 3);
}

#[test]
fn test_create_large_test_batch() {
    let batch = ArrowTestUtils::create_large_test_batch(1000);
    let encoded = ArrowTestUtils::record_batch_to_base64(&batch);
    let handler = ArrowStreamHandler::new();
    let decoded = handler.process_arrow_data(&encoded).unwrap();
    assert_eq!(decoded.row_count, 1000);
    assert_eq!(decoded.columns.len(), 3);
}

#[test]
fn test_create_empty_test_batch() {
    let batch = ArrowTestUtils::create_empty_test_batch();
    let encoded = ArrowTestUtils::record_batch_to_base64(&batch);
    let handler = ArrowStreamHandler::new();
    let decoded = handler.process_arrow_data(&encoded).unwrap();
    assert_eq!(decoded.row_count, 0);
    assert_eq!(decoded.columns.len(), 2);
}

#[test]
fn test_record_batch_to_base64() {
    let batch = ArrowTestUtils::create_simple_test_batch();
    let base64_stream = ArrowTestUtils::record_batch_to_base64(&batch);
    assert!(!base64_stream.is_empty());
    let decoded = base64::engine::general_purpose::STANDARD.decode(&base64_stream);
    assert!(decoded.is_ok());
}

#[test]
fn test_create_test_arrow_stream() {
    let stream = ArrowTestUtils::create_test_arrow_stream();
    assert!(!stream.is_empty());
}

#[test]
fn test_create_large_test_arrow_stream() {
    let stream = ArrowTestUtils::create_large_test_arrow_stream(100);
    assert!(!stream.is_empty());
    let handler = ArrowStreamHandler::new();
    let decoded = handler.process_arrow_data(&stream).unwrap();
    assert_eq!(decoded.row_count, 100);
    assert_eq!(decoded.columns.len(), 3);
    assert!(matches!(decoded.columns[2].source_type, SourceType::Float64));
}
