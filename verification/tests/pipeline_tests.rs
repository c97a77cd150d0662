use arrow::array::{ArrayRef, BooleanArray, Int32Array, ListArray, StringArray};
use arrow::datatypes::{DataType, Field, Int32Type, Schema};
use arrow::ipc::writer::StreamWriter;
use arrow::record_batch::RecordBatch;
use ingress_iceberg::catalog::{Catalog, Snapshot, TableIdentifier};
use ingress_iceberg::errors::{CatalogError, DecodeError, IngestError};
use ingress_iceberg::pipeline::{ingest, ingest_response, resolve_namespace};
use ingress_iceberg::schema::IcebergType;
use std::sync::Arc;

fn batch_stream_bytes(record_batch: &RecordBatch) -> Vec<u8> {
    let mut buffer = Vec::new();
    {
        let mut writer = StreamWriter::try_new(&mut buffer, &record_batch.schema()).unwrap();
        writer.write(record_batch).unwrap();
        writer.finish().unwrap();
    }
    buffer
}

fn scenario_batch_bytes() -> Vec<u8> {
    let schema = Schema::new(vec![
        Field::new("id", DataType::Int32, false),
        Field::new("name", DataType::Utf8, false),
        Field::new("active", DataType::Boolean, false),
    ]);
    let id_array = Int32Array::from(vec![1, 2, 3, 4, 5]);
    let name_array = StringArray::from(vec!["Alice", "Bob", "Charlie", "David", "Eve"]);
    let active_array = BooleanArray::from(vec![true, false, true, true, false]);
    let batch = RecordBatch::try_new(
        Arc::new(schema),
        vec![Arc::new(id_array), Arc::new(name_array), Arc::new(active_array)],
    )
    .unwrap();
    batch_stream_bytes(&batch)
}

fn table_id(namespace: &[&str], name: &str) -> TableIdentifier {
    TableIdentifier {
        namespace: namespace.iter().map(|s| s.to_string()).collect(),
        name: name.to_string(),
    }
}

#[test]
fn test_ingest_creates_namespace_table_and_snapshot() {
    let mut cat = Catalog::new();
    let bytes = scenario_batch_bytes();

    let result = ingest(&mut cat, "ns1", "t1", &bytes);
    assert_eq!(result, Ok(5));

    let namespaces = cat.list_namespaces();
    assert_eq!(namespaces, vec![vec!["ns1".to_string()]]);

    let id = table_id(&["ns1"], "t1");
    assert!(cat.table_exists(&id));
    let meta = cat.get_table_metadata(&id).unwrap();

    assert_eq!(meta.schema.fields.len(), 3);
    assert_eq!(meta.schema.fields[0].id, 1);
    assert_eq!(meta.schema.fields[0].field_type, IcebergType::Int);
    assert!(meta.schema.fields[0].required);
    assert_eq!(meta.schema.fields[1].id, 2);
    assert_eq!(meta.schema.fields[1].field_type, IcebergType::Str);
    assert!(meta.schema.fields[1].required);
    assert_eq!(meta.schema.fields[2].id, 3);
    assert_eq!(meta.schema.fields[2].field_type, IcebergType::Boolean);
    assert!(meta.schema.fields[2].required);

    assert_eq!(meta.location, "s3://iceberg-data/ns1/t1");
    assert_eq!(meta.snapshot_log.len(), 1);
    assert_eq!(meta.current_snapshot_id, Some(1));
    assert_eq!(meta.snapshot_log[0].rows_added, 5);
    assert_eq!(meta.snapshot_log[0].data_files, vec![
        "s3://iceberg-data/ns1/t1/data/1.parquet".to_string()
    ]);
}

#[test]
fn test_ingest_truncated_stream_is_malformed_and_touches_nothing() {
    let mut cat = Catalog::new();
    let bytes = scenario_batch_bytes();
    let truncated = &bytes[..bytes.len() / 4];

    let result = ingest(&mut cat, "ns1", "t1", truncated);
    assert_eq!(result, Err(IngestError::Decode(DecodeError::Malformed)));

    assert!(cat.list_namespaces().is_empty());
    assert!(!cat.table_exists(&table_id(&["ns1"], "t1")));
}

#[test]
fn test_ingest_schema_only_stream_is_empty_error() {
    let mut cat = Catalog::new();
    let schema = Schema::new(vec![Field::new("id", DataType::Int32, false)]);
    let mut buffer = Vec::new();
    {
        let mut writer = StreamWriter::try_new(&mut buffer, &schema).unwrap();
        writer.finish().unwrap();
    }

    let result = ingest(&mut cat, "ns1", "t1", &buffer);
    assert_eq!(result, Err(IngestError::Decode(DecodeError::Empty)));
    assert!(cat.list_namespaces().is_empty());
}

#[test]
fn test_second_ingest_appends_snapshot_and_keeps_history() {
    let mut cat = Catalog::new();
    let bytes = scenario_batch_bytes();

    assert_eq!(ingest(&mut cat, "ns1", "t1", &bytes), Ok(5));
    assert_eq!(ingest(&mut cat, "ns1", "t1", &bytes), Ok(5));

    let id = table_id(&["ns1"], "t1");
    let tables = cat.list_tables(&vec!["ns1".to_string()]);
    assert_eq!(tables.len(), 1);

    let meta = cat.get_table_metadata(&id).unwrap();
    assert_eq!(meta.snapshot_log.len(), 2);
    assert_eq!(meta.current_snapshot_id, Some(2));
    assert_eq!(meta.snapshot_log[0].sequence_number, 1);
    assert_eq!(meta.snapshot_log[1].sequence_number, 2);
    assert_eq!(meta.last_sequence_number, 2);
}

#[test]
fn test_unsupported_column_type_maps_to_string_and_commits() {
    let mut cat = Catalog::new();
    let nested: ListArray = ListArray::from_iter_primitive::<Int32Type, _, _>(vec![
        Some(vec![Some(1), Some(2)]),
        Some(vec![Some(3)]),
    ]);
    let batch =
        RecordBatch::try_from_iter(vec![("payload", Arc::new(nested) as ArrayRef)]).unwrap();
    let bytes = batch_stream_bytes(&batch);

    let result = ingest(&mut cat, "ns1", "nested_table", &bytes);
    assert_eq!(result, Ok(2));

    let meta = cat.get_table_metadata(&table_id(&["ns1"], "nested_table")).unwrap();
    assert_eq!(meta.schema.fields.len(), 1);
    assert_eq!(meta.schema.fields[0].field_type, IcebergType::Str);
    assert_eq!(meta.snapshot_log.len(), 1);
}

#[test]
fn test_zero_row_ingest_commits_snapshot() {
    let mut cat = Catalog::new();
    let schema = Schema::new(vec![
        Field::new("id", DataType::Int32, false),
        Field::new("name", DataType::Utf8, false),
    ]);
    let empty = RecordBatch::new_empty(Arc::new(schema));
    let bytes = batch_stream_bytes(&empty);

    let result = ingest(&mut cat, "ns1", "empty_table", &bytes);
    assert_eq!(result, Ok(0));

    let meta = cat.get_table_metadata(&table_id(&["ns1"], "empty_table")).unwrap();
    assert_eq!(meta.snapshot_log.len(), 1);
    assert_eq!(meta.snapshot_log[0].rows_added, 0);
    assert_eq!(meta.current_snapshot_id, Some(1));
}

#[test]
fn test_commit_conflict_leaves_metadata_unchanged() {
    let mut cat = Catalog::new();
    let bytes = scenario_batch_bytes();
    assert_eq!(ingest(&mut cat, "ns1", "t1", &bytes), Ok(5));

    let id = table_id(&["ns1"], "t1");
    let before = {
        let meta = cat.get_table_metadata(&id).unwrap();
        (meta.version, meta.current_snapshot_id, meta.snapshot_log.len(), meta.last_sequence_number)
    };

    // A commit carrying a stale expected version must fail cleanly.
    let stale_version = before.0 + 1;
    let snap = Snapshot {
        snapshot_id: 2,
        sequence_number: 2,
        rows_added: 7,
        data_files: vec!["s3://iceberg-data/ns1/t1/data/2.parquet".to_string()],
    };
    let result = cat.commit_snapshot(&id, stale_version, snap);
    assert_eq!(result, Err(CatalogError::Conflict));

    let meta = cat.get_table_metadata(&id).unwrap();
    assert_eq!(meta.version, before.0);
    assert_eq!(meta.current_snapshot_id, before.1);
    assert_eq!(meta.snapshot_log.len(), before.2);
    assert_eq!(meta.last_sequence_number, before.3);
}

#[test]
fn test_commit_rejects_sequence_gap() {
    let mut cat = Catalog::new();
    let bytes = scenario_batch_bytes();
    assert_eq!(ingest(&mut cat, "ns1", "t1", &bytes), Ok(5));

    let id = table_id(&["ns1"], "t1");
    let version = cat.get_table_metadata(&id).unwrap().version;

    // The snapshot skips sequence number 2, so the catalog must reject it
    // and leave the table unchanged.
    let snap = Snapshot {
        snapshot_id: 3,
        sequence_number: 3,
        rows_added: 1,
        data_files: vec!["s3://iceberg-data/ns1/t1/data/3.parquet".to_string()],
    };
    let result = cat.commit_snapshot(&id, version, snap);
    assert_eq!(result, Err(CatalogError::RequestFailed(400)));
    assert_eq!(cat.get_table_metadata(&id).unwrap().snapshot_log.len(), 1);
}

#[test]
fn test_get_table_metadata_missing_table() {
    let cat = Catalog::new();
    let result = cat.get_table_metadata(&table_id(&["ns1"], "missing"));
    assert!(matches!(result, Err(CatalogError::RequestFailed(404))));
}

#[test]
fn test_resolve_namespace_default() {
    assert_eq!(resolve_namespace(&None), "default");
    assert_eq!(resolve_namespace(&Some("warehouse".to_string())), "warehouse");
}

#[test]
fn test_ingest_response_shapes() {
    let ok = ingest_response(&Ok(5));
    assert!(ok.success);
    assert_eq!(ok.records_ingested, Some(5));
    assert_eq!(ok.message, "Successfully ingested 5 records");

    let err = ingest_response(&Err(IngestError::Decode(DecodeError::Malformed)));
    assert!(!err.success);
    assert_eq!(err.records_ingested, None);
    assert_eq!(err.message, "malformed wire stream");
}

#[test]
fn test_error_faults_and_descriptions() {
    assert!(IngestError::Decode(DecodeError::Malformed).is_client_fault());
    assert!(IngestError::Decode(DecodeError::Empty).is_client_fault());
    assert!(!IngestError::Catalog(CatalogError::Unavailable).is_client_fault());
    assert!(!IngestError::Write(ingress_iceberg::errors::WriteError::CommitConflict)
        .is_client_fault());
    assert_eq!(
        IngestError::Decode(DecodeError::Empty).describe(),
        "no record batch found in the stream"
    );
    assert_eq!(
        IngestError::Write(ingress_iceberg::errors::WriteError::StorageFailure).describe(),
        "data file write failed"
    );
}
