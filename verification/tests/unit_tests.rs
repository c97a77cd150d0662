use ingress_iceberg::catalog::{
    Catalog, Namespace, PartitionSpec, TableEntry, TableIdentifier, TableMetadata,
};
use ingress_iceberg::decimal::u64_to_string;
use ingress_iceberg::errors::CatalogError;
use ingress_iceberg::reconciler::{
    default_location, default_table_properties, ensure_namespace_exists, split_namespace,
};
use ingress_iceberg::schema::{map_schema, map_source_type, ColumnMeta, IcebergType, SourceType};

#[test]
fn test_split_namespace_segments() {
    assert_eq!(split_namespace("a.b.c"), vec!["a", "b", "c"]);
    assert_eq!(split_namespace("default"), vec!["default"]);
    assert_eq!(split_namespace("a..b"), vec!["a", "", "b"]);
    assert_eq!(split_namespace(""), vec![""]);
    assert_eq!(split_namespace(".x."), vec!["", "x", ""]);
}

#[test]
fn test_u64_to_string_values() {
    assert_eq!(u64_to_string(0), "0");
    assert_eq!(u64_to_string(7), "7");
    assert_eq!(u64_to_string(12345), "12345");
    assert_eq!(u64_to_string(u64::MAX), "18446744073709551615");
}

#[test]
fn test_type_mapping_table() {
    assert_eq!(map_source_type(SourceType::Int8), IcebergType::Int);
    assert_eq!(map_source_type(SourceType::Int16), IcebergType::Int);
    assert_eq!(map_source_type(SourceType::Int32), IcebergType::Int);
    assert_eq!(map_source_type(SourceType::Int64), IcebergType::Long);
    assert_eq!(map_source_type(SourceType::UInt8), IcebergType::Int);
    assert_eq!(map_source_type(SourceType::UInt16), IcebergType::Int);
    assert_eq!(map_source_type(SourceType::UInt32), IcebergType::Int);
    assert_eq!(map_source_type(SourceType::UInt64), IcebergType::Long);
    assert_eq!(map_source_type(SourceType::Float32), IcebergType::Float);
    assert_eq!(map_source_type(SourceType::Float64), IcebergType::Double);
    assert_eq!(map_source_type(SourceType::Utf8), IcebergType::Str);
    assert_eq!(map_source_type(SourceType::LargeUtf8), IcebergType::Str);
    assert_eq!(map_source_type(SourceType::Binary), IcebergType::Binary);
    assert_eq!(map_source_type(SourceType::LargeBinary), IcebergType::Binary);
    assert_eq!(map_source_type(SourceType::Boolean), IcebergType::Boolean);
    assert_eq!(map_source_type(SourceType::Date32), IcebergType::Date);
    assert_eq!(map_source_type(SourceType::Date64), IcebergType::Date);
    assert_eq!(map_source_type(SourceType::Timestamp), IcebergType::Timestamp);
    assert_eq!(map_source_type(SourceType::Other), IcebergType::Str);
}

#[test]
fn test_map_schema_assigns_ids_by_position() {
    let columns = vec![
        ColumnMeta { name: "a".to_string(), source_type: SourceType::Int64, nullable: true },
        ColumnMeta { name: "b".to_string(), source_type: SourceType::Utf8, nullable: false },
    ];
    let schema = map_schema(&columns);
    assert_eq!(schema.schema_type, "struct");
    assert_eq!(schema.fields.len(), 2);
    assert_eq!(schema.fields[0].id, 1);
    assert_eq!(schema.fields[0].name, "a");
    assert!(!schema.fields[0].required);
    assert_eq!(schema.fields[0].field_type, IcebergType::Long);
    assert_eq!(schema.fields[1].id, 2);
    assert_eq!(schema.fields[1].name, "b");
    assert!(schema.fields[1].required);
    assert_eq!(schema.fields[1].field_type, IcebergType::Str);
}

#[test]
fn test_rest_type_names() {
    assert_eq!(IcebergType::Int.rest_name(), "int");
    assert_eq!(IcebergType::Long.rest_name(), "long");
    assert_eq!(IcebergType::Float.rest_name(), "float");
    assert_eq!(IcebergType::Double.rest_name(), "double");
    assert_eq!(IcebergType::Str.rest_name(), "string");
    assert_eq!(IcebergType::Binary.rest_name(), "binary");
    assert_eq!(IcebergType::Boolean.rest_name(), "boolean");
    assert_eq!(IcebergType::Date.rest_name(), "date");
    assert_eq!(IcebergType::Timestamp.rest_name(), "timestamp");
}

#[test]
fn test_default_location_format() {
    assert_eq!(default_location("ns1", "t1"), "s3://iceberg-data/ns1/t1");
    assert_eq!(default_location("a.b", "t"), "s3://iceberg-data/a.b/t");
}

#[test]
fn test_default_table_properties_pairs() {
    let props = default_table_properties();
    assert_eq!(props.len(), 2);
    assert_eq!(props[0].0, "write.format.default");
    assert_eq!(props[0].1, "parquet");
    assert_eq!(props[1].0, "write.metadata.metrics.default");
    assert_eq!(props[1].1, "truncate(16)");
}

#[test]
fn test_ensure_namespace_exists_is_idempotent() {
    let mut cat = Catalog::new();
    assert_eq!(ensure_namespace_exists(&mut cat, "a.b"), Ok(()));
    assert_eq!(ensure_namespace_exists(&mut cat, "a.b"), Ok(()));
    let namespaces = cat.list_namespaces();
    assert_eq!(namespaces, vec![vec!["a".to_string(), "b".to_string()]]);
}

#[test]
fn test_create_namespace_conflict() {
    let mut cat = Catalog::new();
    let ns = Namespace { namespace: vec!["a".to_string()], properties: Vec::new() };
    assert_eq!(cat.create_namespace(ns), Ok(()));
    let again = Namespace { namespace: vec!["a".to_string()], properties: Vec::new() };
    assert_eq!(cat.create_namespace(again), Err(CatalogError::Conflict));
    assert_eq!(cat.list_namespaces().len(), 1);
}

#[test]
fn test_create_table_missing_namespace() {
    let mut cat = Catalog::new();
    let columns = vec![ColumnMeta {
        name: "id".to_string(),
        source_type: SourceType::Int64,
        nullable: false,
    }];
    let schema = map_schema(&columns);
    let metadata = TableMetadata {
        table_name: "t".to_string(),
        namespace: vec!["missing".to_string()],
        schema: schema.clone(),
        current_schema_id: 0,
        schemas: vec![schema],
        default_spec: PartitionSpec { spec_id: 0, fields: Vec::new() },
        location: default_location("missing", "t"),
        properties: default_table_properties(),
        current_snapshot_id: None,
        snapshot_log: Vec::new(),
        last_sequence_number: 0,
        version: 0,
    };
    let entry = TableEntry {
        id: TableIdentifier { namespace: vec!["missing".to_string()], name: "t".to_string() },
        metadata,
    };
    assert_eq!(cat.create_table(entry), Err(CatalogError::RequestFailed(404)));
    assert!(!cat.table_exists(&TableIdentifier {
        namespace: vec!["missing".to_string()],
        name: "t".to_string()
    }));
}

#[test]
fn test_list_tables_filters_by_namespace() {
    let mut cat = Catalog::new();
    assert_eq!(ensure_namespace_exists(&mut cat, "a"), Ok(()));
    let empty: Vec<TableIdentifier> = cat.list_tables(&vec!["a".to_string()]);
    assert!(empty.is_empty());
}
