//! Schema model and the deterministic mapping from the wire format's column
//! types into the table format's type system.
//!
//! The mapping is a total function: every recognized primitive type maps to
//! exactly one target type, and anything unrecognized falls back to the
//! target `string` type rather than failing, to keep ingestion permissive.
//! Field identifiers are assigned by source column position, starting at 1.

use vstd::prelude::*;

verus! {

/// A primitive column type of the decoded wire stream.
#[derive(Clone, Copy, Debug, PartialEq, Eq, Structural)]
pub enum SourceType {
    Boolean,
    Int8,
    Int16,
    Int32,
    Int64,
    UInt8,
    UInt16,
    UInt32,
    UInt64,
    Float32,
    Float64,
    Utf8,
    LargeUtf8,
    Binary,
    LargeBinary,
    Date32,
    Date64,
    Timestamp,
    /// Any type outside the table above (nested, dictionary, ...).
    Other,
}

/// A primitive type of the target table format.
///
/// `Str` denotes the table format's `string` type.
#[derive(Clone, Copy, Debug, PartialEq, Eq, Structural)]
pub enum IcebergType {
    Int,
    Long,
    Float,
    Double,
    Str,
    Binary,
    Boolean,
    Date,
    Timestamp,
}

/// The fixed type mapping table: each source primitive type's unique target
/// type, with `Str` as the permissive fallback for unrecognized types.
pub open spec fn target_of(t: SourceType) -> IcebergType {
    match t {
        SourceType::Boolean => IcebergType::Boolean,
        SourceType::Int8 => IcebergType::Int,
        SourceType::Int16 => IcebergType::Int,
        SourceType::Int32 => IcebergType::Int,
        SourceType::Int64 => IcebergType::Long,
        SourceType::UInt8 => IcebergType::Int,
        SourceType::UInt16 => IcebergType::Int,
        SourceType::UInt32 => IcebergType::Int,
        SourceType::UInt64 => IcebergType::Long,
        SourceType::Float32 => IcebergType::Float,
        SourceType::Float64 => IcebergType::Double,
        SourceType::Utf8 => IcebergType::Str,
        SourceType::LargeUtf8 => IcebergType::Str,
        SourceType::Binary => IcebergType::Binary,
        SourceType::LargeBinary => IcebergType::Binary,
        SourceType::Date32 => IcebergType::Date,
        SourceType::Date64 => IcebergType::Date,
        SourceType::Timestamp => IcebergType::Timestamp,
        SourceType::Other => IcebergType::Str,
    }
}

/// Maps one source primitive type to its target type, following `target_of`.
pub fn map_source_type(t: SourceType) -> (r: IcebergType)
    ensures
        r == target_of(t),
{
    match t {
        SourceType::Boolean => IcebergType::Boolean,
        SourceType::Int8 => IcebergType::Int,
        SourceType::Int16 => IcebergType::Int,
        SourceType::Int32 => IcebergType::Int,
        SourceType::Int64 => IcebergType::Long,
        SourceType::UInt8 => IcebergType::Int,
        SourceType::UInt16 => IcebergType::Int,
        SourceType::UInt32 => IcebergType::Int,
        SourceType::UInt64 => IcebergType::Long,
        SourceType::Float32 => IcebergType::Float,
        SourceType::Float64 => IcebergType::Double,
        SourceType::Utf8 => IcebergType::Str,
        SourceType::LargeUtf8 => IcebergType::Str,
        SourceType::Binary => IcebergType::Binary,
        SourceType::LargeBinary => IcebergType::Binary,
        SourceType::Date32 => IcebergType::Date,
        SourceType::Date64 => IcebergType::Date,
        SourceType::Timestamp => IcebergType::Timestamp,
        SourceType::Other => IcebergType::Str,
    }
}

/// Each target type's name in the table format's textual vocabulary.
pub open spec fn rest_name_model(t: IcebergType) -> Seq<char> {
    match t {
        IcebergType::Int => "int"@,
        IcebergType::Long => "long"@,
        IcebergType::Float => "float"@,
        IcebergType::Double => "double"@,
        IcebergType::Str => "string"@,
        IcebergType::Binary => "binary"@,
        IcebergType::Boolean => "boolean"@,
        IcebergType::Date => "date"@,
        IcebergType::Timestamp => "timestamp"@,
    }
}

impl IcebergType {
    /// This type's name in the table format's textual vocabulary.
    pub fn rest_name(&self) -> (r: &'static str)
        ensures
            r@ == rest_name_model(*self),
    {
        match self {
            IcebergType::Int => "int",
            IcebergType::Long => "long",
            IcebergType::Float => "float",
            IcebergType::Double => "double",
            IcebergType::Str => "string",
            IcebergType::Binary => "binary",
            IcebergType::Boolean => "boolean",
            IcebergType::Date => "date",
            IcebergType::Timestamp => "timestamp",
        }
    }
}

/// Schema mapping totality law: every recognized source primitive type maps
/// to the defined target type of the fixed table, and an unrecognized type
/// maps to `Str` rather than failing.
pub proof fn lemma_schema_mapping_total(t: SourceType)
    ensures
        (t == SourceType::Int8 || t == SourceType::Int16 || t == SourceType::Int32
            || t == SourceType::UInt8 || t == SourceType::UInt16 || t == SourceType::UInt32)
            ==> target_of(t) == IcebergType::Int,
        (t == SourceType::Int64 || t == SourceType::UInt64) ==> target_of(t) == IcebergType::Long,
        t == SourceType::Float32 ==> target_of(t) == IcebergType::Float,
        t == SourceType::Float64 ==> target_of(t) == IcebergType::Double,
        (t == SourceType::Utf8 || t == SourceType::LargeUtf8) ==> target_of(t)
            == IcebergType::Str,
        (t == SourceType::Binary || t == SourceType::LargeBinary) ==> target_of(t)
            == IcebergType::Binary,
        t == SourceType::Boolean ==> target_of(t) == IcebergType::Boolean,
        (t == SourceType::Date32 || t == SourceType::Date64) ==> target_of(t)
            == IcebergType::Date,
        t == SourceType::Timestamp ==> target_of(t) == IcebergType::Timestamp,
        t == SourceType::Other ==> target_of(t) == IcebergType::Str,
{
}

/// Spec-level model of one decoded column: its name, type and nullability.
#[verifier::ext_equal]
pub struct ColumnModel {
    pub name: Seq<char>,
    pub ty: SourceType,
    pub nullable: bool,
}

/// One decoded column's name, type and nullability.
#[derive(Clone, Debug)]
pub struct ColumnMeta {
    pub name: String,
    pub source_type: SourceType,
    pub nullable: bool,
}

impl View for ColumnMeta {
    type V = ColumnModel;

    open spec fn view(&self) -> ColumnModel {
        ColumnModel { name: self.name@, ty: self.source_type, nullable: self.nullable }
    }
}

/// Spec-level model of one target schema field.
#[verifier::ext_equal]
pub struct SchemaFieldModel {
    pub id: int,
    pub name: Seq<char>,
    pub required: bool,
    pub field_type: IcebergType,
}

/// One field of a target table schema.
#[derive(Clone, Debug)]
pub struct SchemaField {
    /// Stable field identifier, unique within the schema.
    pub id: i32,
    pub name: String,
    pub required: bool,
    pub field_type: IcebergType,
}

impl View for SchemaField {
    type V = SchemaFieldModel;

    open spec fn view(&self) -> SchemaFieldModel {
        SchemaFieldModel {
            id: self.id as int,
            name: self.name@,
            required: self.required,
            field_type: self.field_type,
        }
    }
}

/// Spec-level model of a target table schema.
#[verifier::ext_equal]
pub struct SchemaModel {
    pub schema_type: Seq<char>,
    pub fields: Seq<SchemaFieldModel>,
}

/// A target table schema: an ordered sequence of fields.
#[derive(Clone, Debug)]
pub struct Schema {
    /// The structural kind of the schema; always the `struct` kind here.
    pub schema_type: String,
    pub fields: Vec<SchemaField>,
}

impl View for Schema {
    type V = SchemaModel;

    open spec fn view(&self) -> SchemaModel {
        SchemaModel {
            schema_type: self.schema_type@,
            fields: self.fields@.map_values(|f: SchemaField| f@),
        }
    }
}

/// A field-for-field copy of a schema field.
pub fn clone_schema_field(f: &SchemaField) -> (r: SchemaField)
    ensures
        r@ == f@,
{
    SchemaField { id: f.id, name: f.name.clone(), required: f.required, field_type: f.field_type }
}

/// A field-for-field copy of a schema.
pub fn clone_schema(s: &Schema) -> (r: Schema)
    ensures
        r@ == s@,
{
    let n = s.fields.len();
    let mut fields: Vec<SchemaField> = Vec::new();
    let mut i: usize = 0;
    while i < n
        invariant
            n == s.fields@.len(),
            i <= n,
            fields@.len() == i,
            forall|j: int| 0 <= j < i ==> fields@[j]@ == s.fields@[j]@,
        decreases n - i,
    {
        fields.push(clone_schema_field(&s.fields[i]));
        i = i + 1;
    }
    let r = Schema { schema_type: s.schema_type.clone(), fields };
    proof {
        assert(r@.fields =~= s@.fields);
        assert(r@ =~= s@);
    }
    r
}

/// What the mapped schema's field at `position` (0-based) must be for the
/// source column `col`: identifier `position + 1`, the same name, required
/// exactly when the source is non-nullable, and the type of the fixed table.
pub open spec fn mapped_field(col: ColumnModel, position: int) -> SchemaFieldModel {
    SchemaFieldModel {
        id: position + 1,
        name: col.name,
        required: !col.nullable,
        field_type: target_of(col.ty),
    }
}

/// The schema the mapper derives from the given columns, as one value.
pub open spec fn mapped_schema_model(cols: Seq<ColumnModel>) -> SchemaModel {
    SchemaModel {
        schema_type: "struct"@,
        fields: Seq::new(cols.len(), |i: int| mapped_field(cols[i], i)),
    }
}

/// Derives the target table schema from the decoded batch's columns.
///
/// Deterministic and total: field identifiers are assigned by column
/// position, starting at 1; names carry over; nullability passes through
/// unchanged; types follow the fixed mapping table.
pub fn map_schema(columns: &Vec<ColumnMeta>) -> (s: Schema)
    requires
        columns@.len() < 0x8000_0000,
    ensures
        s@.schema_type == "struct"@,
        s@.fields.len() == columns@.len(),
        forall|i: int|
            0 <= i < columns@.len() ==> s@.fields[i] == mapped_field(columns@[i]@, i),
        s@ == mapped_schema_model(columns@.map_values(|c: ColumnMeta| c@)),
{
    let mut fields: Vec<SchemaField> = Vec::new();
    let n = columns.len();
    let mut i: usize = 0;
    while i < n
        invariant
            n == columns@.len(),
            n < 0x8000_0000,
            i <= n,
            fields@.len() == i,
            forall|j: int|
                0 <= j < i ==> fields@.map_values(|f: SchemaField| f@)[j] == mapped_field(
                    columns@[j]@,
                    j,
                ),
        decreases n - i,
    {
        let col = &columns[i];
        fields.push(
            SchemaField {
                id: (i + 1) as i32,
                name: col.name.clone(),
                required: !col.nullable,
                field_type: map_source_type(col.source_type),
            },
        );
        i = i + 1;
    }
    let s = Schema { schema_type: String::from_str("struct"), fields };
    proof {
        assert(s@.fields =~= mapped_schema_model(columns@.map_values(|c: ColumnMeta| c@)).fields);
        assert(s@ =~= mapped_schema_model(columns@.map_values(|c: ColumnMeta| c@)));
    }
    s
}

} // verus!
