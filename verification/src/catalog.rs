//! The catalog: namespace records and versioned table metadata.
//!
//! `Catalog` is the library's model of the catalog service's state, with the
//! operations the service offers at its interface: list and create
//! namespaces, check and create tables, load table metadata, and commit a
//! snapshot under optimistic concurrency. Creation is idempotent at the
//! caller through conflict detection, and a commit is a single conditional
//! update: it either advances exactly one table's metadata by one snapshot,
//! or it fails and changes nothing.

use vstd::prelude::*;

use crate::errors::CatalogError;
use crate::schema::{Schema, SchemaModel};

verus! {

/// Status code for a resource that does not exist.
pub const STATUS_NOT_FOUND: u16 = 404;

/// Status code for a commit request the catalog rejects as ill-formed.
pub const STATUS_BAD_REQUEST: u16 = 400;

/// The largest sequence number a snapshot may carry; keeps the snapshot
/// identifier (a signed 64-bit value) and the next sequence number
/// representable.
pub const MAX_SEQUENCE_NUMBER: u64 = 0x7FFF_FFFF_FFFF_FFFE;

/// The largest metadata version that can still be advanced.
pub const MAX_METADATA_VERSION: u64 = 0xFFFF_FFFF_FFFF_FFFE;

// ---------------------------------------------------------------------------
// Records and their spec-level models
// ---------------------------------------------------------------------------

/// Spec-level model of a namespace record.
#[verifier::ext_equal]
pub struct NamespaceModel {
    pub path: Seq<Seq<char>>,
    pub properties: Seq<(Seq<char>, Seq<char>)>,
}

/// A namespace: a hierarchical path of segments with a property mapping.
pub struct Namespace {
    pub namespace: Vec<String>,
    pub properties: Vec<(String, String)>,
}

impl View for Namespace {
    type V = NamespaceModel;

    open spec fn view(&self) -> NamespaceModel {
        NamespaceModel {
            path: self.namespace.deep_view(),
            properties: self.properties.deep_view(),
        }
    }
}

/// Spec-level model of a table identifier.
#[verifier::ext_equal]
pub struct TableIdModel {
    pub path: Seq<Seq<char>>,
    pub name: Seq<char>,
}

/// A table identifier: the namespace the table lives in, and its name.
pub struct TableIdentifier {
    pub namespace: Vec<String>,
    pub name: String,
}

impl View for TableIdentifier {
    type V = TableIdModel;

    open spec fn view(&self) -> TableIdModel {
        TableIdModel { path: self.namespace.deep_view(), name: self.name@ }
    }
}

/// Spec-level model of one partition field.
#[verifier::ext_equal]
pub struct PartitionFieldModel {
    pub field_id: int,
    pub source_id: int,
    pub name: Seq<char>,
    pub transform: Seq<char>,
}

/// One field of a partition specification.
pub struct PartitionField {
    pub field_id: i32,
    pub source_id: i32,
    pub name: String,
    pub transform: String,
}

impl View for PartitionField {
    type V = PartitionFieldModel;

    open spec fn view(&self) -> PartitionFieldModel {
        PartitionFieldModel {
            field_id: self.field_id as int,
            source_id: self.source_id as int,
            name: self.name@,
            transform: self.transform@,
        }
    }
}

/// Spec-level model of a partition specification.
#[verifier::ext_equal]
pub struct PartitionSpecModel {
    pub spec_id: int,
    pub fields: Seq<PartitionFieldModel>,
}

/// A partition specification; an empty field list means unpartitioned.
pub struct PartitionSpec {
    pub spec_id: i32,
    pub fields: Vec<PartitionField>,
}

impl View for PartitionSpec {
    type V = PartitionSpecModel;

    open spec fn view(&self) -> PartitionSpecModel {
        PartitionSpecModel {
            spec_id: self.spec_id as int,
            fields: self.fields@.map_values(|f: PartitionField| f@),
        }
    }
}

/// Spec-level model of a snapshot.
#[verifier::ext_equal]
pub struct SnapshotModel {
    pub snapshot_id: int,
    pub sequence_number: nat,
    pub rows_added: nat,
    pub data_files: Seq<Seq<char>>,
}

/// One snapshot: the data added by one commit.
pub struct Snapshot {
    pub snapshot_id: i64,
    pub sequence_number: u64,
    pub rows_added: u64,
    pub data_files: Vec<String>,
}

impl View for Snapshot {
    type V = SnapshotModel;

    open spec fn view(&self) -> SnapshotModel {
        SnapshotModel {
            snapshot_id: self.snapshot_id as int,
            sequence_number: self.sequence_number as nat,
            rows_added: self.rows_added as nat,
            data_files: self.data_files.deep_view(),
        }
    }
}

/// A snapshot's identifier is its sequence number, and sequence numbers
/// start at one.
pub open spec fn snapshot_wf(s: SnapshotModel) -> bool {
    &&& s.snapshot_id == s.sequence_number as int
    &&& s.sequence_number >= 1
}

/// Spec-level model of a table's versioned metadata.
#[verifier::ext_equal]
pub struct TableMetadataModel {
    pub table_name: Seq<char>,
    pub namespace: Seq<Seq<char>>,
    pub schema: SchemaModel,
    pub current_schema_id: int,
    pub schemas: Seq<SchemaModel>,
    pub default_spec: PartitionSpecModel,
    pub location: Seq<char>,
    pub properties: Seq<(Seq<char>, Seq<char>)>,
    pub current_snapshot_id: Option<int>,
    pub snapshot_log: Seq<SnapshotModel>,
    pub last_sequence_number: nat,
    pub version: nat,
}

/// The versioned metadata record of one table.
pub struct TableMetadata {
    pub table_name: String,
    pub namespace: Vec<String>,
    /// The current schema.
    pub schema: Schema,
    /// Index of the current schema in the schema history.
    pub current_schema_id: i32,
    /// Full schema history; never shortened.
    pub schemas: Vec<Schema>,
    /// The default partition specification; empty means unpartitioned.
    pub default_spec: PartitionSpec,
    /// Root of the table's storage location.
    pub location: String,
    pub properties: Vec<(String, String)>,
    /// The most recently committed snapshot, absent if never written to.
    pub current_snapshot_id: Option<i64>,
    /// Append-only snapshot history.
    pub snapshot_log: Vec<Snapshot>,
    /// The sequence number of the last committed snapshot, zero if none.
    pub last_sequence_number: u64,
    /// Metadata version, advanced by one on every committed update; the
    /// handle for conditional updates.
    pub version: u64,
}

impl View for TableMetadata {
    type V = TableMetadataModel;

    open spec fn view(&self) -> TableMetadataModel {
        TableMetadataModel {
            table_name: self.table_name@,
            namespace: self.namespace.deep_view(),
            schema: self.schema@,
            current_schema_id: self.current_schema_id as int,
            schemas: self.schemas@.map_values(|s: Schema| s@),
            default_spec: self.default_spec@,
            location: self.location@,
            properties: self.properties.deep_view(),
            current_snapshot_id: match self.current_snapshot_id {
                Some(id) => Some(id as int),
                None => None,
            },
            snapshot_log: self.snapshot_log@.map_values(|s: Snapshot| s@),
            last_sequence_number: self.last_sequence_number as nat,
            version: self.version as nat,
        }
    }
}

/// Well-formedness of table metadata: the current schema sits in the schema
/// history at the current schema id; snapshots are well formed with strictly
/// increasing sequence numbers; and the current snapshot id and last sequence
/// number always describe the most recent log entry, or are absent and zero
/// for a table never written to.
pub open spec fn metadata_wf(m: TableMetadataModel) -> bool {
    &&& m.schemas.len() >= 1
    &&& 0 <= m.current_schema_id < m.schemas.len()
    &&& m.schemas[m.current_schema_id] == m.schema
    &&& forall|i: int| 0 <= i < m.snapshot_log.len() ==> snapshot_wf(#[trigger] m.snapshot_log[i])
    &&& forall|i: int, j: int|
        0 <= i < j < m.snapshot_log.len() ==> #[trigger] m.snapshot_log[i].sequence_number
            < #[trigger] m.snapshot_log[j].sequence_number
    &&& if m.snapshot_log.len() == 0 {
        m.current_snapshot_id is None && m.last_sequence_number == 0
    } else {
        m.current_snapshot_id == Some(m.snapshot_log.last().snapshot_id)
            && m.last_sequence_number == m.snapshot_log.last().sequence_number
    }
}

impl TableMetadata {
    /// Well-formedness of the record, at the model level.
    pub open spec fn wf(&self) -> bool {
        metadata_wf(self@)
    }
}

// ---------------------------------------------------------------------------
// The catalog
// ---------------------------------------------------------------------------

/// Spec-level model of the whole catalog.
#[verifier::ext_equal]
pub struct CatalogModel {
    pub namespaces: Seq<NamespaceModel>,
    pub tables: Seq<(TableIdModel, TableMetadataModel)>,
}

/// One table's entry in the catalog.
pub struct TableEntry {
    pub id: TableIdentifier,
    pub metadata: TableMetadata,
}

/// The catalog's state: its namespace records and its tables.
pub struct Catalog {
    pub namespaces: Vec<Namespace>,
    pub tables: Vec<TableEntry>,
}

impl View for Catalog {
    type V = CatalogModel;

    open spec fn view(&self) -> CatalogModel {
        CatalogModel {
            namespaces: self.namespaces@.map_values(|n: Namespace| n@),
            tables: self.tables@.map_values(|t: TableEntry| (t.id@, t.metadata@)),
        }
    }
}

/// Whether the catalog holds a namespace record with this path.
pub open spec fn has_namespace(c: CatalogModel, path: Seq<Seq<char>>) -> bool {
    exists|i: int| 0 <= i < c.namespaces.len() && (#[trigger] c.namespaces[i]).path == path
}

/// How many namespace records with this path the catalog holds.
pub open spec fn namespace_count(namespaces: Seq<NamespaceModel>, path: Seq<Seq<char>>) -> nat
    decreases namespaces.len(),
{
    if namespaces.len() == 0 {
        0
    } else {
        (if namespaces.last().path == path {
            1nat
        } else {
            0nat
        }) + namespace_count(namespaces.drop_last(), path)
    }
}

/// The identifiers, in order, of the tables that live in the given namespace.
pub open spec fn tables_in(
    tables: Seq<(TableIdModel, TableMetadataModel)>,
    path: Seq<Seq<char>>,
) -> Seq<TableIdModel>
    decreases tables.len(),
{
    if tables.len() == 0 {
        Seq::empty()
    } else {
        let rest = tables_in(tables.drop_last(), path);
        if tables.last().0.path == path {
            rest.push(tables.last().0)
        } else {
            rest
        }
    }
}

/// Whether the catalog holds a table with this identifier.
pub open spec fn has_table(c: CatalogModel, id: TableIdModel) -> bool {
    exists|i: int| 0 <= i < c.tables.len() && (#[trigger] c.tables[i]).0 == id
}

/// The position of the table with this identifier, when it exists and
/// identifiers are unique.
pub open spec fn table_idx(c: CatalogModel, id: TableIdModel) -> int {
    choose|i: int| 0 <= i < c.tables.len() && (#[trigger] c.tables[i]).0 == id
}

/// The metadata of the table with this identifier, when it exists and
/// identifiers are unique.
pub open spec fn meta_of(c: CatalogModel, id: TableIdModel) -> TableMetadataModel {
    c.tables[table_idx(c, id)].1
}

impl CatalogModel {
    /// The catalog's invariant: namespace paths are unique, table
    /// identifiers are unique, every table's metadata is well formed, and
    /// every table lives in an existing namespace.
    pub open spec fn inv(self) -> bool {
        &&& forall|i: int, j: int|
            0 <= i < j < self.namespaces.len() ==> (#[trigger] self.namespaces[i]).path != (
            #[trigger] self.namespaces[j]).path
        &&& forall|i: int, j: int|
            0 <= i < j < self.tables.len() ==> (#[trigger] self.tables[i]).0 != (
            #[trigger] self.tables[j]).0
        &&& forall|i: int| 0 <= i < self.tables.len() ==> metadata_wf((#[trigger] self.tables[i]).1)
        &&& forall|i: int|
            0 <= i < self.tables.len() ==> has_namespace(self, (#[trigger] self.tables[i]).0.path)
    }
}

/// With unique identifiers, any position holding `id` is the position
/// `table_idx` picks.
pub proof fn lemma_table_idx_is_weak(c: CatalogModel, id: TableIdModel, i: int)
    requires
        forall|p: int, q: int|
            0 <= p < q < c.tables.len() ==> (#[trigger] c.tables[p]).0 != (
            #[trigger] c.tables[q]).0,
        0 <= i < c.tables.len(),
        c.tables[i].0 == id,
    ensures
        table_idx(c, id) == i,
        meta_of(c, id) == c.tables[i].1,
        has_table(c, id),
{
    assert(0 <= i < c.tables.len() && (#[trigger] c.tables[i]).0 == id);
    let j = table_idx(c, id);
    if i != j {
        if i < j {
            assert(c.tables[i].0 != c.tables[j].0);
        } else {
            assert(c.tables[j].0 != c.tables[i].0);
        }
    }
}

/// With the catalog invariant, any position holding `id` is the position
/// `table_idx` picks.
pub proof fn lemma_table_idx_is(c: CatalogModel, id: TableIdModel, i: int)
    requires
        c.inv(),
        0 <= i < c.tables.len(),
        c.tables[i].0 == id,
    ensures
        table_idx(c, id) == i,
        meta_of(c, id) == c.tables[i].1,
        has_table(c, id),
{
    lemma_table_idx_is_weak(c, id, i);
}

// ---------------------------------------------------------------------------
// Executable equality on identifiers
// ---------------------------------------------------------------------------

/// An element-for-element copy of a segment vector.
pub fn clone_string_vec(v: &Vec<String>) -> (r: Vec<String>)
    ensures
        r@ == v@,
{
    let n = v.len();
    let mut out: Vec<String> = Vec::new();
    let mut i: usize = 0;
    while i < n
        invariant
            n == v@.len(),
            i <= n,
            out@ =~= v@.take(i as int),
        decreases n - i,
    {
        out.push(v[i].clone());
        proof {
            assert(out@ =~= v@.take(i + 1));
        }
        i = i + 1;
    }
    proof {
        assert(out@ =~= v@);
    }
    out
}

/// Whether two segment vectors hold the same segments in the same order.
pub fn string_vec_eq(a: &Vec<String>, b: &Vec<String>) -> (r: bool)
    ensures
        r <==> a.deep_view() == b.deep_view(),
{
    if a.len() != b.len() {
        proof {
            assert(a.deep_view().len() != b.deep_view().len());
        }
        return false;
    }
    let n = a.len();
    let mut i: usize = 0;
    while i < n
        invariant
            n == a@.len() == b@.len(),
            i <= n,
            forall|j: int| 0 <= j < i ==> a.deep_view()[j] == b.deep_view()[j],
        decreases n - i,
    {
        if !(a[i] == b[i]) {
            proof {
                assert(a.deep_view()[i as int] != b.deep_view()[i as int]);
            }
            return false;
        }
        i = i + 1;
    }
    proof {
        assert(a.deep_view() =~= b.deep_view());
    }
    true
}

/// Whether two table identifiers are the same.
pub fn table_id_eq(a: &TableIdentifier, b: &TableIdentifier) -> (r: bool)
    ensures
        r <==> a@ == b@,
{
    let paths = string_vec_eq(&a.namespace, &b.namespace);
    let names = a.name == b.name;
    proof {
        if paths && names {
            assert(a@ =~= b@);
        }
    }
    paths && names
}

// ---------------------------------------------------------------------------
// Operations
// ---------------------------------------------------------------------------

impl Catalog {
    /// The catalog's invariant, at the model level.
    pub open spec fn inv(&self) -> bool {
        self@.inv()
    }

    /// An empty catalog: no namespaces and no tables.
    pub fn new() -> (c: Catalog)
        ensures
            c.inv(),
            c@.namespaces.len() == 0,
            c@.tables.len() == 0,
    {
        Catalog { namespaces: Vec::new(), tables: Vec::new() }
    }

    /// Whether a namespace record with this path exists.
    pub fn namespace_exists(&self, path: &Vec<String>) -> (r: bool)
        ensures
            r == has_namespace(self@, path.deep_view()),
    {
        let n = self.namespaces.len();
        let mut i: usize = 0;
        while i < n
            invariant
                n == self.namespaces@.len(),
                i <= n,
                forall|j: int| 0 <= j < i ==> (#[trigger] self@.namespaces[j]).path
                    != path.deep_view(),
            decreases n - i,
        {
            if string_vec_eq(&self.namespaces[i].namespace, path) {
                proof {
                    assert(self@.namespaces[i as int].path == path.deep_view());
                }
                return true;
            }
            i = i + 1;
        }
        false
    }

    /// Lists the paths of all namespace records, in catalog order.
    pub fn list_namespaces(&self) -> (r: Vec<Vec<String>>)
        ensures
            r.deep_view() == self@.namespaces.map_values(|n: NamespaceModel| n.path),
    {
        let n = self.namespaces.len();
        let mut out: Vec<Vec<String>> = Vec::new();
        let mut i: usize = 0;
        while i < n
            invariant
                n == self.namespaces@.len(),
                i <= n,
                out@.len() == i,
                forall|j: int|
                    0 <= j < i ==> out@[j].deep_view() == (#[trigger] self@.namespaces[j]).path,
            decreases n - i,
        {
            let path = clone_string_vec(&self.namespaces[i].namespace);
            out.push(path);
            i = i + 1;
        }
        proof {
            assert(out.deep_view() =~= self@.namespaces.map_values(|nm: NamespaceModel| nm.path));
        }
        out
    }

    /// Lists the identifiers of the tables that live in the given namespace,
    /// in catalog order.
    pub fn list_tables(&self, namespace: &Vec<String>) -> (r: Vec<TableIdentifier>)
        ensures
            r@.map_values(|t: TableIdentifier| t@) == tables_in(
                self@.tables,
                namespace.deep_view(),
            ),
    {
        let n = self.tables.len();
        let mut out: Vec<TableIdentifier> = Vec::new();
        let mut i: usize = 0;
        while i < n
            invariant
                n == self.tables@.len(),
                i <= n,
                out@.map_values(|t: TableIdentifier| t@) =~= tables_in(
                    self@.tables.take(i as int),
                    namespace.deep_view(),
                ),
            decreases n - i,
        {
            proof {
                assert(self@.tables.take(i + 1).drop_last() =~= self@.tables.take(i as int));
            }
            if string_vec_eq(&self.tables[i].id.namespace, namespace) {
                let id = TableIdentifier {
                    namespace: clone_string_vec(&self.tables[i].id.namespace),
                    name: self.tables[i].id.name.clone(),
                };
                proof {
                    assert(id@ =~= self@.tables[i as int].0);
                }
                out.push(id);
            }
            proof {
                assert(out@.map_values(|t: TableIdentifier| t@) =~= tables_in(
                    self@.tables.take(i + 1),
                    namespace.deep_view(),
                ));
            }
            i = i + 1;
        }
        proof {
            assert(self@.tables.take(n as int) =~= self@.tables);
        }
        out
    }

    /// Creates a namespace record. Fails with `Conflict`, changing nothing,
    /// when a record with the same path already exists; otherwise appends the
    /// record.
    pub fn create_namespace(&mut self, ns: Namespace) -> (r: Result<(), CatalogError>)
        requires
            old(self).inv(),
        ensures
            final(self).inv(),
            has_namespace(old(self)@, ns@.path) ==> r == Err::<(), CatalogError>(
                CatalogError::Conflict,
            ) && final(self)@ == old(self)@,
            !has_namespace(old(self)@, ns@.path) ==> r == Ok::<(), CatalogError>(()) && final(self)@ =~= (CatalogModel {
                namespaces: old(self)@.namespaces.push(ns@),
                tables: old(self)@.tables,
            }),
    {
        if self.namespace_exists(&ns.namespace) {
            return Err(CatalogError::Conflict);
        }
        let ghost old_model = self@;
        let ghost nsv = ns@;
        self.namespaces.push(ns);
        proof {
            assert(self@.namespaces =~= old_model.namespaces.push(nsv));
            assert(self@.tables =~= old_model.tables);
            let c = self@;
            assert forall|i: int|
                0 <= i < c.tables.len() implies has_namespace(c, (#[trigger] c.tables[i]).0.path) by {
                assert(has_namespace(old_model, c.tables[i].0.path));
                let w = choose|k: int|
                    0 <= k < old_model.namespaces.len() && (#[trigger] old_model.namespaces[k]).path
                        == c.tables[i].0.path;
                assert(0 <= w < c.namespaces.len() && (#[trigger] c.namespaces[w]).path
                    == c.tables[i].0.path);
            }
        }
        Ok(())
    }

    /// Whether a table with this identifier exists.
    pub fn table_exists(&self, id: &TableIdentifier) -> (r: bool)
        ensures
            r == has_table(self@, id@),
    {
        match self.find_table(id) {
            Some(_) => true,
            None => false,
        }
    }

    /// The position of the table with this identifier, if any.
    fn find_table(&self, id: &TableIdentifier) -> (r: Option<usize>)
        ensures
            r matches Some(i) ==> i < self.tables@.len() && self@.tables[i as int].0 == id@
                && has_table(self@, id@),
            r is None ==> !has_table(self@, id@),
    {
        let n = self.tables.len();
        let mut i: usize = 0;
        while i < n
            invariant
                n == self.tables@.len(),
                i <= n,
                forall|j: int| 0 <= j < i ==> (#[trigger] self@.tables[j]).0 != id@,
            decreases n - i,
        {
            if table_id_eq(&self.tables[i].id, id) {
                proof {
                    assert((#[trigger] self@.tables[i as int]).0 == id@);
                }
                return Some(i);
            }
            i = i + 1;
        }
        None
    }

    /// Creates a table. Fails with a not-found status when the namespace is
    /// absent, and with `Conflict` when the identifier is taken; in both
    /// cases nothing changes. Otherwise appends the entry. The metadata must
    /// be well formed and belong to the identifier.
    pub fn create_table(&mut self, entry: TableEntry) -> (r: Result<(), CatalogError>)
        requires
            old(self).inv(),
            entry.metadata.wf(),
            entry.metadata@.table_name == entry.id@.name,
            entry.metadata@.namespace == entry.id@.path,
        ensures
            final(self).inv(),
            !has_namespace(old(self)@, entry.id@.path) ==> r == Err::<(), CatalogError>(
                CatalogError::RequestFailed(STATUS_NOT_FOUND),
            ) && final(self)@ == old(self)@,
            has_namespace(old(self)@, entry.id@.path) && has_table(old(self)@, entry.id@) ==> r
                == Err::<(), CatalogError>(CatalogError::Conflict) && final(self)@ == old(self)@,
            has_namespace(old(self)@, entry.id@.path) && !has_table(old(self)@, entry.id@) ==> r
                == Ok::<(), CatalogError>(()) && final(self)@ =~= (CatalogModel {
                namespaces: old(self)@.namespaces,
                tables: old(self)@.tables.push((entry.id@, entry.metadata@)),
            }),
    {
        if !self.namespace_exists(&entry.id.namespace) {
            return Err(CatalogError::RequestFailed(STATUS_NOT_FOUND));
        }
        if self.table_exists(&entry.id) {
            return Err(CatalogError::Conflict);
        }
        let ghost old_model = self@;
        let ghost ev = (entry.id@, entry.metadata@);
        self.tables.push(entry);
        proof {
            assert(self@.tables =~= old_model.tables.push(ev));
            assert(self@.namespaces =~= old_model.namespaces);
            let c = self@;
            assert forall|i: int|
                0 <= i < c.tables.len() implies has_namespace(c, (#[trigger] c.tables[i]).0.path) by {
                if i < old_model.tables.len() {
                    assert(has_namespace(old_model, old_model.tables[i].0.path));
                    let w = choose|k: int|
                        0 <= k < old_model.namespaces.len() && (
                        #[trigger] old_model.namespaces[k]).path == old_model.tables[i].0.path;
                    assert(0 <= w < c.namespaces.len() && (#[trigger] c.namespaces[w]).path
                        == c.tables[i].0.path);
                } else {
                    assert(c.tables[i] == ev);
                    let w = choose|k: int|
                        0 <= k < old_model.namespaces.len() && (
                        #[trigger] old_model.namespaces[k]).path == ev.0.path;
                    assert(0 <= w < c.namespaces.len() && (#[trigger] c.namespaces[w]).path
                        == c.tables[i].0.path);
                }
            }
        }
        Ok(())
    }

    /// Loads the metadata of the table with this identifier, or fails with a
    /// not-found status.
    pub fn get_table_metadata(&self, id: &TableIdentifier) -> (r: Result<
        &TableMetadata,
        CatalogError,
    >)
        requires
            self.inv(),
        ensures
            has_table(self@, id@) ==> (r matches Ok(m) && m@ == meta_of(self@, id@)),
            !has_table(self@, id@) ==> r == Err::<&TableMetadata, CatalogError>(
                CatalogError::RequestFailed(STATUS_NOT_FOUND),
            ),
    {
        match self.find_table(id) {
            Some(i) => {
                proof {
                    lemma_table_idx_is(self@, id@, i as int);
                }
                Ok(&self.tables[i].metadata)
            },
            None => Err(CatalogError::RequestFailed(STATUS_NOT_FOUND)),
        }
    }

    /// Commits one snapshot to the table with this identifier, as a single
    /// conditional update: it succeeds only if `expected_version` is the
    /// table's current metadata version and the snapshot continues the
    /// table's sequence; then the snapshot is appended to the log, the
    /// current snapshot id and last sequence number move to it, and the
    /// version advances by one. On any failure the catalog is unchanged.
    pub fn commit_snapshot(&mut self, id: &TableIdentifier, expected_version: u64, snap: Snapshot)
        -> (r: Result<(), CatalogError>)
        requires
            old(self).inv(),
        ensures
            final(self).inv(),
            !has_table(old(self)@, id@) ==> r == Err::<(), CatalogError>(
                CatalogError::RequestFailed(STATUS_NOT_FOUND),
            ) && final(self)@ == old(self)@,
            has_table(old(self)@, id@) && meta_of(old(self)@, id@).version != expected_version
                ==> r == Err::<(), CatalogError>(CatalogError::Conflict) && final(self)@ == old(self)@,
            has_table(old(self)@, id@) && meta_of(old(self)@, id@).version == expected_version
                && !commit_acceptable(meta_of(old(self)@, id@), snap@) ==> r == Err::<
                (),
                CatalogError,
            >(CatalogError::RequestFailed(STATUS_BAD_REQUEST)) && final(self)@ == old(self)@,
            has_table(old(self)@, id@) && meta_of(old(self)@, id@).version == expected_version
                && commit_acceptable(meta_of(old(self)@, id@), snap@) ==> r == Ok::<
                (),
                CatalogError,
            >(()) && final(self)@ =~= (CatalogModel {
                namespaces: old(self)@.namespaces,
                tables: old(self)@.tables.update(
                    table_idx(old(self)@, id@),
                    (id@, apply_commit(meta_of(old(self)@, id@), snap@)),
                ),
            }),
    {
        let i = match self.find_table(id) {
            Some(i) => i,
            None => {
                return Err(CatalogError::RequestFailed(STATUS_NOT_FOUND));
            },
        };
        proof {
            lemma_table_idx_is(self@, id@, i as int);
        }
        let ghost old_model = self@;
        if self.tables[i].metadata.version != expected_version {
            return Err(CatalogError::Conflict);
        }
        let meta = &self.tables[i].metadata;
        let acceptable = meta.last_sequence_number <= MAX_SEQUENCE_NUMBER && meta.version
            <= MAX_METADATA_VERSION && snap.sequence_number == meta.last_sequence_number + 1
            && snap.snapshot_id == snap.sequence_number as i64;
        if !acceptable {
            return Err(CatalogError::RequestFailed(STATUS_BAD_REQUEST));
        }
        let mut entry = self.tables.remove(i);
        let ghost old_meta = entry.metadata@;
        entry.metadata.current_snapshot_id = Some(snap.snapshot_id);
        entry.metadata.last_sequence_number = snap.sequence_number;
        entry.metadata.version = entry.metadata.version + 1;
        let ghost snapv = snap@;
        entry.metadata.snapshot_log.push(snap);
        proof {
            assert(entry.metadata@.snapshot_log =~= old_meta.snapshot_log.push(snapv));
            assert(entry.metadata@ =~= apply_commit(old_meta, snapv));
        }
        self.tables.insert(i, entry);
        proof {
            assert(self@.tables =~= old_model.tables.update(
                i as int,
                (id@, apply_commit(old_meta, snapv)),
            ));
            assert(self@.namespaces =~= old_model.namespaces);
            lemma_apply_commit_wf(old_meta, snapv);
            let c = self@;
            assert forall|k: int|
                0 <= k < c.tables.len() implies has_namespace(c, (#[trigger] c.tables[k]).0.path) by {
                assert(c.tables[k].0 == old_model.tables[k].0);
                assert(has_namespace(old_model, old_model.tables[k].0.path));
                let w = choose|m: int|
                    0 <= m < old_model.namespaces.len() && (#[trigger] old_model.namespaces[m]).path
                        == old_model.tables[k].0.path;
                assert(0 <= w < c.namespaces.len() && (#[trigger] c.namespaces[w]).path
                    == c.tables[k].0.path);
            }
        }
        Ok(())
    }
}

/// Whether the catalog accepts this snapshot as the next one for metadata
/// `m`: the sequence continues by one, stays representable, and the snapshot
/// carries its sequence number as its identifier.
pub open spec fn commit_acceptable(m: TableMetadataModel, s: SnapshotModel) -> bool {
    &&& m.last_sequence_number <= MAX_SEQUENCE_NUMBER
    &&& m.version <= MAX_METADATA_VERSION
    &&& s.sequence_number == m.last_sequence_number + 1
    &&& s.snapshot_id == s.sequence_number as int
}

/// The metadata after committing snapshot `s` on top of `m`: the log grows
/// by exactly `s`, the current snapshot id and last sequence number move to
/// `s`, the version advances by one, and everything else is untouched.
pub open spec fn apply_commit(m: TableMetadataModel, s: SnapshotModel) -> TableMetadataModel {
    TableMetadataModel {
        current_snapshot_id: Some(s.snapshot_id),
        snapshot_log: m.snapshot_log.push(s),
        last_sequence_number: s.sequence_number,
        version: m.version + 1,
        ..m
    }
}

/// An accepted commit preserves metadata well-formedness, and is monotonic:
/// every prior snapshot log entry is retained at its position.
pub proof fn lemma_apply_commit_wf(m: TableMetadataModel, s: SnapshotModel)
    requires
        metadata_wf(m),
        commit_acceptable(m, s),
    ensures
        metadata_wf(apply_commit(m, s)),
        apply_commit(m, s).snapshot_log.len() == m.snapshot_log.len() + 1,
        forall|i: int|
            0 <= i < m.snapshot_log.len() ==> apply_commit(m, s).snapshot_log[i]
                == m.snapshot_log[i],
{
    let m2 = apply_commit(m, s);
    assert forall|i: int, j: int|
        0 <= i < j < m2.snapshot_log.len() implies (#[trigger] m2.snapshot_log[i]).sequence_number
        < (#[trigger] m2.snapshot_log[j]).sequence_number by {
        if j < m.snapshot_log.len() {
            assert(m.snapshot_log[i].sequence_number < m.snapshot_log[j].sequence_number);
        } else {
            assert(m2.snapshot_log[j] == s);
            if m.snapshot_log.len() > 0 {
                if i < m.snapshot_log.len() - 1 {
                    assert(m.snapshot_log[i].sequence_number
                        < m.snapshot_log[m.snapshot_log.len() - 1].sequence_number);
                }
                assert(m.snapshot_log.last().sequence_number == m.last_sequence_number);
            }
        }
    }
}

} // verus!
