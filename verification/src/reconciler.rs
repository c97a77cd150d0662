//! Catalog reconciliation: idempotently ensuring that a namespace and a
//! table exist before a write.
//!
//! A namespace string is split into hierarchical segments on dots. Ensuring a
//! namespace lists the existing records and creates the namespace only when
//! absent, treating a creation conflict as success, so the operation is
//! idempotent and race-tolerant. Ensuring a table first ensures its
//! namespace, returns at once when the table exists (no schema comparison is
//! performed), and otherwise creates it with the derived schema, an empty
//! partition specification, a deterministic storage location, and fixed
//! default write properties.

use vstd::prelude::*;

use crate::catalog::{
    has_namespace, has_table, namespace_count, Catalog, CatalogModel, Namespace, NamespaceModel,
    PartitionSpec, PartitionSpecModel, TableEntry, TableIdModel, TableIdentifier, TableMetadata,
    TableMetadataModel,
};
use crate::errors::CatalogError;
use crate::schema::{clone_schema, Schema, SchemaModel};

verus! {

// ---------------------------------------------------------------------------
// Splitting a namespace string into segments
// ---------------------------------------------------------------------------

/// The segments of `s` split on `'.'`: every maximal (possibly empty) run of
/// non-dot characters, in order. The empty string yields one empty segment.
pub open spec fn split_dots(s: Seq<char>) -> Seq<Seq<char>>
    decreases s.len(),
{
    if s.len() == 0 {
        seq![Seq::<char>::empty()]
    } else if s[0] == '.' {
        seq![Seq::<char>::empty()] + split_dots(s.drop_first())
    } else {
        let rest = split_dots(s.drop_first());
        seq![seq![s[0]] + rest[0]] + rest.drop_first()
    }
}

/// A split always yields at least one segment.
pub proof fn lemma_split_dots_len(s: Seq<char>)
    ensures
        split_dots(s).len() >= 1,
    decreases s.len(),
{
    if s.len() != 0 {
        lemma_split_dots_len(s.drop_first());
    }
}

/// The segments still to be produced while scanning: the pending partial
/// segment `cur` joined onto the first segment of the unscanned remainder.
spec fn glue(cur: Seq<char>, segs: Seq<Seq<char>>) -> Seq<Seq<char>> {
    seq![cur + segs[0]] + segs.drop_first()
}

/// Splits a namespace string into its dot-separated segments.
pub fn split_namespace(s: &str) -> (r: Vec<String>)
    ensures
        r.deep_view() == split_dots(s@),
{
    let len = s.unicode_len();
    let mut done: Vec<String> = Vec::new();
    let mut start: usize = 0;
    let mut i: usize = 0;
    proof {
        lemma_split_dots_len(s@);
        assert(s@.subrange(0, len as int) =~= s@);
        assert(glue(s@.subrange(0, 0), split_dots(s@)) =~= split_dots(s@));
        assert(done.deep_view() =~= Seq::<Seq<char>>::empty());
    }
    while i < len
        invariant
            len == s@.len(),
            start <= i <= len,
            split_dots(s@) =~= done.deep_view() + glue(
                s@.subrange(start as int, i as int),
                split_dots(s@.subrange(i as int, len as int)),
            ),
        decreases len - i,
    {
        let ghost cur = s@.subrange(start as int, i as int);
        let ghost suf = s@.subrange(i as int, len as int);
        let ghost suf1 = s@.subrange(i as int + 1, len as int);
        proof {
            assert(suf.len() > 0);
            assert(suf[0] == s@[i as int]);
            assert(suf.drop_first() =~= suf1);
            lemma_split_dots_len(suf1);
        }
        let c = s.get_char(i);
        if c == '.' {
            let seg = s.substring_char(start, i).to_owned();
            proof {
                assert(seg@ =~= cur);
            }
            done.push(seg);
            proof {
                assert(split_dots(suf) =~= seq![Seq::<char>::empty()] + split_dots(suf1));
                assert(glue(cur, split_dots(suf))[0] =~= cur);
                assert(glue(cur, split_dots(suf)) =~= seq![cur] + split_dots(suf1));
                assert(s@.subrange(i as int + 1, i as int + 1) =~= Seq::<char>::empty());
                assert(glue(Seq::<char>::empty(), split_dots(suf1)) =~= split_dots(suf1));
                assert(done.deep_view() + glue(
                    s@.subrange(i as int + 1, i as int + 1),
                    split_dots(suf1),
                ) =~= split_dots(s@));
            }
            start = i + 1;
        } else {
            proof {
                let rest = split_dots(suf1);
                assert(split_dots(suf) =~= seq![seq![s@[i as int]] + rest[0]] + rest.drop_first());
                assert(s@.subrange(start as int, i as int + 1) =~= cur.push(s@[i as int]));
                assert(cur + (seq![s@[i as int]] + rest[0]) =~= cur.push(s@[i as int]) + rest[0]);
                assert(glue(cur, split_dots(suf)).drop_first() =~= rest.drop_first());
                assert(glue(cur, split_dots(suf)) =~= glue(cur.push(s@[i as int]), rest));
                assert(done.deep_view() + glue(
                    s@.subrange(start as int, i as int + 1),
                    split_dots(suf1),
                ) =~= split_dots(s@));
            }
        }
        i = i + 1;
    }
    let seg = s.substring_char(start, len).to_owned();
    proof {
        let cur = s@.subrange(start as int, len as int);
        assert(seg@ =~= cur);
        assert(s@.subrange(len as int, len as int) =~= Seq::<char>::empty());
        assert(split_dots(Seq::<char>::empty()) =~= seq![Seq::<char>::empty()]);
        assert(glue(cur, seq![Seq::<char>::empty()]) =~= seq![cur]);
    }
    done.push(seg);
    proof {
        assert(done.deep_view() =~= split_dots(s@));
    }
    done
}

// ---------------------------------------------------------------------------
// Ensuring a namespace
// ---------------------------------------------------------------------------

/// A fresh namespace record with empty properties.
pub open spec fn new_namespace_model(path: Seq<Seq<char>>) -> NamespaceModel {
    NamespaceModel { path, properties: Seq::empty() }
}

/// What ensuring a namespace does to the catalog: nothing when a record with
/// that path exists, otherwise it appends one with empty properties.
pub open spec fn ensure_namespace_t(c: CatalogModel, path: Seq<Seq<char>>) -> CatalogModel {
    if has_namespace(c, path) {
        c
    } else {
        CatalogModel { namespaces: c.namespaces.push(new_namespace_model(path)), tables: c.tables }
    }
}

/// The ensured namespace exists afterwards.
pub proof fn lemma_ensure_namespace_has(c: CatalogModel, path: Seq<Seq<char>>)
    ensures
        has_namespace(ensure_namespace_t(c, path), path),
{
    let c1 = ensure_namespace_t(c, path);
    if !has_namespace(c, path) {
        let w = c1.namespaces.len() - 1;
        assert(0 <= w < c1.namespaces.len() && (#[trigger] c1.namespaces[w]).path == path);
    }
}

/// Idempotent namespace creation, first half: ensuring the same namespace a
/// second time changes nothing, so two ensures in sequence leave the catalog
/// exactly as one does.
pub proof fn lemma_ensure_namespace_idempotent(c: CatalogModel, path: Seq<Seq<char>>)
    ensures
        ensure_namespace_t(ensure_namespace_t(c, path), path) == ensure_namespace_t(c, path),
{
    lemma_ensure_namespace_has(c, path);
}

/// No record with this path means a count of zero.
proof fn lemma_namespace_count_zero(nss: Seq<NamespaceModel>, path: Seq<Seq<char>>)
    requires
        forall|i: int| 0 <= i < nss.len() ==> (#[trigger] nss[i]).path != path,
    ensures
        namespace_count(nss, path) == 0,
    decreases nss.len(),
{
    if nss.len() > 0 {
        lemma_namespace_count_zero(nss.drop_last(), path);
    }
}

/// With unique paths, a record that exists is counted exactly once.
proof fn lemma_namespace_count_unique(nss: Seq<NamespaceModel>, path: Seq<Seq<char>>)
    requires
        forall|i: int, j: int|
            0 <= i < j < nss.len() ==> (#[trigger] nss[i]).path != (#[trigger] nss[j]).path,
        exists|i: int| 0 <= i < nss.len() && (#[trigger] nss[i]).path == path,
    ensures
        namespace_count(nss, path) == 1,
    decreases nss.len(),
{
    let w = choose|i: int| 0 <= i < nss.len() && (#[trigger] nss[i]).path == path;
    if nss.last().path == path {
        assert forall|i: int| 0 <= i < nss.drop_last().len() implies (
        #[trigger] nss.drop_last()[i]).path != path by {
            assert(nss[i].path != nss[nss.len() - 1].path);
        }
        lemma_namespace_count_zero(nss.drop_last(), path);
    } else {
        assert(w < nss.len() - 1);
        assert(0 <= w < nss.drop_last().len() && (#[trigger] nss.drop_last()[w]).path == path);
        lemma_namespace_count_unique(nss.drop_last(), path);
    }
}

/// Idempotent namespace creation, second half: after ensuring a namespace on
/// a catalog with unique paths, exactly one record with that path exists.
pub proof fn lemma_ensure_namespace_exactly_one(c: CatalogModel, path: Seq<Seq<char>>)
    requires
        c.inv(),
    ensures
        namespace_count(ensure_namespace_t(c, path).namespaces, path) == 1,
{
    let c1 = ensure_namespace_t(c, path);
    lemma_ensure_namespace_has(c, path);
    if has_namespace(c, path) {
        lemma_namespace_count_unique(c.namespaces, path);
    } else {
        lemma_namespace_count_zero(c.namespaces, path);
        assert(c1.namespaces.drop_last() =~= c.namespaces);
        assert(c1.namespaces.last().path == path);
    }
}

/// Whether one of the listed paths equals the target path.
pub fn path_list_contains(list: &Vec<Vec<String>>, target: &Vec<String>) -> (r: bool)
    ensures
        r <==> exists|i: int|
            0 <= i < list.deep_view().len() && list.deep_view()[i] == target.deep_view(),
{
    let n = list.len();
    let mut i: usize = 0;
    while i < n
        invariant
            n == list@.len(),
            i <= n,
            forall|j: int| 0 <= j < i ==> list.deep_view()[j] != target.deep_view(),
        decreases n - i,
    {
        if crate::catalog::string_vec_eq(&list[i], target) {
            proof {
                assert(list.deep_view()[i as int] == target.deep_view());
            }
            return true;
        }
        i = i + 1;
    }
    false
}

/// Ensures that the namespace exists in the catalog: lists the namespace
/// records, and creates the namespace with empty properties only when its
/// path is absent; a creation conflict (another writer got there first)
/// counts as success.
pub fn ensure_namespace_exists(cat: &mut Catalog, namespace: &str) -> (r: Result<(), CatalogError>)
    requires
        old(cat).inv(),
    ensures
        final(cat).inv(),
        r == Ok::<(), CatalogError>(()),
        final(cat)@ == ensure_namespace_t(old(cat)@, split_dots(namespace@)),
{
    let namespaces = cat.list_namespaces();
    let namespace_parts = split_namespace(namespace);
    if !path_list_contains(&namespaces, &namespace_parts) {
        proof {
            assert forall|i: int|
                0 <= i < cat@.namespaces.len() implies (#[trigger] cat@.namespaces[i]).path
                != namespace_parts.deep_view() by {
                assert(namespaces.deep_view()[i] != namespace_parts.deep_view());
            }
        }
        let ghost pathv = namespace_parts.deep_view();
        let create_request = Namespace { namespace: namespace_parts, properties: Vec::new() };
        proof {
            assert(create_request@.path == pathv);
            assert(create_request@ =~= new_namespace_model(pathv));
        }
        match cat.create_namespace(create_request) {
            Ok(()) => (),
            Err(_) => (),
        }
        proof {
            assert(final(cat)@ =~= ensure_namespace_t(old(cat)@, split_dots(namespace@)));
        }
    } else {
        proof {
            let w = choose|i: int|
                0 <= i < namespaces.deep_view().len() && namespaces.deep_view()[i]
                    == namespace_parts.deep_view();
            assert((#[trigger] cat@.namespaces[w]).path == namespace_parts.deep_view());
        }
    }
    Ok(())
}

// ---------------------------------------------------------------------------
// Ensuring a table
// ---------------------------------------------------------------------------

/// The fixed write properties every created table starts with.
pub open spec fn default_properties_model() -> Seq<(Seq<char>, Seq<char>)> {
    seq![
        ("write.format.default"@, "parquet"@),
        ("write.metadata.metrics.default"@, "truncate(16)"@),
    ]
}

/// The deterministic storage location of a table: the fixed object-store
/// prefix, the raw namespace string, and the table name.
pub open spec fn default_location_model(ns: Seq<char>, table: Seq<char>) -> Seq<char> {
    "s3://iceberg-data/"@ + ns + "/"@ + table
}

/// The metadata a table is created with: the derived schema as the whole
/// schema history, an empty partition specification, the default properties,
/// and no snapshots.
pub open spec fn fresh_metadata_model(
    name: Seq<char>,
    path: Seq<Seq<char>>,
    schema: SchemaModel,
    location: Seq<char>,
) -> TableMetadataModel {
    TableMetadataModel {
        table_name: name,
        namespace: path,
        schema: schema,
        current_schema_id: 0,
        schemas: seq![schema],
        default_spec: PartitionSpecModel { spec_id: 0, fields: Seq::empty() },
        location: location,
        properties: default_properties_model(),
        current_snapshot_id: None,
        snapshot_log: Seq::empty(),
        last_sequence_number: 0,
        version: 0,
    }
}

/// What ensuring a table does to the catalog: the namespace is ensured
/// first; then nothing more happens when the table exists (its schema is not
/// compared against the derived one), and otherwise the table is created
/// with fresh metadata.
pub open spec fn ensure_table_t(
    c: CatalogModel,
    raw_ns: Seq<char>,
    name: Seq<char>,
    schema: SchemaModel,
) -> CatalogModel {
    let path = split_dots(raw_ns);
    let c1 = ensure_namespace_t(c, path);
    let id = TableIdModel { path, name };
    if has_table(c1, id) {
        c1
    } else {
        CatalogModel {
            namespaces: c1.namespaces,
            tables: c1.tables.push(
                (
                    id,
                    fresh_metadata_model(name, path, schema, default_location_model(raw_ns, name)),
                ),
            ),
        }
    }
}

/// The deterministic storage location of a table, as one string.
pub fn default_location(namespace: &str, table_name: &str) -> (r: String)
    ensures
        r@ == default_location_model(namespace@, table_name@),
{
    let mut s = String::from_str("s3://iceberg-data/");
    s.append(namespace);
    s.append("/");
    s.append(table_name);
    proof {
        assert(s@ =~= default_location_model(namespace@, table_name@));
    }
    s
}

/// The fixed write properties every created table starts with.
pub fn default_table_properties() -> (r: Vec<(String, String)>)
    ensures
        r.deep_view() == default_properties_model(),
{
    let mut v: Vec<(String, String)> = Vec::new();
    v.push((String::from_str("write.format.default"), String::from_str("parquet")));
    v.push(
        (String::from_str("write.metadata.metrics.default"), String::from_str("truncate(16)")),
    );
    proof {
        assert(v.deep_view() =~= default_properties_model());
    }
    v
}

/// Ensures that the table exists: ensures its namespace, returns at once
/// when the table is already there, and otherwise creates it with the given
/// schema, an empty partition specification, the deterministic default
/// location, and the default write properties.
pub fn ensure_table_exists(
    cat: &mut Catalog,
    namespace: &str,
    table_name: &str,
    schema: &Schema,
) -> (r: Result<(), CatalogError>)
    requires
        old(cat).inv(),
    ensures
        final(cat).inv(),
        r == Ok::<(), CatalogError>(()),
        final(cat)@ == ensure_table_t(old(cat)@, namespace@, table_name@, schema@),
{
    let ghost path = split_dots(namespace@);
    match ensure_namespace_exists(cat, namespace) {
        Ok(()) => (),
        Err(e) => {
            return Err(e);
        },
    }
    let ghost c1 = cat@;
    let namespace_parts = split_namespace(namespace);
    let id = TableIdentifier { namespace: namespace_parts, name: table_name.to_owned() };
    proof {
        assert(id@ =~= (TableIdModel { path, name: table_name@ }));
    }
    if cat.table_exists(&id) {
        return Ok(());
    }
    let location = default_location(namespace, table_name);
    let properties = default_table_properties();
    let mut schemas: Vec<Schema> = Vec::new();
    schemas.push(clone_schema(schema));
    let metadata = TableMetadata {
        table_name: table_name.to_owned(),
        namespace: crate::catalog::clone_string_vec(&id.namespace),
        schema: clone_schema(schema),
        current_schema_id: 0,
        schemas,
        default_spec: PartitionSpec { spec_id: 0, fields: Vec::new() },
        location,
        properties,
        current_snapshot_id: None,
        snapshot_log: Vec::new(),
        last_sequence_number: 0,
        version: 0,
    };
    proof {
        assert(metadata@.schemas =~= seq![schema@]);
        assert(metadata@.default_spec.fields =~= Seq::<
            crate::catalog::PartitionFieldModel,
        >::empty());
        assert(metadata@.snapshot_log =~= Seq::<crate::catalog::SnapshotModel>::empty());
        assert(metadata@ =~= fresh_metadata_model(
            table_name@,
            path,
            schema@,
            default_location_model(namespace@, table_name@),
        ));
        lemma_ensure_namespace_has(old(cat)@, path);
    }
    let entry = TableEntry { id, metadata };
    match cat.create_table(entry) {
        Ok(()) => (),
        Err(_) => (),
    }
    proof {
        assert(cat@ =~= ensure_table_t(old(cat)@, namespace@, table_name@, schema@));
    }
    Ok(())
}

} // verus!
