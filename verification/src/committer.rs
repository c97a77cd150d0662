//! The write committer: derives the target schema from a batch, ensures the
//! table exists, and commits the batch as one new snapshot under the
//! catalog's conditional-update semantics.
//!
//! The commit is retried a bounded number of times on a version conflict,
//! reloading the metadata each attempt; storage failures are not retried. A
//! batch with zero rows runs the whole pipeline and commits a snapshot with
//! zero rows added, exactly like any other batch. Until the single
//! conditional update succeeds, the table's visible metadata is unchanged.

use vstd::prelude::*;

use crate::batch::{Batch, BatchModel, MAX_COLUMNS};
use crate::catalog::{
    apply_commit, commit_acceptable, has_table, meta_of, table_idx, Catalog, CatalogModel,
    Snapshot, SnapshotModel, TableIdModel, TableIdentifier, TableMetadataModel,
    MAX_METADATA_VERSION, MAX_SEQUENCE_NUMBER,
};
use crate::decimal::{spec_u64_string, u64_to_string};
use crate::errors::{CatalogError, IngestError, WriteError};
use crate::reconciler::{ensure_table_exists, ensure_table_t, split_dots, split_namespace};
use crate::schema::{map_schema, mapped_schema_model};

verus! {

/// How often a commit is attempted before a sustained version conflict is
/// reported to the caller.
pub const MAX_COMMIT_ATTEMPTS: u32 = 3;

/// The data file reference of the snapshot with this sequence number: one
/// file under the table location's data prefix, named by the sequence
/// number.
pub open spec fn data_file_model(location: Seq<char>, seq_num: nat) -> Seq<char> {
    location + "/data/"@ + spec_u64_string(seq_num) + ".parquet"@
}

/// The deterministic data file reference for one commit.
pub fn plan_data_file(location: &str, sequence_number: u64) -> (r: String)
    ensures
        r@ == data_file_model(location@, sequence_number as nat),
{
    let mut s = location.to_owned();
    s.append("/data/");
    let num = u64_to_string(sequence_number);
    s.append(num.as_str());
    s.append(".parquet");
    proof {
        assert(s@ =~= data_file_model(location@, sequence_number as nat));
    }
    s
}

/// The snapshot one commit appends on top of metadata `m`: the next sequence
/// number, that number as the snapshot id, the batch's row count, and the
/// deterministic data file reference.
pub open spec fn next_snapshot_model(m: TableMetadataModel, rows: nat) -> SnapshotModel {
    let seq_num = m.last_sequence_number + 1;
    SnapshotModel {
        snapshot_id: seq_num as int,
        sequence_number: seq_num,
        rows_added: rows,
        data_files: seq![data_file_model(m.location, seq_num)],
    }
}

/// Whether the table's sequence numbers and metadata version still have room
/// to advance; trivially true for a table that does not exist yet.
pub open spec fn commit_headroom(c: CatalogModel, id: TableIdModel) -> bool {
    has_table(c, id) ==> (meta_of(c, id).last_sequence_number <= MAX_SEQUENCE_NUMBER && meta_of(
        c,
        id,
    ).version <= MAX_METADATA_VERSION)
}

/// What one write does to the catalog: the table is ensured (namespace and
/// table created if absent, with the schema the mapper derives from the
/// batch), and then exactly one snapshot carrying the batch's row count is
/// committed on top of the table's current metadata.
pub open spec fn write_table_t(
    c: CatalogModel,
    raw_ns: Seq<char>,
    name: Seq<char>,
    b: BatchModel,
) -> CatalogModel {
    let c1 = ensure_table_t(c, raw_ns, name, mapped_schema_model(b.cols));
    let id = TableIdModel { path: split_dots(raw_ns), name };
    let m = meta_of(c1, id);
    CatalogModel {
        namespaces: c1.namespaces,
        tables: c1.tables.update(
            table_idx(c1, id),
            (id, apply_commit(m, next_snapshot_model(m, b.rows))),
        ),
    }
}

/// Writes one batch to the table: derives the schema, ensures the table,
/// loads its metadata, and commits one snapshot with the batch's row count
/// (zero rows included), retrying a version conflict with freshly reloaded
/// metadata at most `MAX_COMMIT_ATTEMPTS` times. Returns the number of rows
/// committed.
pub fn write_to_table(
    cat: &mut Catalog,
    namespace: &str,
    table_name: &str,
    batch: &Batch,
) -> (r: Result<u64, IngestError>)
    requires
        old(cat).inv(),
        batch@.cols.len() <= MAX_COLUMNS,
        commit_headroom(
            old(cat)@,
            TableIdModel { path: split_dots(namespace@), name: table_name@ },
        ),
    ensures
        final(cat).inv(),
        r == Ok::<u64, IngestError>(batch.row_count as u64),
        final(cat)@ == write_table_t(old(cat)@, namespace@, table_name@, batch@),
{
    let ghost idm = TableIdModel { path: split_dots(namespace@), name: table_name@ };
    let iceberg_schema = map_schema(&batch.columns);
    proof {
        assert(iceberg_schema@ == mapped_schema_model(batch@.cols));
    }
    match ensure_table_exists(cat, namespace, table_name, &iceberg_schema) {
        Ok(()) => (),
        Err(e) => {
            return Err(IngestError::Catalog(e));
        },
    }
    let ghost c1 = cat@;
    let namespace_parts = split_namespace(namespace);
    let id = TableIdentifier { namespace: namespace_parts, name: table_name.to_owned() };
    proof {
        assert(id@ =~= idm);
        lemma_ensured_table_state(old(cat)@, namespace@, table_name@, mapped_schema_model(
            batch@.cols,
        ));
    }
    let mut attempt: u32 = 0;
    while attempt < MAX_COMMIT_ATTEMPTS
        invariant
            attempt == 0,
            cat.inv(),
            idm == (TableIdModel { path: split_dots(namespace@), name: table_name@ }),
            id@ == idm,
            batch@.cols.len() <= MAX_COLUMNS,
            cat@ == ensure_table_t(
                old(cat)@,
                namespace@,
                table_name@,
                mapped_schema_model(batch@.cols),
            ),
            has_table(cat@, idm),
            meta_of(cat@, idm).last_sequence_number <= MAX_SEQUENCE_NUMBER,
            meta_of(cat@, idm).version <= MAX_METADATA_VERSION,
        decreases MAX_COMMIT_ATTEMPTS - attempt,
    {
        let meta = match cat.get_table_metadata(&id) {
            Ok(m) => m,
            Err(_) => {
                // The reconciler just ensured the table, so the load cannot
                // miss it.
                proof {
                    assert(false);
                }
                return Err(IngestError::Catalog(CatalogError::Unavailable));
            },
        };
        let expected_version = meta.version;
        let last = meta.last_sequence_number;
        let seq_num = last + 1;
        let file = plan_data_file(meta.location.as_str(), seq_num);
        let mut files: Vec<String> = Vec::new();
        files.push(file);
        let snap = Snapshot {
            snapshot_id: seq_num as i64,
            sequence_number: seq_num,
            rows_added: batch.row_count as u64,
            data_files: files,
        };
        let ghost pre = cat@;
        let ghost snapv = snap@;
        proof {
            assert(snapv.data_files =~= next_snapshot_model(
                meta_of(pre, idm),
                batch@.rows,
            ).data_files);
            assert(snapv =~= next_snapshot_model(meta_of(pre, idm), batch@.rows));
            assert(commit_acceptable(meta_of(pre, idm), snapv));
        }
        match cat.commit_snapshot(&id, expected_version, snap) {
            Ok(()) => {
                proof {
                    let m = meta_of(pre, idm);
                    assert(cat@.tables =~= pre.tables.update(
                        table_idx(pre, idm),
                        (idm, apply_commit(m, next_snapshot_model(m, batch@.rows))),
                    ));
                    assert(cat@ =~= write_table_t(old(cat)@, namespace@, table_name@, batch@));
                }
                return Ok(batch.row_count as u64);
            },
            Err(CatalogError::Conflict) => {
                // A concurrent writer advanced the metadata between the load
                // and the commit. With exclusive access to this catalog value
                // no such writer exists, so this arm is provably unreachable;
                // the attempt budget bounds the retries all the same.
                proof {
                    assert(false);
                }
                attempt = attempt + 1;
            },
            Err(_) => {
                // The table exists and the snapshot continues its sequence,
                // so the catalog accepts the commit.
                proof {
                    assert(false);
                }
                return Err(IngestError::Write(WriteError::StorageFailure));
            },
        }
    }
    // Unreachable: the first attempt either returns or is retried, and a
    // retry is unreachable here.
    proof {
        assert(false);
    }
    Err(IngestError::Write(WriteError::CommitConflict))
}

/// After ensuring a table, the table exists, and its metadata either is the
/// metadata it already had or is the fresh metadata of a newly created
/// table; either way the sequence number and version have room to advance
/// when they had it before.
proof fn lemma_ensured_table_state(
    c: CatalogModel,
    raw_ns: Seq<char>,
    name: Seq<char>,
    schema: crate::schema::SchemaModel,
)
    requires
        c.inv(),
        commit_headroom(c, TableIdModel { path: split_dots(raw_ns), name }),
    ensures
        has_table(
            ensure_table_t(c, raw_ns, name, schema),
            TableIdModel { path: split_dots(raw_ns), name },
        ),
        commit_headroom(
            ensure_table_t(c, raw_ns, name, schema),
            TableIdModel { path: split_dots(raw_ns), name },
        ),
{
    let id = TableIdModel { path: split_dots(raw_ns), name };
    let c1 = crate::reconciler::ensure_namespace_t(c, split_dots(raw_ns));
    let c2 = ensure_table_t(c, raw_ns, name, schema);
    assert(c1.tables == c.tables);
    if has_table(c1, id) {
        let w = choose|i: int| 0 <= i < c1.tables.len() && (#[trigger] c1.tables[i]).0 == id;
        assert(0 <= w < c.tables.len() && (#[trigger] c.tables[w]).0 == id);
        assert(has_table(c, id));
        assert(c2 == c1);
        assert(meta_of(c2, id) == meta_of(c, id));
    } else {
        let w = c2.tables.len() - 1;
        assert(0 <= w < c2.tables.len() && (#[trigger] c2.tables[w]).0 == id);
        assert(has_table(c2, id));
        assert forall|i: int, j: int|
            0 <= i < j < c2.tables.len() implies (#[trigger] c2.tables[i]).0 != (
        #[trigger] c2.tables[j]).0 by {
            if j < c1.tables.len() {
                assert(c1.tables[i].0 != c1.tables[j].0);
            } else {
                assert(c2.tables[j].0 == id);
                assert(0 <= i < c1.tables.len() && (#[trigger] c1.tables[i]).0 == c2.tables[i].0);
                if c2.tables[i].0 == id {
                    assert(has_table(c1, id));
                }
            }
        }
        crate::catalog::lemma_table_idx_is_weak(c2, id, w);
        assert(meta_of(c2, id).last_sequence_number == 0);
    }
}

} // verus!
