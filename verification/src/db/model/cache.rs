//! The table `file_identity_cache`, and the laws of the commands that write it.
use vstd::prelude::*;

use crate::db::identity_cache_repo::CacheRow;
use crate::db::model::files::updated;
use crate::db::sql::Stamp;
use crate::db::writer::cache::{CacheStatement, CacheWriteCmd};
use crate::db::writer::file::hex_opt;
use crate::ports::identity_cache::{CacheEntry, CacheKey};
use crate::text::text_opt;
use crate::types::law_hash_text_injective;

verus! {

/// A row of `file_identity_cache`.
pub struct CacheLine {
    pub id: Seq<char>,
    pub device: Seq<char>,
    pub volume: Seq<char>,
    pub fs_file_id: int,
    pub size: int,
    pub mtime_ns: int,
    pub quick_hash: Seq<char>,
    pub full_hash: Option<Seq<char>>,
    pub last_verified: Seq<char>,
    pub first_seen: Seq<char>,
    pub updated_at: Seq<char>,
    pub deleted_at: Option<Seq<char>>,
}

impl CacheLine {
    /// Whether this is a live row under a key.
    pub open spec fn live_under(self, key: CacheKey) -> bool {
        &&& self.deleted_at is None
        &&& self.device == key.device_id.0.text()
        &&& self.volume == key.volume_id.0.text()
        &&& self.fs_file_id == key.fs_file_id
        &&& self.size == key.size_bytes
        &&& self.mtime_ns == key.mtime_ns
    }

    /// Whether two rows stand for the same file identity.
    pub open spec fn same_identity(self, other: CacheLine) -> bool {
        &&& self.device == other.device
        &&& self.volume == other.volume
        &&& self.fs_file_id == other.fs_file_id
        &&& self.size == other.size
        &&& self.mtime_ns == other.mtime_ns
    }

    /// Whether the stored hashes of the row are these.
    pub open spec fn holds(self, row: CacheRow) -> bool {
        self.quick_hash == row.quick_hash@ && self.full_hash == text_opt(row.full_hash)
    }
}

impl CacheStatement {
    /// The table after the statement.
    pub open spec fn on(self, rows: Seq<CacheLine>) -> Seq<CacheLine> {
        match self {
            CacheStatement::Insert { id, key, size, entry, now } => rows.push(
                CacheLine {
                    id: id.text(),
                    device: key.device_id.0.text(),
                    volume: key.volume_id.0.text(),
                    fs_file_id: key.fs_file_id as int,
                    size: size as int,
                    mtime_ns: key.mtime_ns as int,
                    quick_hash: entry.quick_hash.hex(),
                    full_hash: hex_opt(entry.full_hash),
                    last_verified: now@,
                    first_seen: now@,
                    updated_at: now@,
                    deleted_at: None,
                },
            ),
            CacheStatement::Update { entry, now, id } => updated(
                rows,
                |l: CacheLine| l.id == id@,
                |l: CacheLine|
                    CacheLine {
                        quick_hash: entry.quick_hash.hex(),
                        full_hash: hex_opt(entry.full_hash),
                        last_verified: now@,
                        updated_at: now@,
                        ..l
                    },
            ),
            CacheStatement::Retire { now, key, size } => updated(
                rows,
                |l: CacheLine| l.live_under(key),
                |l: CacheLine| CacheLine { deleted_at: Some(now@), updated_at: now@, ..l },
            ),
        }
    }
}

/// No file identity has two live rows, and no two rows have the same identifier.
pub open spec fn wf(rows: Seq<CacheLine>) -> bool {
    &&& forall|i: int, j: int|
        0 <= i < rows.len() && 0 <= j < rows.len() && (#[trigger] rows[i]).same_identity(
            #[trigger] rows[j],
        ) && rows[i].deleted_at is None && rows[j].deleted_at is None ==> i == j
    &&& forall|i: int, j: int|
        0 <= i < rows.len() && 0 <= j < rows.len() && (#[trigger] rows[i]).id == (
        #[trigger] rows[j]).id ==> i == j
}

/// Whether some row has an identifier.
pub open spec fn has_id(rows: Seq<CacheLine>, id: Seq<char>) -> bool {
    exists|i: int| 0 <= i < rows.len() && (#[trigger] rows[i]).id == id
}

/// Whether a lookup of the live row under a key can give this.
pub open spec fn finds(rows: Seq<CacheLine>, key: CacheKey, found: Option<String>) -> bool {
    match found {
        None => forall|i: int| 0 <= i < rows.len() ==> !(#[trigger] rows[i]).live_under(key),
        Some(id) => exists|i: int|
            0 <= i < rows.len() && (#[trigger] rows[i]).live_under(key) && rows[i].id == id@,
    }
}

/// Every command keeps one live row per file identity.
pub proof fn law_cache_keeps_one_live_row(
    rows: Seq<CacheLine>,
    cmd: CacheWriteCmd,
    stamp: Stamp,
    found: Option<String>,
)
    requires
        wf(rows),
        cmd.key().size_bytes <= i64::MAX,
        cmd is UpsertCacheRow ==> finds(rows, cmd.key(), found),
        !has_id(rows, stamp.fresh.text()),
    ensures
        wf(cmd.planned(stamp, found).on(rows)),
{
    let next = cmd.planned(stamp, found).on(rows);
    assert forall|i: int, j: int|
        0 <= i < next.len() && 0 <= j < next.len() && (#[trigger] next[i]).same_identity(
            #[trigger] next[j],
        ) && next[i].deleted_at is None && next[j].deleted_at is None implies i == j by {
        if i < rows.len() && j < rows.len() {
            assert(rows[i].same_identity(rows[j]));
        } else if i < rows.len() {
            assert(!rows[i].live_under(cmd.key()));
        } else if j < rows.len() {
            assert(!rows[j].live_under(cmd.key()));
        }
    }
}

/// What was stored under a key is what a lookup of that key reads.
pub proof fn law_stored_entry_reads_back(
    rows: Seq<CacheLine>,
    key: CacheKey,
    entry: CacheEntry,
    stamp: Stamp,
    found: Option<String>,
    i: int,
    row: CacheRow,
    read: CacheEntry,
)
    requires
        wf(rows),
        key.size_bytes <= i64::MAX,
        finds(rows, key, found),
        ({
            let next = (CacheWriteCmd::UpsertCacheRow { key, entry }).planned(stamp, found).on(rows);
            0 <= i < next.len() && next[i].live_under(key) && next[i].holds(row)
        }),
        row.read_as(read),
    ensures
        read == entry,
{
    let next = (CacheWriteCmd::UpsertCacheRow { key, entry }).planned(stamp, found).on(rows);
    match found {
        None => {
            if i < rows.len() {
                assert(!rows[i].live_under(key));
            }
        },
        Some(id) => {
            let k = choose|k: int|
                0 <= k < rows.len() && (#[trigger] rows[k]).live_under(key) && rows[k].id == id@;
            assert(rows[i].live_under(key));
            assert(rows[i].same_identity(rows[k]));
        },
    }
    law_hash_text_injective(read.quick_hash, entry.quick_hash);
    if read.full_hash is Some && entry.full_hash is Some {
        law_hash_text_injective(read.full_hash->0, entry.full_hash->0);
    }
}

/// After a retirement nothing is found under the key, the rows of other keys are
/// as they were, and no row is removed; retiring again changes nothing.
pub proof fn law_retired_entry_is_gone(
    rows: Seq<CacheLine>,
    key: CacheKey,
    stamp: Stamp,
    stamp2: Stamp,
    found: Option<String>,
)
    requires
        key.size_bytes <= i64::MAX,
    ensures
        ({
            let cmd = CacheWriteCmd::SoftDeleteCacheRow { key };
            let next = cmd.planned(stamp, found).on(rows);
            &&& next.len() == rows.len()
            &&& finds(next, key, None)
            &&& forall|i: int|
                0 <= i < rows.len() && !rows[i].live_under(key) ==> #[trigger] next[i] == rows[i]
            &&& cmd.planned(stamp2, found).on(next) == next
        }),
{
    let cmd = CacheWriteCmd::SoftDeleteCacheRow { key };
    let next = cmd.planned(stamp, found).on(rows);
    assert(cmd.planned(stamp2, found).on(next) =~= next);
}

} // verus!
