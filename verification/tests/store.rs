//! The commands and reads, run on a real database.
use rusqlite::types::Value;
use rusqlite::{params_from_iter, Connection, OptionalExtension};

use perima::db::cmd::WriteCmd;
use perima::db::convert::i64_to_count;
use perima::db::errors::{Error, SqliteError, SqliteErrorKind};
use perima::db::file_repo::{
    colliding_query, collision_group_query, count_locations_query, count_missing_query,
    full_hash_stored, list_file_locations_query, list_file_locations_sql,
    list_files_needing_backfill_query, list_files_needing_backfill_sql,
    list_files_pending_full_hash_query, list_files_pending_full_hash_sql,
    list_locations_for_verify_query, list_locations_for_verify_sql, list_quick_hash_collisions_sql,
    lookup_by_file_uuid_query, lookup_by_file_uuid_sql, BackfillRow, FileByUuidRow, GroupRows,
    LocationRow, VerifyRow,
};
use perima::db::identity_cache_repo::{lookup as cache_lookup, lookup_query, CacheRow};
use perima::db::manifest::{write_manifest_inner, MANIFEST_TABLES};
use perima::db::metadata_repo::{
    find_by_hash, find_by_hash_query, list_with_metadata, list_with_metadata_query,
    LocationMetadataRow, MetadataColumns,
};
use perima::db::schema::{render_for_source, render_fts_triggers};
use perima::db::search_repo::{search_impl, search_query, SearchRow};
use perima::db::sql::{SqlCall, SqlValue, Stamp};
use perima::db::tag_repo::{
    count_files_for_tag_query, files_with_tag, files_with_tag_query, list_tags, list_tags_query,
    tags_for_hashes, tags_for_hashes_query, upsert_tag, HashTagRow, TagRow,
};
use perima::db::transcript_repo::{TranscriptId, TranscriptRow, TranscriptSegmentRow};
use perima::db::volume_repo::{list as list_volumes, list_query, VolumeRow};
use perima::db::writer::cache::CacheWriteCmd;
use perima::db::writer::file::{
    ExistingFile, ExistingLocation, FileArm, FileFound, FileReply, FileWriteCmd,
};
use perima::db::writer::job::{Action, Command, Job, Report};
use perima::db::writer::metadata::{ExistingMetadata, MetadataReply, MetadataWriteCmd};
use perima::db::writer::search::SearchWriteCmd;
use perima::db::writer::tag::{ExistingTag, TagArm, TagFound, TagReply, TagWriteCmd};
use perima::db::writer::transcript::TranscriptInsert;
use perima::db::writer::volume::{VolumeReply, VolumeWriteCmd};
use perima::ids::Uuid;
use perima::transcription::{TranscriptSegment, TranscriptionError};
use perima::{
    AppEvent, BackfillFileRow, BlakeHash, CacheEntry, CacheKey, CollisionGroup, CoreError, DeviceId,
    DiscoveredFile, FileLocationRecord, FileSize, FileUuid, FileWithMetadataRow, HashedFile, Hlc,
    InvalidationReason, LocationStatus, LocationStatusUpdate, MediaMetadata, MediaPath,
    MountedPath, PathText, SearchHit, Tag, UpsertOutcome, VerifiedState, VerifyCandidates, VolumeId,
    VolumeIdentifiers, VolumeRecord,
};

const TABLES: &str = "
CREATE TABLE files (
  blake3_hash TEXT PRIMARY KEY, file_uuid TEXT, file_size INTEGER NOT NULL, quick_hash TEXT,
  verified_distinct INTEGER NOT NULL DEFAULT 0, first_seen TEXT NOT NULL, updated_at TEXT NOT NULL,
  deleted_at TEXT, device_id TEXT NOT NULL, hlc INTEGER);
CREATE TABLE file_locations (
  id TEXT PRIMARY KEY, blake3_hash TEXT, file_uuid TEXT, volume_id TEXT NOT NULL,
  relative_path TEXT NOT NULL, status TEXT NOT NULL, first_seen TEXT NOT NULL,
  updated_at TEXT NOT NULL, deleted_at TEXT, device_id TEXT NOT NULL, hlc INTEGER);
CREATE TABLE file_metadata (
  blake3_hash TEXT PRIMARY KEY, width INTEGER, height INTEGER, duration_ms INTEGER,
  captured_at TEXT, camera_make TEXT, camera_model TEXT, codec TEXT, bitrate_bps INTEGER,
  mime_type TEXT, thumbnail_path TEXT, thumbnail_status TEXT, extracted_at TEXT NOT NULL,
  updated_at TEXT NOT NULL, deleted_at TEXT, device_id TEXT NOT NULL, hlc INTEGER);
CREATE TABLE tags (
  id TEXT PRIMARY KEY, name TEXT NOT NULL, first_seen TEXT NOT NULL, updated_at TEXT NOT NULL,
  deleted_at TEXT, device_id TEXT NOT NULL, hlc INTEGER);
CREATE TABLE file_tags (
  id TEXT PRIMARY KEY, blake3_hash TEXT NOT NULL, tag_id TEXT NOT NULL, first_seen TEXT NOT NULL,
  updated_at TEXT NOT NULL, deleted_at TEXT, device_id TEXT NOT NULL, hlc INTEGER);
CREATE TABLE volumes (
  volume_id TEXT PRIMARY KEY, gpt_partition_guid TEXT, fs_uuid TEXT, volume_label TEXT,
  capacity_bytes INTEGER NOT NULL, is_removable INTEGER NOT NULL, last_seen TEXT NOT NULL,
  updated_at TEXT NOT NULL, deleted_at TEXT, device_id TEXT NOT NULL, hlc INTEGER);
CREATE TABLE volume_mounts (
  id TEXT PRIMARY KEY, volume_id TEXT NOT NULL, machine_id TEXT NOT NULL, mount_path TEXT NOT NULL,
  first_seen TEXT NOT NULL, updated_at TEXT NOT NULL, deleted_at TEXT, device_id TEXT NOT NULL);
CREATE TABLE file_identity_cache (
  id TEXT PRIMARY KEY, device_id TEXT NOT NULL, volume_id TEXT NOT NULL, fs_file_id INTEGER NOT NULL,
  size_bytes INTEGER NOT NULL, mtime_ns INTEGER NOT NULL, quick_hash TEXT NOT NULL, full_hash TEXT,
  last_verified TEXT NOT NULL, first_seen TEXT NOT NULL, updated_at TEXT NOT NULL, deleted_at TEXT);
CREATE TABLE transcript (
  id TEXT PRIMARY KEY, file_uuid TEXT NOT NULL, backend TEXT NOT NULL, language TEXT,
  duration_ms INTEGER NOT NULL, completed_at TEXT, created_at TEXT NOT NULL,
  updated_at TEXT NOT NULL, deleted_at TEXT, device_id TEXT NOT NULL, hlc INTEGER);
CREATE TABLE transcript_segment (
  id TEXT PRIMARY KEY, transcript_id TEXT NOT NULL, start_ms INTEGER NOT NULL,
  end_ms INTEGER NOT NULL, text TEXT NOT NULL, confidence REAL, created_at TEXT NOT NULL,
  updated_at TEXT NOT NULL, deleted_at TEXT, device_id TEXT NOT NULL, hlc INTEGER);
CREATE TABLE search_content (
  rowid INTEGER PRIMARY KEY, file_uuid TEXT NOT NULL UNIQUE, blake3_hash TEXT, filename TEXT,
  relative_path TEXT, mime_type TEXT, camera_model TEXT, captured_at TEXT, tags TEXT);
CREATE VIRTUAL TABLE search_index USING fts5(
  filename, relative_path, mime_type, camera_model, captured_at, tags,
  content='search_content', content_rowid='rowid');
CREATE VIRTUAL TABLE transcript_search USING fts5(text);
";

fn values(call: &SqlCall) -> Vec<Value> {
    call.params
        .iter()
        .map(|p| match p {
            SqlValue::Null => Value::Null,
            SqlValue::Int(n) => Value::Integer(*n),
            SqlValue::Text(s) => Value::Text(s.clone()),
            SqlValue::Real(bits) => Value::Real(f64::from(f32::from_bits(*bits))),
        })
        .collect()
}

fn reported(e: &rusqlite::Error) -> SqliteError {
    let kind = match e {
        rusqlite::Error::QueryReturnedNoRows => SqliteErrorKind::QueryReturnedNoRows,
        rusqlite::Error::SqliteFailure(f, _)
            if f.code == rusqlite::ErrorCode::ConstraintViolation =>
        {
            SqliteErrorKind::ConstraintViolation
        }
        _ => SqliteErrorKind::Other,
    };
    SqliteError { kind, text: e.to_string() }
}

fn failure(e: rusqlite::Error) -> CoreError {
    CoreError::from(Error::Rusqlite(reported(&e)))
}

fn execute(conn: &Connection, call: &SqlCall) -> Result<u64, CoreError> {
    conn.execute(&call.sql, params_from_iter(values(call)))
        .map(|n| n as u64)
        .map_err(failure)
}

fn first<T>(
    conn: &Connection,
    call: &SqlCall,
    read: impl Fn(&rusqlite::Row<'_>) -> rusqlite::Result<T>,
) -> rusqlite::Result<Option<T>> {
    conn.query_row(&call.sql, params_from_iter(values(call)), |r| read(r)).optional()
}

fn one<T>(
    conn: &Connection,
    call: &SqlCall,
    read: impl Fn(&rusqlite::Row<'_>) -> rusqlite::Result<T>,
) -> Result<Option<T>, CoreError> {
    first(conn, call, read).map_err(failure)
}

fn all<T>(
    conn: &Connection,
    call: &SqlCall,
    read: impl Fn(&rusqlite::Row<'_>) -> rusqlite::Result<T>,
) -> Result<Vec<T>, CoreError> {
    let mut stmt = conn.prepare(&call.sql).map_err(failure)?;
    let rows = stmt
        .query_map(params_from_iter(values(call)), |r| read(r))
        .map_err(failure)?
        .collect::<Result<Vec<_>, _>>()
        .map_err(failure)?;
    Ok(rows)
}

fn location_row(r: &rusqlite::Row<'_>) -> rusqlite::Result<LocationRow> {
    Ok(LocationRow {
        file_uuid: r.get(0)?,
        hash: r.get(1)?,
        size: r.get(2)?,
        volume: r.get(3)?,
        path: r.get(4)?,
        status: r.get(5)?,
        first_seen: r.get(6)?,
    })
}

fn metadata_columns(r: &rusqlite::Row<'_>, from: usize) -> rusqlite::Result<MetadataColumns> {
    Ok(MetadataColumns {
        width: r.get(from)?,
        height: r.get(from + 1)?,
        duration_ms: r.get(from + 2)?,
        captured_at: r.get(from + 3)?,
        camera_make: r.get(from + 4)?,
        camera_model: r.get(from + 5)?,
        codec: r.get(from + 6)?,
        bitrate_bps: r.get(from + 7)?,
        mime_type: r.get(from + 8)?,
        thumbnail_path: r.get(from + 9)?,
        thumbnail_status: r.get(from + 10)?,
    })
}

struct Store {
    conn: Connection,
    clock: Hlc,
    events: Vec<AppEvent>,
    steps: Vec<&'static str>,
}

fn step_name<A, R>(action: &Action<A, R>) -> &'static str {
    match action {
        Action::Begin => "begin",
        Action::Find { .. } => "find",
        Action::Run(_) => "run",
        Action::Commit => "commit",
        Action::RollBack => "roll back",
        Action::Close { .. } => "close",
    }
}

impl Store {
    fn new() -> Store {
        let conn = Connection::open_in_memory().expect("open");
        conn.execute_batch(TABLES).expect("tables");
        conn.execute_batch(&render_fts_triggers()).expect("triggers");
        Store { conn, clock: Hlc { ms: 0, counter: 0 }, events: Vec::new(), steps: Vec::new() }
    }

    fn count(&self, sql: &str) -> i64 {
        self.conn.query_row(sql, [], |r| r.get(0)).expect("count")
    }

    fn text(&self, sql: &str) -> Option<String> {
        self.conn.query_row(sql, [], |r| r.get(0)).expect("text")
    }

    /// Carries a command out. `cancel_at` is the number of statements after which its
    /// caller gives it up.
    fn carry_out<C: Command>(
        &mut self,
        cmd: C,
        cancel_at: Option<usize>,
        find: impl Fn(&Connection, C::Arm, &SqlCall) -> rusqlite::Result<C::Found>,
    ) -> C::Reply {
        let stamp = Stamp::take(&mut self.clock);
        let (mut job, mut action) = Job::start(cmd, stamp);
        let mut done = 0;
        self.steps = Vec::new();
        loop {
            self.steps.push(step_name(&action));
            let result = match action {
                Action::Begin => self.conn.execute_batch("BEGIN IMMEDIATE").map(|()| Report::Done),
                Action::Find { arm, call } => find(&self.conn, arm, &call).map(Report::Found),
                Action::Run(_) if cancel_at.is_some_and(|n| done >= n) => Ok(Report::Cancelled),
                Action::Run(call) => {
                    done += 1;
                    self.conn
                        .execute(&call.sql, params_from_iter(values(&call)))
                        .map(|n| Report::Changed(n as u64))
                }
                Action::Commit => self.conn.execute_batch("COMMIT").map(|()| Report::Done),
                Action::RollBack => self.conn.execute_batch("ROLLBACK").map(|()| Report::Done),
                Action::Close { before, reply, after } => {
                    self.events.extend(before);
                    self.events.extend(after);
                    return reply;
                }
            };
            let report = match result {
                Ok(report) => report,
                Err(e) => Report::Failed(reported(&e)),
            };
            (job, action) = job.report(report);
        }
    }

    // --- files ---

    fn file(&mut self, cmd: FileWriteCmd) -> FileReply {
        self.carry_out(cmd, None, |conn, arm, call| {
            let mut found = FileFound { file: None, location: None, collision: None };
            match arm {
                FileArm::File => {
                    found.file = first(conn, call, |r| {
                        Ok(ExistingFile {
                            size: r.get(0)?,
                            device: r.get(1)?,
                            quick_hash: r.get(2)?,
                        })
                    })?
                }
                FileArm::Location => {
                    found.location = first(conn, call, |r| {
                        Ok(ExistingLocation { id: r.get(0)?, hash: r.get(1)?, device: r.get(2)? })
                    })?
                }
                FileArm::Collision => found.collision = first(conn, call, |r| r.get(0))?,
            }
            Ok(found)
        })
    }

    fn outcome(&mut self, cmd: FileWriteCmd) -> Result<UpsertOutcome, CoreError> {
        match self.file(cmd) {
            FileReply::Outcome(r) => r,
            FileReply::Rows(_) => panic!("rows where an outcome was due"),
        }
    }

    fn rows(&mut self, cmd: FileWriteCmd) -> Result<u64, CoreError> {
        match self.file(cmd) {
            FileReply::Rows(r) => r,
            FileReply::Outcome(_) => panic!("an outcome where rows were due"),
        }
    }

    fn upsert_file(&mut self, file: &HashedFile, device: DeviceId) -> UpsertOutcome {
        self.outcome(FileWriteCmd::UpsertFile { file: file.clone(), device, quick_hash: None })
            .expect("upsert file")
    }

    fn upsert_quick(&mut self, file: &HashedFile, device: DeviceId, q: BlakeHash) -> UpsertOutcome {
        self.outcome(FileWriteCmd::UpsertFile {
            file: file.clone(),
            device,
            quick_hash: Some(q),
        })
        .expect("upsert file")
    }

    fn upsert_location(
        &mut self,
        hash: &BlakeHash,
        volume: VolumeId,
        path: &MediaPath,
        device: DeviceId,
    ) -> UpsertOutcome {
        self.outcome(FileWriteCmd::UpsertLocation {
            hash: *hash,
            volume,
            path: path.clone(),
            device,
        })
        .expect("upsert location")
    }

    fn put(&mut self, file: &HashedFile, volume: VolumeId, device: DeviceId) {
        self.upsert_file(file, device);
        self.upsert_location(&file.hash, volume, &file.discovered.relative_path, device);
    }

    fn set_status(
        &mut self,
        volume: VolumeId,
        path: &MediaPath,
        status: LocationStatus,
        device: DeviceId,
    ) -> u64 {
        self.rows(FileWriteCmd::UpdateLocationStatus {
            volume,
            path: path.clone(),
            status,
            device,
        })
        .expect("update status")
    }

    fn rename(&mut self, volume: VolumeId, old: &str, new: &str, device: DeviceId) -> u64 {
        self.rows(FileWriteCmd::UpdateLocationPath {
            volume,
            old_path: MediaPath::new(old),
            new_path: MediaPath::new(new),
            device,
        })
        .expect("rename")
    }

    fn migrate(&mut self, path: &MediaPath, real_volume: VolumeId, device: DeviceId) -> u64 {
        self.rows(FileWriteCmd::MigrateSentinelRow { path: path.clone(), real_volume, device })
            .expect("migrate")
    }

    fn list(&self, limit: usize, volume: Option<VolumeId>) -> Vec<FileLocationRecord> {
        let rows = all(&self.conn, &list_file_locations_query(limit, volume), location_row)
            .expect("query");
        list_file_locations_sql(&rows).expect("list")
    }

    fn backfill(&self, limit: u32) -> Vec<BackfillFileRow> {
        let rows = all(&self.conn, &list_files_needing_backfill_query(limit), |r| {
            Ok(BackfillRow { hash: r.get(0)?, size: r.get(1)?, mount: r.get(2)?, path: r.get(3)? })
        })
        .expect("query");
        list_files_needing_backfill_sql(&rows).expect("list")
    }

    fn by_uuid(&self, id: FileUuid) -> Option<(Option<BlakeHash>, MountedPath, u64)> {
        let row = one(&self.conn, &lookup_by_file_uuid_query(id), |r| {
            Ok(FileByUuidRow { hash: r.get(0)?, size: r.get(1)?, mount: r.get(2)?, path: r.get(3)? })
        })
        .expect("query");
        lookup_by_file_uuid_sql(&row).expect("lookup")
    }

    fn to_verify(&self, device: DeviceId) -> VerifyCandidates {
        let rows = all(&self.conn, &list_locations_for_verify_query(device), |r| {
            Ok(VerifyRow { volume: r.get(0)?, path: r.get(1)?, status: r.get(2)?, mount: r.get(3)? })
        })
        .expect("query");
        list_locations_for_verify_sql(&rows, self.number(&count_locations_query())).expect("list")
    }

    fn number(&self, call: &SqlCall) -> i64 {
        one(&self.conn, call, |r| r.get(0)).expect("query").expect("a count")
    }

    fn pending(&self, limit: usize) -> Vec<FileUuid> {
        let rows: Vec<String> =
            all(&self.conn, &list_files_pending_full_hash_query(limit), |r| r.get(0))
                .expect("query");
        list_files_pending_full_hash_sql(&rows).expect("list")
    }

    fn collisions(&self) -> Vec<CollisionGroup> {
        let hashes: Vec<String> =
            all(&self.conn, &colliding_query(), |r| r.get(0)).expect("query");
        let groups: Vec<GroupRows> = hashes
            .into_iter()
            .map(|quick_hash| {
                let rows = all(&self.conn, &collision_group_query(&quick_hash), location_row)
                    .expect("group");
                GroupRows { quick_hash, rows }
            })
            .collect();
        list_quick_hash_collisions_sql(&groups).expect("list")
    }

    fn update_full_hash(&mut self, file_uuid: FileUuid, hash: BlakeHash) -> Result<(), CoreError> {
        let rows = self.rows(FileWriteCmd::PromoteFullHash {
            file_uuid,
            full_hash: hash,
            device: DeviceId::new(),
        })?;
        full_hash_stored(file_uuid, rows)
    }

    // --- metadata ---

    fn metadata(&mut self, cmd: MetadataWriteCmd) -> MetadataReply {
        self.carry_out(cmd, None, |conn, _, call| {
            first(conn, call, |r| {
                Ok(ExistingMetadata { device: r.get(0)?, mime_type: r.get(1)? })
            })
        })
    }

    fn upsert_metadata(
        &mut self,
        record: &MediaMetadata,
        device: DeviceId,
    ) -> Result<UpsertOutcome, CoreError> {
        match self.metadata(MetadataWriteCmd::UpsertMetadata { record: record.clone(), device }) {
            MetadataReply::Outcome(r) => r,
            MetadataReply::Rows(_) => panic!("rows where an outcome was due"),
        }
    }

    fn update_thumbnail(
        &mut self,
        hash: &BlakeHash,
        path: Option<&str>,
        status: &str,
        device: DeviceId,
    ) -> u64 {
        match self.metadata(MetadataWriteCmd::UpdateThumbnail {
            hash: *hash,
            path: path.map(str::to_owned),
            status: status.to_owned(),
            device,
        }) {
            MetadataReply::Rows(r) => r.expect("update thumbnail"),
            MetadataReply::Outcome(_) => panic!("an outcome where rows were due"),
        }
    }

    fn find_metadata(&self, hash: &BlakeHash) -> Option<MediaMetadata> {
        let row = one(&self.conn, &find_by_hash_query(hash), |r| metadata_columns(r, 0))
            .expect("query");
        find_by_hash(hash, &row).expect("find")
    }

    fn list_metadata(&self, limit: usize, volume: Option<VolumeId>) -> Vec<FileWithMetadataRow> {
        let rows = all(&self.conn, &list_with_metadata_query(limit, volume), |r| {
            Ok(LocationMetadataRow {
                location: location_row(r)?,
                updated_at: r.get(7)?,
                columns: metadata_columns(r, 8)?,
                quick_hash: r.get(19)?,
            })
        })
        .expect("query");
        list_with_metadata(&rows).expect("list")
    }

    // --- tags ---

    fn tag(&mut self, cmd: TagWriteCmd) -> TagReply {
        self.carry_out(cmd, None, |conn, arm, call| {
            let mut found = TagFound { tag: None, link: None };
            match arm {
                TagArm::Tag => {
                    found.tag = first(conn, call, |r| {
                        Ok(ExistingTag { id: r.get(0)?, first_seen: r.get(1)? })
                    })?
                }
                TagArm::Link => found.link = first(conn, call, |r| r.get(0))?,
            }
            Ok(found)
        })
    }

    fn upsert_tag(&mut self, name: &str, device: DeviceId) -> Tag {
        let cmd = upsert_tag(name, device).expect("name");
        match self.tag(cmd) {
            TagReply::Tag(r) => r.expect("tag"),
            TagReply::Rows(_) => panic!("rows where a tag was due"),
        }
    }

    fn tag_rows(&mut self, cmd: TagWriteCmd) -> u64 {
        match self.tag(cmd) {
            TagReply::Rows(r) => r.expect("rows"),
            TagReply::Tag(_) => panic!("a tag where rows were due"),
        }
    }

    fn attach(&mut self, hash: &BlakeHash, tag_id: Uuid, device: DeviceId) -> u64 {
        self.tag_rows(TagWriteCmd::Attach { hash: *hash, tag_id, device })
    }

    fn detach(&mut self, hash: &BlakeHash, tag_id: Uuid, device: DeviceId) -> u64 {
        self.tag_rows(TagWriteCmd::Detach { hash: *hash, tag_id, device })
    }

    fn delete_tag(&mut self, tag_id: Uuid, device: DeviceId) -> u64 {
        self.tag_rows(TagWriteCmd::DeleteTag { tag_id, device })
    }

    fn tags_for(&self, hashes: &[BlakeHash]) -> Vec<(BlakeHash, Vec<Tag>)> {
        let rows = match tags_for_hashes_query(&hashes.to_vec()) {
            None => Vec::new(),
            Some(call) => all(&self.conn, &call, |r| {
                Ok(HashTagRow {
                    hash: r.get(0)?,
                    tag: TagRow { id: r.get(1)?, name: r.get(2)?, first_seen: r.get(3)? },
                })
            })
            .expect("query"),
        };
        tags_for_hashes(&rows).expect("tags")
    }

    fn list_tags(&self) -> Vec<Tag> {
        let rows = all(&self.conn, &list_tags_query(), |r| {
            Ok(TagRow { id: r.get(0)?, name: r.get(1)?, first_seen: r.get(2)? })
        })
        .expect("query");
        list_tags(&rows).expect("list")
    }

    fn files_with(&self, tag_id: Uuid) -> Vec<BlakeHash> {
        let rows: Vec<String> =
            all(&self.conn, &files_with_tag_query(tag_id), |r| r.get(0)).expect("query");
        files_with_tag(&rows).expect("files")
    }

    fn count_with(&self, tag_id: Uuid) -> u64 {
        let n = one(&self.conn, &count_files_for_tag_query(tag_id), |r| r.get(0))
            .expect("query")
            .expect("row");
        i64_to_count(n).expect("count")
    }

    // --- volumes ---

    fn volume(&mut self, cmd: VolumeWriteCmd) -> VolumeReply {
        self.carry_out(cmd, None, |conn, _, call| first(conn, call, |r| r.get(0)))
    }

    fn find_or_create(
        &mut self,
        ident: &VolumeIdentifiers,
        device: DeviceId,
    ) -> Result<VolumeId, CoreError> {
        let cmd = VolumeWriteCmd::FindOrCreate { identifiers: ident.clone(), device };
        match self.volume(cmd) {
            VolumeReply::Volume(r) => r,
            VolumeReply::Mount(_) => panic!("a mount where a volume was due"),
        }
    }

    fn record_mount(
        &mut self,
        volume: VolumeId,
        machine: DeviceId,
        mount: &PathText,
    ) -> Result<(), CoreError> {
        let cmd = VolumeWriteCmd::RecordMount { volume, device: machine, mount: mount.clone() };
        match self.volume(cmd) {
            VolumeReply::Mount(r) => r,
            VolumeReply::Volume(_) => panic!("a volume where a mount was due"),
        }
    }

    fn mount(&mut self, volume: VolumeId, machine: DeviceId, mount: &str) {
        self.record_mount(volume, machine, &PathText::Utf8(mount.to_owned())).expect("mount")
    }

    fn volumes(&self, machine: DeviceId) -> Vec<VolumeRecord> {
        let rows = all(&self.conn, &list_query(machine), |r| {
            Ok(VolumeRow {
                volume: r.get(0)?,
                label: r.get(1)?,
                capacity: r.get(2)?,
                removable: r.get(3)?,
                last_seen: r.get(4)?,
                mount: r.get(5)?,
            })
        })
        .expect("query");
        list_volumes(&rows).expect("list")
    }

    // --- cache ---

    fn cache(&mut self, cmd: &CacheWriteCmd) -> Result<(), CoreError> {
        self.carry_out(cmd.clone(), None, |conn, _, call| first(conn, call, |r| r.get(0)))
    }

    fn cached(&self, key: &CacheKey) -> Option<CacheEntry> {
        let row = one(&self.conn, &lookup_query(key).expect("key"), |r| {
            Ok(CacheRow { quick_hash: r.get(0)?, full_hash: r.get(1)? })
        })
        .expect("query");
        cache_lookup(&row).expect("lookup")
    }

    // --- transcripts ---

    fn transcript(
        &mut self,
        cmd: &TranscriptInsert,
        cancel_at: Option<usize>,
    ) -> Result<TranscriptId, CoreError> {
        self.carry_out(cmd.clone(), cancel_at, |_, _, _| Ok(()))
    }

    // --- search ---

    fn rebuild(&mut self) {
        self.carry_out(SearchWriteCmd::Rebuild, None, |_, _, _| Ok(())).expect("rebuild")
    }

    fn search(&self, query: &str) -> Vec<SearchHit> {
        let rows = all(&self.conn, &search_query(query, 50), |r| {
            let rank: f64 = r.get(4)?;
            Ok(SearchRow {
                file_uuid: r.get(0)?,
                hash: r.get(1)?,
                volume: r.get(2)?,
                path: r.get(3)?,
                rank_bits: rank.to_bits(),
            })
        })
        .expect("query");
        search_impl(&rows).expect("hits")
    }

    fn paths(&self, query: &str) -> Vec<String> {
        self.search(query).into_iter().map(|h| h.relative_path).collect()
    }
}

fn content_hash(content: &[u8]) -> BlakeHash {
    BlakeHash::from_bytes(*blake3::hash(content).as_bytes())
}

fn sample_hashed_file(content: &[u8], rel_path: &str) -> HashedFile {
    HashedFile {
        discovered: DiscoveredFile {
            absolute_path: PathText::Utf8("/tmp/fake".to_owned()),
            relative_path: MediaPath::new(rel_path),
            size: FileSize(content.len() as u64),
        },
        hash: content_hash(content),
    }
}

fn device() -> DeviceId {
    DeviceId::new()
}

fn sentinel_volume() -> VolumeId {
    VolumeId(Uuid::nil())
}

fn reasons(store: &Store) -> Vec<InvalidationReason> {
    store
        .events
        .iter()
        .filter_map(|e| match e {
            AppEvent::IndexInvalidated { reason } => Some(*reason),
            _ => None,
        })
        .collect()
}

// --- files ---

#[test]
fn upsert_file_inserts_new() {
    let mut repo = Store::new();
    let f = sample_hashed_file(b"hello", "a.txt");
    assert_eq!(repo.upsert_file(&f, device()), UpsertOutcome::Inserted);
}

#[test]
fn upsert_file_unchanged_on_repeat() {
    let mut repo = Store::new();
    let dev = device();
    let f = sample_hashed_file(b"hello", "a.txt");
    repo.upsert_file(&f, dev);
    assert_eq!(repo.upsert_file(&f, dev), UpsertOutcome::Unchanged);
}

#[test]
fn upsert_file_updated_on_size_change() {
    let mut repo = Store::new();
    let dev = device();
    let f1 = sample_hashed_file(b"hello", "a.txt");
    repo.upsert_file(&f1, dev);
    let mut f2 = f1;
    f2.discovered.size = FileSize(999);
    assert_eq!(repo.upsert_file(&f2, dev), UpsertOutcome::Updated);
}

#[test]
fn upsert_location_inserts_new() {
    let mut repo = Store::new();
    let dev = device();
    let f = sample_hashed_file(b"hello", "a.txt");
    repo.upsert_file(&f, dev);
    let out = repo.upsert_location(&f.hash, sentinel_volume(), &f.discovered.relative_path, dev);
    assert_eq!(out, UpsertOutcome::Inserted);
}

#[test]
fn upsert_location_unchanged_on_repeat() {
    let mut repo = Store::new();
    let dev = device();
    let f = sample_hashed_file(b"hello", "a.txt");
    repo.upsert_file(&f, dev);
    let vol = sentinel_volume();
    let path = &f.discovered.relative_path;
    repo.upsert_location(&f.hash, vol, path, dev);
    let out = repo.upsert_location(&f.hash, vol, path, dev);
    assert_eq!(out, UpsertOutcome::Unchanged);
}

#[test]
fn upsert_location_updated_on_hash_change() {
    let mut repo = Store::new();
    let dev = device();
    let f1 = sample_hashed_file(b"hello", "a.txt");
    let f2 = sample_hashed_file(b"world", "a.txt");
    repo.upsert_file(&f1, dev);
    repo.upsert_file(&f2, dev);
    let vol = sentinel_volume();
    let path = MediaPath::new("a.txt");
    repo.upsert_location(&f1.hash, vol, &path, dev);
    let out = repo.upsert_location(&f2.hash, vol, &path, dev);
    assert_eq!(out, UpsertOutcome::Updated);
}

#[test]
fn list_file_locations_returns_all() {
    let mut repo = Store::new();
    let dev = device();
    let vol = sentinel_volume();
    for (i, name) in ["a.txt", "b.txt", "c.txt"].iter().enumerate() {
        let f = sample_hashed_file(format!("content{i}").as_bytes(), name);
        repo.put(&f, vol, dev);
    }
    let results = repo.list(100, None);
    assert_eq!(results.len(), 3);
    assert_eq!(results[0].relative_path.as_str(), "a.txt");
    assert_eq!(results[2].relative_path.as_str(), "c.txt");
}

#[test]
fn list_file_locations_respects_limit() {
    let mut repo = Store::new();
    let dev = device();
    let vol = sentinel_volume();
    for i in 0..5 {
        let f = sample_hashed_file(format!("c{i}").as_bytes(), &format!("f{i}.txt"));
        repo.put(&f, vol, dev);
    }
    assert_eq!(repo.list(2, None).len(), 2);
}

#[test]
fn list_file_locations_filters_by_volume() {
    let mut repo = Store::new();
    let dev = device();
    let vol_a = VolumeId::new();
    let vol_b = VolumeId::new();
    let f1 = sample_hashed_file(b"alpha", "a.txt");
    let f2 = sample_hashed_file(b"beta", "b.txt");
    repo.put(&f1, vol_a, dev);
    repo.put(&f2, vol_b, dev);
    let a_only = repo.list(100, Some(vol_a));
    assert_eq!(a_only.len(), 1);
    assert_eq!(a_only[0].relative_path.as_str(), "a.txt");
}

#[test]
fn migrate_sentinel_row_updates_volume_id() {
    let mut repo = Store::new();
    let dev = device();
    let sentinel = sentinel_volume();
    let real_vol = VolumeId::new();
    let f = sample_hashed_file(b"sentinel_test", "photo.jpg");
    repo.put(&f, sentinel, dev);

    let updated = repo.migrate(&f.discovered.relative_path, real_vol, dev);
    assert_eq!(updated, 1, "exactly 1 sentinel row must be migrated");

    let rows = repo.list(10, Some(real_vol));
    assert_eq!(rows.len(), 1, "row must be found under real volume");
    assert_eq!(rows[0].relative_path.as_str(), "photo.jpg");

    let sentinel_rows = repo.list(10, Some(sentinel));
    assert_eq!(sentinel_rows.len(), 0, "no rows under sentinel after migration");
}

#[test]
fn migrate_sentinel_row_skips_non_sentinel() {
    let mut repo = Store::new();
    let dev = device();
    let real_vol = VolumeId::new();
    let other_vol = VolumeId::new();
    let f = sample_hashed_file(b"real_vol_test", "video.mp4");
    repo.put(&f, real_vol, dev);

    let updated = repo.migrate(&f.discovered.relative_path, other_vol, dev);
    assert_eq!(updated, 0, "non-sentinel row must not be touched");
}

#[test]
fn update_status_to_missing() {
    let mut repo = Store::new();
    let dev = device();
    let vol = VolumeId::new();
    let f = sample_hashed_file(b"missing_test", "img.jpg");
    repo.put(&f, vol, dev);

    let updated =
        repo.set_status(vol, &f.discovered.relative_path, LocationStatus::Missing, dev);
    assert_eq!(updated, 1, "exactly 1 row must be updated");

    let rows = repo.list(10, Some(vol));
    assert_eq!(rows.len(), 1);
    assert_eq!(rows[0].status, LocationStatus::Missing);
}

#[test]
fn update_status_to_stale() {
    let mut repo = Store::new();
    let dev = device();
    let vol = VolumeId::new();
    let f = sample_hashed_file(b"stale_test", "doc.txt");
    repo.put(&f, vol, dev);

    let updated = repo.set_status(vol, &f.discovered.relative_path, LocationStatus::Stale, dev);
    assert_eq!(updated, 1, "exactly 1 row must be updated");

    let rows = repo.list(10, Some(vol));
    assert_eq!(rows.len(), 1);
    assert_eq!(rows[0].status, LocationStatus::Stale);
}

#[test]
fn update_location_path_renames() {
    let mut repo = Store::new();
    let dev = device();
    let vol = VolumeId::new();
    let f = sample_hashed_file(b"rename_test", "old_name.jpg");
    repo.put(&f, vol, dev);
    repo.set_status(vol, &f.discovered.relative_path, LocationStatus::Stale, dev);

    let updated = repo.rename(vol, "old_name.jpg", "new_name.jpg", dev);
    assert_eq!(updated, 1, "exactly 1 row must be renamed");

    let rows = repo.list(10, Some(vol));
    assert_eq!(rows.len(), 1);
    assert_eq!(rows[0].relative_path.as_str(), "new_name.jpg");
    assert_eq!(rows[0].status, LocationStatus::Active);
}

#[test]
fn update_location_path_collision_softdeletes_source() {
    let mut repo = Store::new();
    let dev = device();
    let vol = VolumeId::new();
    let f_dest = sample_hashed_file(b"destination_content", "dest.jpg");
    repo.put(&f_dest, vol, dev);
    let f_src = sample_hashed_file(b"source_content", "src.jpg");
    repo.put(&f_src, vol, dev);

    let touched = repo.rename(vol, "src.jpg", "dest.jpg", dev);
    assert_eq!(touched, 1, "source row must be soft-deleted (counts as 1 update)");

    let rows = repo.list(10, Some(vol));
    assert_eq!(rows.len(), 1, "exactly one active row after collision");
    assert_eq!(rows[0].relative_path.as_str(), "dest.jpg");
    assert_eq!(
        rows[0].hash.map(|h| h.to_hex()),
        Some(f_dest.hash.to_hex()),
        "destination hash must be preserved",
    );
}

#[test]
fn update_location_path_normal_case() {
    let mut repo = Store::new();
    let dev = device();
    let vol = VolumeId::new();
    let f = sample_hashed_file(b"normal_rename", "a.jpg");
    repo.put(&f, vol, dev);

    assert_eq!(repo.rename(vol, "a.jpg", "b.jpg", dev), 1);

    let rows = repo.list(10, Some(vol));
    assert_eq!(rows.len(), 1);
    assert_eq!(rows[0].relative_path.as_str(), "b.jpg");
    assert_eq!(rows[0].status, LocationStatus::Active);
}

#[test]
fn update_location_path_nonexistent() {
    let mut repo = Store::new();
    let dev = device();
    let vol = VolumeId::new();
    let updated = repo.rename(vol, "ghost.jpg", "phantom.jpg", dev);
    assert_eq!(updated, 0, "no rows must be affected for a nonexistent path");
}

#[test]
fn written_location_reads_back() {
    let mut repo = Store::new();
    let dev = device();
    let vol = VolumeId::new();
    let f = sample_hashed_file(b"read me", "dir/a.txt");
    repo.put(&f, vol, dev);
    let rows = repo.list(10, None);
    assert_eq!(rows.len(), 1);
    assert_eq!(rows[0].hash, Some(f.hash));
    assert_eq!(rows[0].size, FileSize(7));
    assert_eq!(rows[0].volume_id, vol);
    assert_eq!(rows[0].relative_path, f.discovered.relative_path);
    assert_eq!(rows[0].status, LocationStatus::Active);
    assert_eq!((rows[0].file_uuid.0 .0 >> 76) & 0xf, 7);
    assert!(!rows[0].first_seen.is_empty());
}

#[test]
fn quick_hash_is_filled_once_and_kept() {
    let mut repo = Store::new();
    let dev = device();
    let f = sample_hashed_file(b"quick", "q.txt");
    let q1 = content_hash(b"first");
    let q2 = content_hash(b"second");
    let stored = |repo: &Store| repo.text("SELECT quick_hash FROM files");
    let hlc = |repo: &Store| repo.count("SELECT hlc FROM files");
    assert_eq!(repo.upsert_file(&f, dev), UpsertOutcome::Inserted);
    let first_hlc = hlc(&repo);
    assert_eq!(stored(&repo), None);
    assert_eq!(repo.upsert_file(&f, dev), UpsertOutcome::Unchanged);
    assert_eq!(hlc(&repo), first_hlc, "an unchanged file keeps its clock");
    assert_eq!(repo.upsert_quick(&f, dev, q1), UpsertOutcome::Updated);
    assert_eq!(stored(&repo), Some(q1.to_hex()));
    let filled_hlc = hlc(&repo);
    assert!(filled_hlc > first_hlc);
    assert_eq!(repo.upsert_quick(&f, dev, q2), UpsertOutcome::Unchanged);
    assert_eq!(stored(&repo), Some(q1.to_hex()));
    assert_eq!(hlc(&repo), filled_hlc);
    assert_eq!(repo.upsert_quick(&f, device(), q2), UpsertOutcome::Updated);
    assert_eq!(stored(&repo), Some(q1.to_hex()));
    assert!(hlc(&repo) > filled_hlc);
    // The insert and the two updates are told, what is unchanged is not.
    assert_eq!(reasons(&repo), vec![InvalidationReason::FilesChanged; 3]);
}

#[test]
fn oversized_file_is_refused_and_nothing_is_written() {
    let mut repo = Store::new();
    let mut f = sample_hashed_file(b"huge", "h.bin");
    f.discovered.size = FileSize(u64::MAX);
    let r = repo.outcome(FileWriteCmd::UpsertFile { file: f, device: device(), quick_hash: None });
    assert_eq!(
        r,
        Err(CoreError::Internal("file size 18446744073709551615 overflows i64".to_owned()))
    );
    assert_eq!(repo.count("SELECT COUNT(*) FROM files"), 0);
    assert!(repo.events.is_empty());
}

#[test]
fn status_batch_shares_one_clock_and_last_entry_counts() {
    let mut repo = Store::new();
    let dev = device();
    let vol = VolumeId::new();
    for name in ["a", "b", "c"] {
        repo.put(&sample_hashed_file(name.as_bytes(), name), vol, dev);
    }
    repo.events.clear();
    let update = |path: &str, status| LocationStatusUpdate {
        volume: vol,
        path: MediaPath::new(path),
        status,
    };
    let rows = repo
        .rows(FileWriteCmd::UpdateLocationStatuses {
            updates: vec![
                update("a", LocationStatus::Missing),
                update("b", LocationStatus::Stale),
                update("nowhere", LocationStatus::Stale),
                update("a", LocationStatus::Moved),
            ],
            device: dev,
        })
        .expect("batch");
    assert_eq!(rows, 3);
    assert_eq!(reasons(&repo), vec![InvalidationReason::FilesChanged]);
    let statuses: Vec<_> = repo.list(10, None).into_iter().map(|r| r.status).collect();
    assert_eq!(
        statuses,
        vec![LocationStatus::Moved, LocationStatus::Stale, LocationStatus::Active]
    );
    assert_eq!(
        repo.count(
            "SELECT COUNT(DISTINCT hlc) FROM file_locations WHERE relative_path IN ('a', 'b')"
        ),
        1
    );
}

#[test]
fn empty_batches_do_nothing() {
    let mut repo = Store::new();
    let statuses =
        FileWriteCmd::UpdateLocationStatuses { updates: Vec::new(), device: device() };
    assert!(!statuses.opens_transaction());
    assert_eq!(repo.rows(statuses), Ok(0));
    let marks = FileWriteCmd::MarkVerifiedDistinct { file_uuids: Vec::new(), device: device() };
    assert!(!marks.opens_transaction());
    assert_eq!(repo.rows(marks), Ok(0));
    assert!(repo.events.is_empty());
}

#[test]
fn prune_retires_missing_locations_only() {
    let mut repo = Store::new();
    let dev = device();
    let vol = VolumeId::new();
    for name in ["a", "b", "c"] {
        repo.put(&sample_hashed_file(name.as_bytes(), name), vol, dev);
    }
    repo.set_status(vol, &MediaPath::new("a"), LocationStatus::Missing, dev);
    repo.set_status(vol, &MediaPath::new("b"), LocationStatus::Stale, dev);
    assert_eq!(i64_to_count(repo.number(&count_missing_query())), Ok(1));
    let prune = FileWriteCmd::SoftDeleteMissingLocations { device: dev };
    assert_eq!(repo.rows(prune.clone()), Ok(1));
    assert_eq!(repo.rows(prune), Ok(0));
    let paths: Vec<_> =
        repo.list(10, None).iter().map(|r| r.relative_path.as_str().to_owned()).collect();
    assert_eq!(paths, vec!["b", "c"]);
    assert_eq!(repo.count("SELECT COUNT(*) FROM file_locations"), 3, "rows are kept");
    assert_eq!(i64_to_count(repo.number(&count_missing_query())), Ok(0));
}

#[test]
fn renaming_to_the_same_path_retires_the_row() {
    let mut repo = Store::new();
    let dev = device();
    let vol = VolumeId::new();
    repo.put(&sample_hashed_file(b"x", "same"), vol, dev);
    assert_eq!(repo.rename(vol, "same", "same", dev), 1);
    assert!(repo.list(10, None).is_empty());
}

#[test]
fn backfill_lists_files_without_quick_hash() {
    let mut repo = Store::new();
    let dev = device();
    let vol = repo.find_or_create(&label_cap_ident("B", 10), dev).expect("volume");
    let here = sample_hashed_file(b"here", "here.txt");
    let gone = sample_hashed_file(b"gone", "gone.txt");
    let done = sample_hashed_file(b"done", "done.txt");
    repo.put(&here, vol, dev);
    repo.put(&gone, VolumeId::new(), dev);
    repo.upsert_quick(&done, dev, content_hash(b"q"));
    repo.mount(vol, dev, "/mnt/b");
    let rows = repo.backfill(10);
    assert_eq!(rows.len(), 2);
    for row in rows {
        assert_eq!(row.size_bytes, 4);
        if row.hash == here.hash {
            assert_eq!(
                row.active_path,
                Some(MountedPath { mount: "/mnt/b".to_owned(), relative: "here.txt".to_owned() })
            );
        } else {
            assert_eq!(row.hash, gone.hash);
            assert_eq!(row.active_path, None);
        }
    }
    assert_eq!(repo.backfill(1).len(), 1);
}

#[test]
fn files_are_found_by_uuid_while_mounted() {
    let mut repo = Store::new();
    let dev = device();
    let vol = repo.find_or_create(&label_cap_ident("U", 10), dev).expect("volume");
    let f = sample_hashed_file(b"uuid", "u.txt");
    repo.put(&f, vol, dev);
    let id = repo.list(1, None)[0].file_uuid;
    assert_eq!(repo.by_uuid(id), None, "not mounted");
    repo.mount(vol, dev, "/mnt/u");
    assert_eq!(
        repo.by_uuid(id),
        Some((
            Some(f.hash),
            MountedPath { mount: "/mnt/u".to_owned(), relative: "u.txt".to_owned() },
            4
        ))
    );
    assert_eq!(repo.by_uuid(FileUuid::new()), None);
}

#[test]
fn verify_candidates_leave_out_unmounted_volumes() {
    let mut repo = Store::new();
    let dev = device();
    let here = repo.find_or_create(&label_cap_ident("HERE", 1), dev).expect("volume");
    let away = repo.find_or_create(&label_cap_ident("AWAY", 2), dev).expect("volume");
    repo.put(&sample_hashed_file(b"1", "one"), here, dev);
    repo.put(&sample_hashed_file(b"2", "two"), away, dev);
    repo.put(&sample_hashed_file(b"3", "three"), away, dev);
    repo.mount(here, dev, "/mnt/here");
    repo.mount(away, device(), "/mnt/elsewhere");
    let c = repo.to_verify(dev);
    assert_eq!(c.skipped_unmounted, 2);
    assert_eq!(c.locations.len(), 1);
    assert_eq!(c.locations[0].volume, here);
    assert_eq!(c.locations[0].path.as_str(), "one");
    assert_eq!(c.locations[0].status, LocationStatus::Active);
    assert_eq!(
        c.locations[0].absolute_path,
        MountedPath { mount: "/mnt/here".to_owned(), relative: "one".to_owned() }
    );
}

#[test]
fn full_hashes_are_promoted() {
    let mut repo = Store::new();
    let dev = device();
    let f = sample_hashed_file(b"promote", "p.txt");
    repo.put(&f, sentinel_volume(), dev);
    repo.events.clear();
    let id = repo.list(1, None)[0].file_uuid;
    let full = content_hash(b"full");
    repo.update_full_hash(id, full).expect("promote");
    assert_eq!(reasons(&repo), vec![InvalidationReason::CollisionsChanged]);
    assert_eq!(repo.text("SELECT blake3_hash FROM files"), Some(full.to_hex()));
    // The location is listed with the hash that its file has now.
    assert_eq!(repo.list(1, None)[0].hash, Some(full));
    let unknown = FileUuid(Uuid(5));
    assert_eq!(
        repo.update_full_hash(unknown, full),
        Err(CoreError::NotFound(
            "no files row for file_uuid=00000000-0000-0000-0000-000000000005".to_owned()
        ))
    );
    // The hash of another file cannot be taken.
    let g = sample_hashed_file(b"other", "o.txt");
    repo.put(&g, sentinel_volume(), dev);
    assert!(matches!(repo.update_full_hash(id, g.hash), Err(CoreError::Duplicate(_))));
}

#[test]
fn pending_files_are_mounted_and_without_full_hash() {
    let mut repo = Store::new();
    let dev = device();
    let vol = repo.find_or_create(&label_cap_ident("P", 1), dev).expect("volume");
    repo.put(&sample_hashed_file(b"pending", "p.txt"), vol, dev);
    let id = repo.list(1, None)[0].file_uuid;
    repo.conn.execute_batch("UPDATE files SET blake3_hash = NULL").expect("clear");
    assert!(repo.pending(10).is_empty(), "not mounted");
    repo.mount(vol, dev, "/mnt/p");
    assert_eq!(repo.pending(10), vec![id]);
    assert!(repo.pending(0).is_empty());
}

#[test]
fn files_without_full_hash_are_listed() {
    let mut repo = Store::new();
    let dev = device();
    let vol = VolumeId::new();
    let f = sample_hashed_file(b"listed", "l.txt");
    let q = content_hash(b"listed quick");
    repo.upsert_quick(&f, dev, q);
    repo.upsert_location(&f.hash, vol, &f.discovered.relative_path, dev);
    let id = repo.list(1, None)[0].file_uuid;
    repo.conn
        .execute_batch(
            "UPDATE files SET blake3_hash = NULL; UPDATE file_locations SET blake3_hash = NULL;",
        )
        .expect("clear");
    let rows = repo.list(10, None);
    assert_eq!(rows.len(), 1);
    assert_eq!(rows[0].file_uuid, id);
    assert_eq!(rows[0].hash, None);
    assert_eq!(repo.list(10, Some(vol)).len(), 1);
    let with_metadata = repo.list_metadata(10, None);
    assert_eq!(with_metadata.len(), 1);
    assert_eq!(with_metadata[0].0.hash, None);
    // An upsert gives the location its hash.
    let path = MediaPath::new("l.txt");
    assert_eq!(repo.upsert_location(&f.hash, vol, &path, dev), UpsertOutcome::Updated);
    repo.update_full_hash(id, f.hash).expect("promote");
    assert_eq!(repo.list(10, None)[0].hash, Some(f.hash));
}

#[test]
fn paths_come_from_one_location() {
    let mut repo = Store::new();
    let dev = device();
    let a = repo.find_or_create(&label_cap_ident("A", 1), dev).expect("volume");
    let b = repo.find_or_create(&label_cap_ident("B", 2), dev).expect("volume");
    let first = sample_hashed_file(b"twice", "zzz.txt");
    let second = sample_hashed_file(b"twice", "aaa.txt");
    repo.put(&first, a, dev);
    repo.put(&second, b, dev);
    repo.mount(a, dev, "/mnt/a");
    repo.mount(b, dev, "/mnt/b");
    let places = [
        MountedPath { mount: "/mnt/a".to_owned(), relative: "zzz.txt".to_owned() },
        MountedPath { mount: "/mnt/b".to_owned(), relative: "aaa.txt".to_owned() },
    ];
    let rows = repo.backfill(10);
    assert_eq!(rows.len(), 1);
    assert!(places.contains(rows[0].active_path.as_ref().expect("a path")));
    // The smallest mount decides, and brings its own path.
    let id = repo.list(1, None)[0].file_uuid;
    assert_eq!(repo.by_uuid(id), Some((Some(first.hash), places[0].clone(), 5)));
    // The most recent location is the one to read.
    repo.conn
        .execute_batch(
            "UPDATE file_locations SET updated_at = '2020' WHERE relative_path = 'zzz.txt';
             UPDATE file_locations SET updated_at = '2021' WHERE relative_path = 'aaa.txt';",
        )
        .expect("date");
    assert_eq!(repo.backfill(10)[0].active_path, Some(places[1].clone()));
    // A location on a volume that is not mounted is no place to read.
    let c = repo.find_or_create(&label_cap_ident("C", 3), dev).expect("volume");
    repo.put(&sample_hashed_file(b"twice", "new.txt"), c, dev);
    assert_eq!(repo.backfill(10)[0].active_path, Some(places[1].clone()));
}

#[test]
fn collisions_group_files_until_marked_distinct() {
    let mut repo = Store::new();
    let dev = device();
    let vol = VolumeId::new();
    let q = content_hash(b"same fingerprint");
    let files: Vec<HashedFile> =
        ["b", "a"].iter().map(|n| sample_hashed_file(n.as_bytes(), n)).collect();
    for f in &files {
        repo.upsert_quick(f, dev, q);
        repo.upsert_location(&f.hash, vol, &f.discovered.relative_path, dev);
    }
    let lone = sample_hashed_file(b"lone", "z");
    repo.upsert_quick(&lone, dev, content_hash(b"other fingerprint"));
    let groups = repo.collisions();
    assert_eq!(groups.len(), 1);
    assert_eq!(groups[0].quick_hash, q);
    assert_eq!(groups[0].verified_state, VerifiedState::Unverified);
    let paths: Vec<_> = groups[0].files.iter().map(|f| f.relative_path.as_str()).collect();
    assert_eq!(paths, vec!["a", "b"]);
    let ids: Vec<FileUuid> = groups[0].files.iter().map(|f| f.file_uuid).collect();
    // One file that is marked leaves the other to be looked at.
    repo.rows(FileWriteCmd::MarkVerifiedDistinct { file_uuids: vec![ids[0]], device: dev })
        .expect("mark");
    assert_eq!(repo.collisions().len(), 1);
    assert_eq!(repo.collisions()[0].files.len(), 2);
    repo.events.clear();
    let marked = repo.rows(FileWriteCmd::MarkVerifiedDistinct { file_uuids: ids, device: dev });
    assert_eq!(marked, Ok(2));
    assert_eq!(reasons(&repo), vec![InvalidationReason::CollisionsChanged]);
    assert!(repo.collisions().is_empty());
}

#[test]
fn collision_groups_without_locations_are_skipped() {
    let mut repo = Store::new();
    let dev = device();
    let q = content_hash(b"q");
    for n in ["x", "y"] {
        repo.upsert_quick(&sample_hashed_file(n.as_bytes(), n), dev, q);
    }
    assert!(repo.collisions().is_empty());
}

// --- metadata ---

fn sample_metadata(hash: BlakeHash) -> MediaMetadata {
    MediaMetadata {
        hash,
        width: Some(1920),
        height: Some(1080),
        duration_ms: None,
        captured_at: Some("2024-06-01T12:34:56Z".into()),
        camera_make: Some("Canon".into()),
        camera_model: Some("EOS R5".into()),
        codec: None,
        bitrate_bps: None,
        mime_type: Some("image/jpeg".into()),
        thumbnail_path: None,
        thumbnail_status: None,
    }
}

#[test]
fn upsert_metadata_insert_seeds_pending_thumbnail_status() {
    let mut repo = Store::new();
    let hash = content_hash(b"seed");
    repo.upsert_metadata(&sample_metadata(hash), device()).expect("upsert insert");
    let got = repo.find_metadata(&hash).expect("present");
    assert_eq!(got.thumbnail_status.as_deref(), Some("pending"));
    assert!(got.thumbnail_path.is_none());
}

#[test]
fn upsert_metadata_inserts_new() {
    let mut repo = Store::new();
    let out = repo.upsert_metadata(&sample_metadata(content_hash(b"payload")), device());
    assert_eq!(out, Ok(UpsertOutcome::Inserted));
}

#[test]
fn upsert_metadata_unchanged_on_repeat() {
    let mut repo = Store::new();
    let dev = device();
    let meta = sample_metadata(content_hash(b"payload"));
    repo.upsert_metadata(&meta, dev).expect("first");
    assert_eq!(repo.upsert_metadata(&meta, dev), Ok(UpsertOutcome::Unchanged));
    assert_eq!(reasons(&repo), vec![InvalidationReason::MetadataChanged]);
}

#[test]
fn upsert_metadata_updated_on_change() {
    let mut repo = Store::new();
    let dev = device();
    let meta1 = sample_metadata(content_hash(b"payload"));
    repo.upsert_metadata(&meta1, dev).expect("first");
    let mut meta2 = meta1;
    meta2.mime_type = Some("image/png".into());
    assert_eq!(repo.upsert_metadata(&meta2, dev), Ok(UpsertOutcome::Updated));
}

#[test]
fn list_with_metadata_joins_null() {
    let mut repo = Store::new();
    let f = sample_hashed_file(b"joinsnull", "no_meta.txt");
    repo.put(&f, VolumeId::new(), device());
    let rows = repo.list_metadata(100, None);
    assert_eq!(rows.len(), 1, "expected exactly one (file_loc, meta) pair");
    let (loc, meta, quick_hash) = &rows[0];
    assert_eq!(loc.hash, Some(f.hash));
    assert_eq!(loc.relative_path.as_str(), "no_meta.txt");
    assert!(meta.is_none(), "file without file_metadata row must yield None");
    assert!(quick_hash.is_none());
}

#[test]
fn list_with_metadata_joins_populated() {
    let mut repo = Store::new();
    let dev = device();
    let vol = VolumeId::new();
    let f = sample_hashed_file(b"joinspop", "has_meta.jpg");
    let meta = sample_metadata(f.hash);
    repo.put(&f, vol, dev);
    repo.upsert_metadata(&meta, dev).expect("upsert metadata");
    let q = content_hash(b"q");
    repo.upsert_quick(&f, dev, q);

    let rows = repo.list_metadata(100, Some(vol));
    assert_eq!(rows.len(), 1);
    let (loc, got_meta, quick_hash) = &rows[0];
    assert_eq!(loc.hash, Some(f.hash));
    let got = got_meta.as_ref().expect("metadata present for file with file_metadata row");
    let mut expected = meta;
    expected.thumbnail_status = Some("pending".into());
    assert_eq!(got, &expected, "round-tripped metadata must match");
    assert_eq!(quick_hash, &Some(q.to_hex()));
    assert!(repo.list_metadata(100, Some(VolumeId::new())).is_empty());
}

#[test]
fn update_thumbnail_marks_ready_with_path() {
    let mut repo = Store::new();
    let dev = device();
    let hash = content_hash(b"ready");
    repo.upsert_metadata(&sample_metadata(hash), dev).expect("upsert");
    let n = repo.update_thumbnail(&hash, Some("/data/t/ab/cd.webp"), "ready", dev);
    assert_eq!(n, 1, "exactly 1 row updated");
    let got = repo.find_metadata(&hash).expect("present");
    assert_eq!(got.thumbnail_path.as_deref(), Some("/data/t/ab/cd.webp"));
    assert_eq!(got.thumbnail_status.as_deref(), Some("ready"));
}

#[test]
fn upsert_metadata_preserves_thumbnail_state() {
    let mut repo = Store::new();
    let dev = device();
    let hash = content_hash(b"preserve");
    let mut meta = sample_metadata(hash);
    repo.upsert_metadata(&meta, dev).expect("initial upsert");
    repo.update_thumbnail(&hash, Some("/tmp/t.webp"), "ready", dev);
    meta.mime_type = Some("image/jpeg2000".into());
    repo.upsert_metadata(&meta, dev).expect("second upsert");
    let got = repo.find_metadata(&hash).expect("present");
    assert_eq!(got.thumbnail_path.as_deref(), Some("/tmp/t.webp"));
    assert_eq!(got.thumbnail_status.as_deref(), Some("ready"));
    assert_eq!(got.mime_type.as_deref(), Some("image/jpeg2000"));
}

#[test]
fn update_thumbnail_marks_failed_keeps_path_none() {
    let mut repo = Store::new();
    let dev = device();
    let hash = content_hash(b"fail");
    repo.upsert_metadata(&sample_metadata(hash), dev).expect("upsert");
    assert_eq!(repo.update_thumbnail(&hash, None, "failed", dev), 1);
    let got = repo.find_metadata(&hash).expect("present");
    assert_eq!(got.thumbnail_path, None);
    assert_eq!(got.thumbnail_status.as_deref(), Some("failed"));
}

#[test]
fn thumbnails_of_unknown_files_are_not_told() {
    let mut repo = Store::new();
    assert_eq!(repo.update_thumbnail(&content_hash(b"none"), None, "failed", device()), 0);
    assert!(repo.events.is_empty());
}

#[test]
fn overlong_duration_is_refused() {
    let mut repo = Store::new();
    let mut meta = sample_metadata(content_hash(b"long"));
    meta.duration_ms = Some(1 << 63);
    assert_eq!(
        repo.upsert_metadata(&meta, device()),
        Err(CoreError::Internal(
            "duration_ms 9223372036854775808 overflows SQLite INTEGER (i64)".to_owned()
        ))
    );
    meta.duration_ms = Some((1 << 63) - 1);
    assert_eq!(repo.upsert_metadata(&meta, device()), Ok(UpsertOutcome::Inserted));
    assert_eq!(
        repo.find_metadata(&meta.hash).expect("present").duration_ms,
        Some(i64::MAX as u64)
    );
}

// --- tags ---

fn sample_hash() -> BlakeHash {
    BlakeHash::parse_hex(&"a".repeat(64)).expect("hash")
}

fn sample_hash_2() -> BlakeHash {
    BlakeHash::parse_hex(&"b".repeat(64)).expect("hash")
}

fn tags_under(list: &[(BlakeHash, Vec<Tag>)], hash: &BlakeHash) -> Vec<Tag> {
    list.iter().find(|(h, _)| h == hash).map(|(_, t)| t.clone()).unwrap_or_default()
}

#[test]
fn upsert_tag_inserts_new() {
    let mut repo = Store::new();
    let tag = repo.upsert_tag("Vacation", device());
    assert_eq!(tag.name, "vacation");
    assert!(!tag.first_seen.is_empty());
}

#[test]
fn upsert_tag_idempotent_on_repeat() {
    let mut repo = Store::new();
    let t1 = repo.upsert_tag("trip", device());
    let t2 = repo.upsert_tag("trip", device());
    assert_eq!(t1, t2, "same tag on repeat upsert");
}

#[test]
fn upsert_tag_normalizes_case_and_nfc() {
    let mut repo = Store::new();
    let t1 = repo.upsert_tag("Vacation", device());
    let t2 = repo.upsert_tag("vacation", device());
    assert_eq!(t1.id, t2.id, "case variants resolve to the same tag");
}

#[test]
fn upsert_tag_refuses_bad_names() {
    assert!(matches!(upsert_tag("  ", device()), Err(CoreError::InvalidTag(_))));
    assert!(matches!(upsert_tag(&"x".repeat(65), device()), Err(CoreError::InvalidTag(_))));
}

#[test]
fn attach_inserts_new() {
    let mut repo = Store::new();
    let tag = repo.upsert_tag("photo", device());
    let h = sample_hash();
    assert_eq!(repo.attach(&h, tag.id, device()), 1);
    let tags = tags_under(&repo.tags_for(&[h]), &h);
    assert_eq!(tags.len(), 1);
    assert_eq!(tags[0].id, tag.id);
}

#[test]
fn attach_idempotent_on_repeat() {
    let mut repo = Store::new();
    let tag = repo.upsert_tag("photo", device());
    let h = sample_hash();
    assert_eq!(repo.attach(&h, tag.id, device()), 1);
    assert_eq!(repo.attach(&h, tag.id, device()), 0);
    let tags = tags_under(&repo.tags_for(&[h]), &h);
    assert_eq!(tags.len(), 1, "idempotent: only one active row");
}

#[test]
fn detach_softdeletes() {
    let mut repo = Store::new();
    let tag = repo.upsert_tag("trip", device());
    let h = sample_hash();
    repo.attach(&h, tag.id, device());
    assert_eq!(repo.detach(&h, tag.id, device()), 1);
    assert!(repo.tags_for(&[h]).is_empty(), "no active tags after detach");
    assert_eq!(repo.detach(&h, tag.id, device()), 0);
    assert_eq!(repo.count("SELECT COUNT(*) FROM file_tags"), 1);
}

#[test]
fn tags_for_hashes_single_hash() {
    let mut repo = Store::new();
    let tag = repo.upsert_tag("landscape", device());
    let h = sample_hash();
    repo.attach(&h, tag.id, device());
    let tags = tags_under(&repo.tags_for(&[h]), &h);
    assert_eq!(tags.len(), 1);
    assert_eq!(tags[0].name, "landscape");
}

#[test]
fn tags_for_hashes_batch_returns_map() {
    let mut repo = Store::new();
    let t1 = repo.upsert_tag("nature", device());
    let t2 = repo.upsert_tag("urban", device());
    let t3 = repo.upsert_tag("night", device());
    let h1 = sample_hash();
    let h2 = sample_hash_2();
    repo.attach(&h1, t1.id, device());
    repo.attach(&h2, t2.id, device());
    repo.attach(&h1, t3.id, device());
    let list = repo.tags_for(&[h1, h2]);
    assert_eq!(list.len(), 2);
    let ids: Vec<Uuid> = tags_under(&list, &h1).iter().map(|t| t.id).collect();
    assert_eq!(ids.len(), 2);
    assert!(ids.contains(&t1.id) && ids.contains(&t3.id));
    assert_eq!(tags_under(&list, &h2)[0].id, t2.id);
}

#[test]
fn tags_for_hashes_empty_input_shortcircuits() {
    let repo = Store::new();
    assert!(tags_for_hashes_query(&Vec::new()).is_none());
    assert!(repo.tags_for(&[]).is_empty());
}

#[test]
fn tags_for_hashes_query_numbers_its_placeholders() {
    let hashes: Vec<BlakeHash> = (0..12u8).map(|i| BlakeHash::from_bytes([i; 32])).collect();
    let call = tags_for_hashes_query(&hashes).expect("query");
    assert!(call.sql.contains("IN (?1, ?2, ?3, ?4, ?5, ?6, ?7, ?8, ?9, ?10, ?11, ?12)"));
    assert_eq!(call.params.len(), 12);
    assert_eq!(call.params[11], SqlValue::Text("0b".repeat(32)));
}

#[test]
fn files_with_tag_returns_hashes() {
    let mut repo = Store::new();
    let tag = repo.upsert_tag("archive", device());
    let h1 = sample_hash();
    let h2 = sample_hash_2();
    repo.attach(&h1, tag.id, device());
    repo.attach(&h2, tag.id, device());
    let mut hashes = repo.files_with(tag.id);
    hashes.sort_by_key(BlakeHash::to_hex);
    assert_eq!(hashes, vec![h1, h2]);
}

#[test]
fn count_files_for_tag_is_o1() {
    let mut repo = Store::new();
    let tag = repo.upsert_tag("raw", device());
    repo.attach(&sample_hash(), tag.id, device());
    repo.attach(&sample_hash_2(), tag.id, device());
    assert_eq!(repo.count_with(tag.id), 2);
}

#[test]
fn delete_preserves_attachments() {
    let mut repo = Store::new();
    let tag = repo.upsert_tag("keep", device());
    let h = sample_hash();
    repo.attach(&h, tag.id, device());
    assert_eq!(repo.delete_tag(tag.id, device()), 1);
    assert_eq!(repo.delete_tag(tag.id, device()), 0);
    let count = repo.count("SELECT COUNT(*) FROM file_tags WHERE deleted_at IS NULL");
    assert_eq!(count, 1, "file_tags row must survive tag soft-delete");
    assert!(repo.tags_for(&[h]).is_empty(), "a retired tag is not shown");
}

#[test]
fn recreate_after_delete_yields_new_id() {
    let mut repo = Store::new();
    let t1 = repo.upsert_tag("temp", device());
    repo.delete_tag(t1.id, device());
    let t2 = repo.upsert_tag("temp", device());
    assert_ne!(t1.id, t2.id, "recreate after delete must yield a new id");
}

#[test]
fn tags_are_listed_by_name() {
    let mut repo = Store::new();
    for name in ["pear", "apple", "Mango"] {
        repo.upsert_tag(name, device());
    }
    let names: Vec<_> = repo.list_tags().into_iter().map(|t| t.name).collect();
    assert_eq!(names, vec!["apple", "mango", "pear"]);
}

// --- volumes ---

fn label_cap_ident(label: &str, cap: u64) -> VolumeIdentifiers {
    VolumeIdentifiers {
        gpt_partition_guid: None,
        fs_uuid: None,
        label: Some(label.to_owned()),
        capacity_bytes: cap,
        is_removable: false,
    }
}

#[test]
fn find_or_create_inserts_new() {
    let mut repo = Store::new();
    let vol_id =
        repo.find_or_create(&label_cap_ident("MY_DRIVE", 1_000_000), device()).expect("volume");
    assert_ne!(vol_id.0, Uuid::nil());
}

#[test]
fn find_or_create_matches_on_label_capacity() {
    let mut repo = Store::new();
    let dev = device();
    let ident = label_cap_ident("BACKUP_SSD", 2_000_000_000);
    let first = repo.find_or_create(&ident, dev).expect("first");
    let second = repo.find_or_create(&ident, dev).expect("second");
    assert_eq!(first, second, "same label+capacity must return the same VolumeId");
}

#[test]
fn find_or_create_guid_trumps_label() {
    let mut repo = Store::new();
    let dev = device();
    let ident_a = VolumeIdentifiers {
        gpt_partition_guid: Some("aaaa-bbbb".to_owned()),
        fs_uuid: None,
        label: Some("LABEL_A".to_owned()),
        capacity_bytes: 500_000,
        is_removable: false,
    };
    let vol_a = repo.find_or_create(&ident_a, dev).expect("insert A");
    let ident_b = label_cap_ident("LABEL_B", 300_000);
    let vol_b = repo.find_or_create(&ident_b, dev).expect("insert B");
    assert_ne!(vol_a, vol_b, "distinct volumes must have distinct ids");
    let ident_guid_a_label_b = VolumeIdentifiers {
        gpt_partition_guid: Some("aaaa-bbbb".to_owned()),
        fs_uuid: None,
        label: Some("LABEL_B".to_owned()),
        capacity_bytes: 300_000,
        is_removable: false,
    };
    let found = repo.find_or_create(&ident_guid_a_label_b, dev).expect("find by guid");
    assert_eq!(found, vol_a, "GUID arm must win over label+capacity");
}

#[test]
fn find_or_create_falls_back_arm_by_arm() {
    let mut repo = Store::new();
    let dev = device();
    let mut ident = label_cap_ident("L", 5);
    ident.fs_uuid = Some("fs-1".to_owned());
    let by_fs = repo.find_or_create(&ident, dev).expect("create");
    ident.gpt_partition_guid = Some("unknown".to_owned());
    ident.label = Some("OTHER".to_owned());
    assert_eq!(repo.find_or_create(&ident, dev), Ok(by_fs), "file-system UUID after GUID");
    ident.fs_uuid = Some("unknown".to_owned());
    ident.label = Some("L".to_owned());
    assert_eq!(repo.find_or_create(&ident, dev), Ok(by_fs), "label after both");
    ident.capacity_bytes = 6;
    assert_ne!(repo.find_or_create(&ident, dev), Ok(by_fs), "the capacity counts");
}

#[test]
fn capacity_beyond_the_column_is_refused() {
    let mut repo = Store::new();
    let dev = device();
    let refused =
        Err(CoreError::Internal("capacity 18446744073709551615 overflows i64".to_owned()));
    assert_eq!(repo.find_or_create(&label_cap_ident("BIG", u64::MAX), dev), refused);
    let mut ident = label_cap_ident("BIG", u64::MAX);
    ident.label = None;
    assert_eq!(repo.find_or_create(&ident, dev), refused);
    // A volume with a known GUID is found without looking at its capacity.
    ident.gpt_partition_guid = Some("g".to_owned());
    ident.capacity_bytes = 7;
    let known = repo.find_or_create(&ident, dev).expect("create");
    ident.capacity_bytes = u64::MAX;
    assert_eq!(repo.find_or_create(&ident, dev), Ok(known));
}

#[test]
fn known_volume_is_only_seen_again() {
    let mut repo = Store::new();
    let first = VolumeIdentifiers {
        gpt_partition_guid: Some("guid".to_owned()),
        fs_uuid: None,
        label: Some("OLD".to_owned()),
        capacity_bytes: 10,
        is_removable: false,
    };
    let id = repo.find_or_create(&first, device()).expect("make");
    let hlc = repo.count("SELECT hlc FROM volumes");
    let other = device();
    let again = VolumeIdentifiers {
        label: Some("NEW".to_owned()),
        capacity_bytes: u64::MAX,
        is_removable: true,
        ..first.clone()
    };
    assert_eq!(repo.find_or_create(&again, other), Ok(id));
    assert_eq!(repo.find_or_create(&again, other), Ok(id));
    assert_eq!(repo.count("SELECT COUNT(*) FROM volumes"), 1);
    assert_eq!(repo.text("SELECT volume_label FROM volumes"), Some("OLD".to_owned()));
    assert_eq!(repo.count("SELECT capacity_bytes FROM volumes"), 10);
    assert_eq!(repo.count("SELECT is_removable FROM volumes"), 0);
    assert_eq!(repo.text("SELECT device_id FROM volumes"), Some(other.0.to_hyphenated()));
    assert!(repo.count("SELECT hlc FROM volumes") > hlc);
    // A volume that is not known needs a capacity that can be stored.
    let huge = VolumeIdentifiers { gpt_partition_guid: Some("g2".to_owned()), ..again };
    assert!(matches!(repo.find_or_create(&huge, other), Err(CoreError::Internal(_))));
    assert_eq!(repo.count("SELECT COUNT(*) FROM volumes"), 1);
}

#[test]
fn lists_are_ordered_and_cut_off() {
    let mut repo = Store::new();
    let dev = device();
    let vol = VolumeId::new();
    for name in ["b", "\u{e9}", "a", "Z", "aa"] {
        repo.put(&sample_hashed_file(name.as_bytes(), name), vol, dev);
    }
    let paths = |n: usize| -> Vec<String> {
        repo.list(n, None).iter().map(|r| r.relative_path.as_str().to_owned()).collect()
    };
    assert_eq!(paths(10), vec!["Z", "a", "aa", "b", "\u{e9}"]);
    assert_eq!(paths(2), vec!["Z", "a"]);
    assert!(paths(0).is_empty());
    assert_eq!(repo.list_metadata(3, Some(vol)).len(), 3);
}

#[test]
fn corrupt_volume_id_is_reported() {
    let mut repo = Store::new();
    let dev = device();
    let ident = label_cap_ident("BAD", 1);
    repo.find_or_create(&ident, dev).expect("create");
    repo.conn.execute_batch("UPDATE volumes SET volume_id = 'junk'").expect("corrupt");
    let text = uuid::Uuid::parse_str("junk").unwrap_err().to_string();
    assert_eq!(
        repo.find_or_create(&ident, dev),
        Err(CoreError::Internal(format!("bad volume uuid: {text}")))
    );
}

#[test]
fn record_mount_inserts_new() {
    let mut repo = Store::new();
    let dev = device();
    let vol_id = repo.find_or_create(&label_cap_ident("MOUNT_TEST", 100_000), dev).expect("create");
    repo.mount(vol_id, dev, "/mnt/test");
    let records = repo.volumes(dev);
    assert_eq!(records.len(), 1);
    assert_eq!(records[0].mounts_on_this_machine, vec!["/mnt/test".to_owned()]);
}

#[test]
fn record_mount_unchanged_on_repeat() {
    let mut repo = Store::new();
    let dev = device();
    let vol_id =
        repo.find_or_create(&label_cap_ident("MOUNT_REPEAT", 200_000), dev).expect("create");
    repo.mount(vol_id, dev, "/mnt/repeat");
    repo.mount(vol_id, dev, "/mnt/repeat");
    assert_eq!(repo.volumes(dev)[0].mounts_on_this_machine.len(), 1);
}

#[test]
fn record_mount_retires_superseded_path() {
    let mut repo = Store::new();
    let dev = device();
    let vol_id = repo.find_or_create(&label_cap_ident("SUPERSEDE", 100_000), dev).expect("create");
    repo.mount(vol_id, dev, "/mnt/old");
    repo.mount(vol_id, dev, "/mnt/new");
    let records = repo.volumes(dev);
    assert_eq!(records.len(), 1, "exactly one volume record");
    assert_eq!(
        records[0].mounts_on_this_machine,
        vec!["/mnt/new".to_owned()],
        "only the current mount path must be active",
    );
    assert_eq!(repo.count("SELECT COUNT(*) FROM volume_mounts"), 2, "the old row is kept");
}

#[test]
fn record_mount_idempotent_on_same_path() {
    let mut repo = Store::new();
    let dev = device();
    let vol_id = repo.find_or_create(&label_cap_ident("IDEMPOTENT", 50_000), dev).expect("create");
    for _ in 0..3 {
        repo.mount(vol_id, dev, "/mnt/same");
    }
    let records = repo.volumes(dev);
    assert_eq!(records.len(), 1);
    assert_eq!(records[0].mounts_on_this_machine, vec!["/mnt/same".to_owned()]);
}

#[test]
fn record_mount_rejects_non_utf8_path() {
    let mut repo = Store::new();
    let dev = device();
    let vol_id = repo.find_or_create(&label_cap_ident("NONUTF8", 100_000), dev).expect("create");
    let err = repo
        .record_mount(vol_id, dev, &PathText::NotUtf8 {
            bytes: b"foo\xff".to_vec(),
            shown: "foo\u{fffd}".to_owned(),
        })
        .expect_err("non-utf8 must error");
    assert_eq!(
        err,
        CoreError::InvalidPath("mount path is not valid UTF-8: foo\u{fffd}".to_owned())
    );
}

#[test]
fn list_returns_volumes_with_mounts() {
    let mut repo = Store::new();
    let dev = device();
    let vol_id = repo.find_or_create(&label_cap_ident("LIST_TEST", 999_000), dev).expect("create");
    repo.mount(vol_id, dev, "/mnt/listtest");
    let records = repo.volumes(dev);
    assert_eq!(records.len(), 1);
    assert_eq!(records[0].id, vol_id);
    assert_eq!(records[0].label.as_deref(), Some("LIST_TEST"));
    assert_eq!(records[0].capacity_bytes, 999_000);
    assert_eq!(records[0].mounts_on_this_machine, vec!["/mnt/listtest".to_owned()]);
}

#[test]
fn mounts_of_other_machines_are_not_listed() {
    let mut repo = Store::new();
    let dev = device();
    let other = device();
    let vol = repo.find_or_create(&label_cap_ident("SHARED", 1), dev).expect("create");
    repo.mount(vol, dev, "/mnt/mine");
    repo.mount(vol, other, "/mnt/theirs");
    assert_eq!(repo.volumes(dev)[0].mounts_on_this_machine, vec!["/mnt/mine".to_owned()]);
    assert_eq!(repo.volumes(other)[0].mounts_on_this_machine, vec!["/mnt/theirs".to_owned()]);
    let third = repo.volumes(device());
    assert_eq!(third.len(), 1);
    assert!(third[0].mounts_on_this_machine.is_empty());
}

// --- cache ---

fn cache_key() -> CacheKey {
    CacheKey {
        device_id: device(),
        volume_id: VolumeId::new(),
        fs_file_id: -3,
        size_bytes: 42,
        mtime_ns: 7,
    }
}

#[test]
fn cache_entries_read_back_and_can_be_replaced() {
    let mut repo = Store::new();
    let key = cache_key();
    assert_eq!(repo.cached(&key), None);
    let first = CacheEntry { quick_hash: content_hash(b"q"), full_hash: None };
    repo.cache(&CacheWriteCmd::UpsertCacheRow { key, entry: first }).expect("insert");
    assert_eq!(repo.cached(&key), Some(first));
    let second =
        CacheEntry { quick_hash: content_hash(b"r"), full_hash: Some(content_hash(b"f")) };
    repo.cache(&CacheWriteCmd::UpsertCacheRow { key, entry: second }).expect("update");
    assert_eq!(repo.cached(&key), Some(second));
    assert_eq!(repo.count("SELECT COUNT(*) FROM file_identity_cache"), 1);
    let mut touched = key;
    touched.mtime_ns = 8;
    assert_eq!(repo.cached(&touched), None, "another modification time is another file");
}

#[test]
fn retired_cache_entries_are_gone_and_kept() {
    let mut repo = Store::new();
    let key = cache_key();
    let entry = CacheEntry { quick_hash: content_hash(b"q"), full_hash: None };
    repo.cache(&CacheWriteCmd::UpsertCacheRow { key, entry }).expect("insert");
    repo.cache(&CacheWriteCmd::SoftDeleteCacheRow { key }).expect("retire");
    assert_eq!(repo.cached(&key), None);
    repo.cache(&CacheWriteCmd::SoftDeleteCacheRow { key }).expect("retire again");
    repo.cache(&CacheWriteCmd::UpsertCacheRow { key, entry }).expect("insert again");
    assert_eq!(repo.cached(&key), Some(entry));
    assert_eq!(repo.count("SELECT COUNT(*) FROM file_identity_cache"), 2);
}

#[test]
fn oversized_cache_keys_are_refused() {
    let mut repo = Store::new();
    let mut key = cache_key();
    key.size_bytes = 1 << 63;
    let refused = CoreError::Internal("size_bytes 9223372036854775808 overflows i64".to_owned());
    assert_eq!(lookup_query(&key).unwrap_err(), refused);
    assert_eq!(
        repo.cache(&CacheWriteCmd::SoftDeleteCacheRow { key }).unwrap_err(),
        refused
    );
    let entry = CacheEntry { quick_hash: content_hash(b"q"), full_hash: None };
    assert_eq!(
        repo.cache(&CacheWriteCmd::UpsertCacheRow { key, entry }).unwrap_err(),
        refused
    );
}

// --- transcripts ---

fn transcript_of(segments: usize) -> TranscriptInsert {
    TranscriptInsert {
        transcript: TranscriptRow {
            id: TranscriptId::new(),
            file_uuid: Uuid(1).to_hyphenated(),
            backend: "groq:whisper".to_owned(),
            language: Some("en".to_owned()),
            duration_ms: 9000,
        },
        segments: (0..segments)
            .map(|i| {
                TranscriptSegmentRow::from(TranscriptSegment {
                    id: perima::ids::new_id(),
                    start_ms: i as u32 * 1000,
                    end_ms: i as u32 * 1000 + 900,
                    text: format!("words number{i}"),
                    confidence_bits: Some(0.5f32.to_bits()),
                })
            })
            .collect(),
        device: device().0.to_hyphenated(),
        request_uuid: "req-1".to_owned(),
    }
}

#[test]
fn transcripts_are_stored_with_their_segments() {
    let mut repo = Store::new();
    let cmd = transcript_of(3);
    assert_eq!(cmd.segments[0].transcript_id, TranscriptId(String::new()));
    let id = repo.transcript(&cmd, None).expect("insert");
    assert_eq!(id, cmd.transcript.id);
    assert_eq!(id.0.len(), 32);
    let parents = format!(
        "SELECT COUNT(*) FROM transcript_segment WHERE transcript_id = '{}' AND confidence = 0.5",
        id.0
    );
    assert_eq!(repo.count(&parents), 3);
    assert_eq!(
        repo.count(
            "SELECT COUNT(DISTINCT hlc) FROM
             (SELECT hlc FROM transcript UNION ALL SELECT hlc FROM transcript_segment)"
        ),
        1
    );
    assert_eq!(repo.events.len(), 2);
    match &repo.events[0] {
        AppEvent::TranscriptionCompleted {
            request_uuid,
            transcript_id,
            file_uuid,
            segment_count,
            language,
        } => {
            assert_eq!(request_uuid, "req-1");
            assert_eq!(transcript_id, &id.0);
            assert_eq!(file_uuid, "00000000-0000-0000-0000-000000000001");
            assert_eq!(*segment_count, 3);
            assert_eq!(language.as_deref(), Some("en"));
        }
        other => panic!("unexpected event {other:?}"),
    }
    assert_eq!(reasons(&repo), vec![InvalidationReason::SearchIndexRebuilt]);
    assert_eq!(
        repo.count("SELECT COUNT(*) FROM transcript_search WHERE transcript_search MATCH 'number1'"),
        1
    );
}

#[test]
fn cancelled_transcripts_leave_nothing() {
    for at in 0..4 {
        let mut repo = Store::new();
        let cmd = transcript_of(3);
        assert_eq!(
            repo.transcript(&cmd, Some(at)),
            Err(CoreError::Transcription(TranscriptionError::Cancelled)),
            "cancelled after {at} statements"
        );
        assert_eq!(repo.count("SELECT COUNT(*) FROM transcript"), 0);
        assert_eq!(repo.count("SELECT COUNT(*) FROM transcript_segment"), 0);
        assert!(repo.events.is_empty());
    }
    // Once every statement has run it is too late.
    let mut repo = Store::new();
    assert!(repo.transcript(&transcript_of(3), Some(4)).is_ok());
}

#[test]
fn transcript_ids_are_simple_and_fresh() {
    let a = TranscriptId::new();
    let b = TranscriptId::default();
    assert_ne!(a, b);
    assert!(a.0.chars().all(|c| c.is_ascii_hexdigit() && !c.is_ascii_uppercase()));
}

// --- search ---

#[test]
fn search_follows_files_metadata_and_tags() {
    let mut repo = Store::new();
    let dev = device();
    let vol = VolumeId::new();
    let f = sample_hashed_file(b"searchable", "holiday/beach.jpg");
    repo.put(&f, vol, dev);
    let hits = repo.search("beach");
    assert_eq!(hits.len(), 1);
    assert_eq!(hits[0].blake3_hash, Some(f.hash.to_hex()));
    assert_eq!(hits[0].volume_id, vol.0.to_hyphenated());
    assert_eq!(hits[0].file_uuid, repo.list(1, None)[0].file_uuid);

    repo.rename(vol, "holiday/beach.jpg", "holiday/dune.jpg", dev);
    assert!(repo.paths("beach").is_empty());
    assert_eq!(repo.paths("dune"), vec!["holiday/dune.jpg".to_owned()]);

    repo.upsert_metadata(&sample_metadata(f.hash), dev).expect("metadata");
    assert_eq!(repo.paths("EOS").len(), 1);

    let tag = repo.upsert_tag("sunset", dev);
    repo.attach(&f.hash, tag.id, dev);
    assert_eq!(repo.paths("sunset").len(), 1);
    repo.detach(&f.hash, tag.id, dev);
    assert!(repo.paths("sunset").is_empty());
    repo.attach(&f.hash, tag.id, dev);
    repo.delete_tag(tag.id, dev);
    assert!(repo.paths("sunset").is_empty());

    repo.set_status(vol, &MediaPath::new("holiday/dune.jpg"), LocationStatus::Missing, dev);
    repo.rows(FileWriteCmd::SoftDeleteMissingLocations { device: dev }).expect("prune");
    assert!(repo.paths("dune").is_empty());
}

#[test]
fn search_points_to_a_surviving_location() {
    let mut repo = Store::new();
    let dev = device();
    let vol = VolumeId::new();
    let f = sample_hashed_file(b"twice", "first.txt");
    repo.put(&f, vol, dev);
    repo.upsert_location(&f.hash, vol, &MediaPath::new("second.txt"), dev);
    repo.set_status(vol, &MediaPath::new("first.txt"), LocationStatus::Missing, dev);
    repo.rows(FileWriteCmd::SoftDeleteMissingLocations { device: dev }).expect("prune");
    assert!(repo.paths("first").is_empty());
    assert_eq!(repo.paths("second"), vec!["second.txt".to_owned()]);
}

#[test]
fn rebuild_makes_the_same_index() {
    let mut repo = Store::new();
    let dev = device();
    let vol = VolumeId::new();
    let f = sample_hashed_file(b"rebuild", "keep/me.txt");
    repo.put(&f, vol, dev);
    repo.upsert_metadata(&sample_metadata(f.hash), dev).expect("metadata");
    let tag = repo.upsert_tag("kept", dev);
    repo.attach(&f.hash, tag.id, dev);
    repo.conn.execute_batch("DELETE FROM search_content").expect("lose the index");
    assert!(repo.paths("keep").is_empty());
    repo.rebuild();
    for word in ["keep", "EOS", "kept"] {
        assert_eq!(repo.paths(word), vec!["keep/me.txt".to_owned()], "{word}");
    }
    repo.rebuild();
    assert_eq!(repo.search("keep").len(), 1);
}

#[test]
fn rebuild_keeps_one_row_for_each_hash() {
    let mut repo = Store::new();
    let dev = device();
    let (near, far) = (VolumeId::new(), VolumeId::new());
    let old = sample_hashed_file(b"old content", "changes.txt");
    let new = sample_hashed_file(b"new content", "changes.txt");
    let path = MediaPath::new("changes.txt");
    repo.put(&old, near, dev);
    repo.upsert_location(&old.hash, far, &MediaPath::new("copy_of_old.txt"), dev);
    // The content at the first path changes, and a copy of it appears elsewhere.
    repo.upsert_file(&new, dev);
    assert_eq!(repo.upsert_location(&new.hash, near, &path, dev), UpsertOutcome::Updated);
    repo.upsert_location(&new.hash, far, &MediaPath::new("copy_of_new.txt"), dev);
    let expected = vec![
        (old.hash.to_hex(), far.0.to_hyphenated(), "copy_of_old.txt".to_owned()),
        (new.hash.to_hex(), near.0.to_hyphenated(), "changes.txt".to_owned()),
    ];
    let found = |repo: &Store| {
        let mut hits: Vec<(String, String, String)> = repo
            .search("txt")
            .into_iter()
            .map(|h| (h.blake3_hash.expect("a hash"), h.volume_id, h.relative_path))
            .collect();
        hits.sort_by_key(|h| h.2 != "copy_of_old.txt");
        hits
    };
    assert_eq!(found(&repo), expected);
    repo.rebuild();
    assert_eq!(found(&repo), expected);
    // The identifiers are those of the lists.
    for hit in repo.search("txt") {
        let listed = repo.list(10, None);
        let same = listed
            .iter()
            .find(|r| r.relative_path.as_str() == hit.relative_path)
            .expect("listed");
        assert_eq!(same.file_uuid, hit.file_uuid);
    }
}

#[test]
fn hits_name_the_volume_of_their_path() {
    let mut repo = Store::new();
    let dev = device();
    let volumes: Vec<VolumeId> = (0..3).map(|_| VolumeId::new()).collect();
    let f = sample_hashed_file(b"spread", "spread_0.txt");
    repo.upsert_file(&f, dev);
    for (n, vol) in volumes.iter().enumerate() {
        repo.upsert_location(&f.hash, *vol, &MediaPath::new(&format!("spread_{n}.txt")), dev);
    }
    for (n, vol) in volumes.iter().enumerate() {
        repo.rebuild();
        let hits = repo.search("txt");
        assert_eq!(hits.len(), 1);
        assert_eq!(hits[0].relative_path, format!("spread_{n}.txt"));
        assert_eq!(hits[0].volume_id, vol.0.to_hyphenated());
        let path = MediaPath::new(&format!("spread_{n}.txt"));
        repo.set_status(*vol, &path, LocationStatus::Missing, dev);
        repo.rows(FileWriteCmd::SoftDeleteMissingLocations { device: dev }).expect("prune");
    }
    assert!(repo.search("txt").is_empty());
}

#[test]
fn files_without_full_hash_stay_searchable() {
    let mut repo = Store::new();
    let dev = device();
    let vol = VolumeId::new();
    repo.put(&sample_hashed_file(b"later", "later.txt"), vol, dev);
    repo.conn
        .execute_batch(
            "UPDATE files SET blake3_hash = NULL; UPDATE file_locations SET blake3_hash = NULL;",
        )
        .expect("clear");
    repo.rebuild();
    let hits = repo.search("later");
    assert_eq!(hits.len(), 1);
    assert_eq!(hits[0].blake3_hash, None);
    assert_eq!(hits[0].volume_id, vol.0.to_hyphenated());
}

// --- schema and manifest ---

#[test]
fn triggers_can_be_installed_again() {
    let repo = Store::new();
    let sql = render_fts_triggers();
    repo.conn.execute_batch(&sql).expect("second install");
    repo.conn.execute_batch(&sql).expect("third install");
    assert_eq!(repo.count("SELECT COUNT(*) FROM sqlite_master WHERE type = 'trigger'"), 18);
}

#[test]
fn legacy_triggers_are_dropped() {
    let repo = Store::new();
    repo.conn
        .execute_batch(
            "CREATE TRIGGER search_after_location_hash_change AFTER DELETE ON file_locations
             BEGIN SELECT 1; END;",
        )
        .expect("legacy");
    repo.conn.execute_batch(&render_fts_triggers()).expect("install");
    assert_eq!(
        repo.count(
            "SELECT COUNT(*) FROM sqlite_master
             WHERE name = 'search_after_location_hash_change'"
        ),
        0
    );
}

#[test]
fn triggers_of_one_table_render_alone() {
    let sql = render_for_source("tags");
    assert_eq!(sql.matches("CREATE TRIGGER ").count(), 3);
    assert_eq!(sql.matches(" ON tags").count(), 3);
    assert!(render_for_source("nothing").is_empty());
}

#[test]
fn write_manifest_updates_on_rerun() {
    let conn = Connection::open_in_memory().expect("open");
    let vol = VolumeId::new();
    let file1 = sample_hashed_file(b"hello", "original.txt");
    let write = |files: Vec<HashedFile>, now: &str| {
        conn.execute_batch(MANIFEST_TABLES).expect("tables");
        for s in write_manifest_inner(vol, &files, &now.to_owned()) {
            execute(&conn, &s.call()).expect("manifest");
        }
    };
    write(vec![file1.clone()], "t1");
    let mut file2 = file1.clone();
    file2.discovered.relative_path = MediaPath::new("renamed.txt");
    let mut huge = sample_hashed_file(b"huge", "huge.bin");
    huge.discovered.size = FileSize(u64::MAX);
    write(vec![file2, huge], "t2");
    let path: String = conn
        .query_row(
            "SELECT relative_path FROM manifest_files WHERE blake3_hash = ?1",
            [file1.hash.to_hex()],
            |row| row.get(0),
        )
        .expect("query");
    assert_eq!(path, "renamed.txt", "row must be updated to new path");
    let meta = |key: &str| -> String {
        conn.query_row("SELECT value FROM manifest_meta WHERE key = ?1", [key], |r| r.get(0))
            .expect("meta")
    };
    assert_eq!(meta("volume_id"), vol.0.to_hyphenated());
    assert_eq!(meta("manifest_version"), "1");
    assert_eq!(meta("created_at"), "t2");
    let largest: i64 = conn
        .query_row("SELECT MAX(file_size) FROM manifest_files", [], |r| r.get(0))
        .expect("size");
    assert_eq!(largest, i64::MAX);
}

#[test]
fn write_manifest_creates_db() {
    let conn = Connection::open_in_memory().expect("open");
    conn.execute_batch(MANIFEST_TABLES).expect("tables");
    let vol_id = VolumeId::new();
    for s in write_manifest_inner(vol_id, &Vec::new(), &"now".to_owned()) {
        execute(&conn, &s.call()).expect("write_manifest");
    }
    let vol_str: String = conn
        .query_row("SELECT value FROM manifest_meta WHERE key = 'volume_id'", [], |row| row.get(0))
        .expect("volume_id meta row");
    assert_eq!(vol_str, vol_id.0.to_hyphenated());
    let ver: String = conn
        .query_row("SELECT value FROM manifest_meta WHERE key = 'manifest_version'", [], |row| {
            row.get(0)
        })
        .expect("manifest_version meta row");
    assert_eq!(ver, "1");
}

#[test]
fn write_manifest_writes_files() {
    let conn = Connection::open_in_memory().expect("open");
    conn.execute_batch(MANIFEST_TABLES).expect("tables");
    let files = vec![
        sample_hashed_file(b"alpha", "a.txt"),
        sample_hashed_file(b"beta", "b.txt"),
        sample_hashed_file(b"gamma", "c.txt"),
    ];
    for s in write_manifest_inner(VolumeId::new(), &files, &"now".to_owned()) {
        execute(&conn, &s.call()).expect("manifest");
    }
    let count: i64 = conn
        .query_row("SELECT COUNT(*) FROM manifest_files", [], |row| row.get(0))
        .expect("count");
    assert_eq!(count, 3);
}

#[test]
fn clock_grows_with_every_command() {
    let mut clock = Hlc { ms: 0, counter: 0 };
    let mut last = -1;
    for _ in 0..1000 {
        let stamp = Stamp::take(&mut clock);
        assert!(stamp.hlc > last);
        assert_eq!(Hlc::unpack(stamp.hlc), clock);
        assert!(stamp.now.starts_with("20") && stamp.now.contains('T'));
        last = stamp.hlc;
    }
}

#[test]
fn writer_stops_on_shutdown_or_silence() {
    assert!(!WriteCmd::keeps_running(&None));
    assert!(!WriteCmd::keeps_running(&Some(WriteCmd::Shutdown)));
    let cmd = WriteCmd::File(FileWriteCmd::SoftDeleteMissingLocations { device: device() });
    assert!(WriteCmd::keeps_running(&Some(cmd)));
}

#[test]
fn command_tells_listeners_after_its_commit() {
    let mut s = Store::new();
    let file = sample_hashed_file(b"content", "a.txt");
    assert_eq!(s.upsert_file(&file, device()), UpsertOutcome::Inserted);
    assert_eq!(s.steps, ["begin", "find", "run", "commit", "close"]);
    let vol = VolumeId::new();
    assert_eq!(s.set_status(vol, &MediaPath::new("none"), LocationStatus::Missing, device()), 0);
    assert_eq!(s.steps, ["begin", "run", "commit", "close"]);
    assert_eq!(reasons(&s), [InvalidationReason::FilesChanged]);
}

#[test]
fn unchanged_file_is_committed_in_silence() {
    let mut s = Store::new();
    let file = sample_hashed_file(b"content", "a.txt");
    let dev = device();
    s.upsert_file(&file, dev);
    assert_eq!(s.upsert_file(&file, dev), UpsertOutcome::Unchanged);
    assert_eq!(s.steps, ["begin", "find", "commit", "close"]);
    assert_eq!(s.events.len(), 1);
}

#[test]
fn empty_batch_is_answered_at_once() {
    let mut s = Store::new();
    let none = s.rows(FileWriteCmd::UpdateLocationStatuses {
        updates: Vec::new(),
        device: device(),
    });
    assert_eq!(none, Ok(0));
    assert_eq!(s.steps, ["close"]);
    assert!(s.events.is_empty());
}

#[test]
fn failing_statement_rolls_the_batch_back() {
    let mut s = Store::new();
    let vol = VolumeId::new();
    let dev = device();
    s.put(&sample_hashed_file(b"one", "a.txt"), vol, dev);
    s.put(&sample_hashed_file(b"two", "b.txt"), vol, dev);
    s.events.clear();
    s.conn
        .execute_batch(
            "CREATE TRIGGER refuse BEFORE UPDATE ON file_locations
             WHEN NEW.relative_path = 'b.txt'
             BEGIN SELECT RAISE(ABORT, 'refused'); END;",
        )
        .expect("trigger");
    let update = |path: &str| LocationStatusUpdate {
        volume: vol,
        path: MediaPath::new(path),
        status: LocationStatus::Missing,
    };
    let reply = s.rows(FileWriteCmd::UpdateLocationStatuses {
        updates: vec![update("a.txt"), update("b.txt")],
        device: dev,
    });
    assert!(matches!(reply, Err(_)), "got {reply:?}");
    assert_eq!(s.steps, ["begin", "run", "run", "roll back", "close"]);
    assert!(s.events.is_empty());
    assert_eq!(s.count("SELECT COUNT(*) FROM file_locations WHERE status = 'active'"), 2);
}

#[test]
fn command_without_a_transaction_is_refused() {
    let mut s = Store::new();
    s.conn.execute_batch("BEGIN IMMEDIATE").expect("begin");
    let reply = s.rows(FileWriteCmd::SoftDeleteMissingLocations { device: device() });
    assert!(matches!(reply, Err(CoreError::Internal(_))), "got {reply:?}");
    assert_eq!(s.steps, ["begin", "close"]);
}

#[test]
fn oversized_file_is_rolled_back() {
    let mut s = Store::new();
    let mut file = sample_hashed_file(b"content", "a.txt");
    file.discovered.size = FileSize(u64::MAX);
    let reply =
        s.outcome(FileWriteCmd::UpsertFile { file, device: device(), quick_hash: None });
    assert_eq!(
        reply,
        Err(CoreError::Internal("file size 18446744073709551615 overflows i64".to_owned()))
    );
    assert_eq!(s.steps, ["begin", "roll back", "close"]);
    assert_eq!(s.count("SELECT COUNT(*) FROM files"), 0);
}

#[test]
fn failed_commit_is_no_success() {
    let mut clock = Hlc { ms: 0, counter: 0 };
    let cmd = FileWriteCmd::SoftDeleteMissingLocations { device: device() };
    let (job, begin) = Job::start(cmd, Stamp::take(&mut clock));
    assert_eq!(step_name(&begin), "begin");
    let (job, run) = job.report(Report::Done);
    assert_eq!(step_name(&run), "run");
    let (job, commit) = job.report(Report::Changed(3));
    assert_eq!(step_name(&commit), "commit");
    let full = SqliteError { kind: SqliteErrorKind::DiskFull, text: "disk full".to_owned() };
    let (job, undo) = job.report(Report::Failed(full));
    assert_eq!(step_name(&undo), "roll back");
    let (_, last) = job.report(Report::Done);
    match last {
        Action::Close { before, reply: FileReply::Rows(Err(CoreError::Internal(text))), after } => {
            assert!(before.is_empty() && after.is_empty());
            assert!(text.contains("disk full"), "got {text}");
        }
        other => panic!("got {other:?}"),
    }
}

#[test]
fn refused_commands_begin_no_transaction() {
    let mut s = Store::new();
    let key = CacheKey {
        device_id: device(),
        volume_id: VolumeId::new(),
        fs_file_id: 1,
        size_bytes: u64::MAX,
        mtime_ns: 1,
    };
    assert_eq!(
        s.cache(&CacheWriteCmd::SoftDeleteCacheRow { key }),
        Err(CoreError::Internal("size_bytes 18446744073709551615 overflows i64".to_owned()))
    );
    assert_eq!(s.steps, ["close"]);
    let mount = PathText::NotUtf8 { bytes: b"/mnt/\xff".to_vec(), shown: "/mnt/?".to_owned() };
    assert_eq!(
        s.record_mount(VolumeId::new(), device(), &mount),
        Err(CoreError::InvalidPath("mount path is not valid UTF-8: /mnt/?".to_owned()))
    );
    assert_eq!(s.steps, ["close"]);
}

#[test]
fn volume_is_looked_for_by_one_identifier_after_the_other() {
    let mut s = Store::new();
    let ident = VolumeIdentifiers {
        gpt_partition_guid: Some("guid".to_owned()),
        fs_uuid: Some("fs".to_owned()),
        label: Some("label".to_owned()),
        capacity_bytes: 10,
        is_removable: false,
    };
    let made = s.find_or_create(&ident, device()).expect("make");
    assert_eq!(s.steps, ["begin", "find", "find", "find", "run", "commit", "close"]);
    assert_eq!(s.find_or_create(&ident, device()), Ok(made));
    assert_eq!(s.steps, ["begin", "find", "run", "commit", "close"]);
}

#[test]
fn rebuild_tells_listeners_even_of_an_empty_index() {
    let mut s = Store::new();
    s.rebuild();
    assert_eq!(s.steps, ["begin", "run", "run", "commit", "close"]);
    assert_eq!(reasons(&s), [InvalidationReason::SearchIndexRebuilt]);
}

#[test]
fn transcript_is_announced_after_its_answer() {
    let mut clock = Hlc { ms: 0, counter: 0 };
    let cmd = transcript_of(1);
    let id = cmd.transcript.id.clone();
    let (job, _) = Job::start(cmd, Stamp::take(&mut clock));
    let (job, _) = job.report(Report::Done);
    let (job, _) = job.report(Report::Changed(1));
    let (job, commit) = job.report(Report::Changed(1));
    assert_eq!(step_name(&commit), "commit");
    match job.report(Report::Done).1 {
        Action::Close { before, reply, after } => {
            assert!(before.is_empty());
            assert_eq!(reply, Ok(id));
            assert_eq!(after.len(), 2);
        }
        other => panic!("got {other:?}"),
    }
}
