//! What stored rows mean, and how faults in them are reported.
use perima::db::cmd::WriteCmd;
use perima::db::convert::{
    capacity_to_i64, i64_to_count, i64_to_size, i64_to_u32_opt, i64_to_u64_opt, limit_to_i64,
    parse_file_uuid, parse_optional_hash, size_to_i64, status_from_str, status_to_str,
    str_to_status, u64_to_i64,
};
use perima::db::errors::{Error, SqliteError, SqliteErrorKind};
use perima::db::file_repo::{
    list_file_locations_query, list_file_locations_sql, list_files_needing_backfill_sql,
    list_files_pending_full_hash_sql, list_locations_for_verify_sql,
    list_quick_hash_collisions_sql, lookup_by_file_uuid_sql, BackfillRow, FileByUuidRow, GroupRows,
    LocationRow, VerifyRow,
};
use perima::db::identity_cache_repo::{lookup, CacheRow};
use perima::db::metadata_repo::{
    find_by_hash, list_with_metadata, LocationMetadataRow, MetadataColumns,
};
use perima::db::schema::spec::{
    fts_aggregations, legacy_trigger_names, BodyKind, FtsAggregation, TriggerEvent, RENAME_GUARD,
};
use perima::db::schema::{
    body_kind_name, create_statement_with, install_failed, render_fts_triggers, render_internal,
    FTS_TEMPLATE,
};
use perima::db::search_repo::{search_impl, SearchRow};
use perima::db::sql::{sum_counts, SqlValue, Stamp};
use perima::db::tag_repo::{files_with_tag, list_tags, tags_for_hashes, HashTagRow, TagRow};
use perima::db::volume_repo::{list as list_volumes, VolumeRow};
use perima::db::writer::backup::{
    backup_not_answered, backup_not_sent, size_unknown, BackupWriteCmd,
};
use perima::db::writer::cache::CacheWriteCmd;
use perima::db::writer::file::{
    upsert_file_impl, upsert_location_impl, ExistingFile, ExistingLocation, FileAnswer, FileFound,
    FilePlan, FileReply, FileStatement, FileWriteCmd,
};
use perima::db::writer::metadata::MetadataWriteCmd;
use perima::db::writer::search::{rebuild_event, SearchWriteCmd};
use perima::db::writer::tag::{upsert_tag_impl, ExistingTag, TagWriteCmd};
use perima::db::writer::transcript::{writer_disconnected, writer_reply_lost};
use perima::db::writer::volume::VolumeWriteCmd;
use perima::errors::BackupFailureReason;
use perima::ids::Uuid;
use perima::{
    AppEvent, BlakeHash, CacheEntry, CacheKey, CoreError, DeviceId, DiscoveredFile, FileSize,
    FileUuid, HashedFile, InvalidationReason, LocationStatus, MediaPath, MountedPath,
    PathText, UpsertOutcome, VolumeId, VolumeIdentifiers,
};

fn internal(text: &str) -> CoreError {
    CoreError::Internal(text.to_owned())
}

fn parse_text(s: &str) -> String {
    uuid::Uuid::parse_str(s).unwrap_err().to_string()
}

fn good_row() -> LocationRow {
    LocationRow {
        file_uuid: Uuid(7).to_hyphenated(),
        hash: Some("0a".repeat(32)),
        size: 12,
        volume: Uuid(8).to_hyphenated(),
        path: "\\dir\\a.txt".to_owned(),
        status: "stale".to_owned(),
        first_seen: "then".to_owned(),
    }
}

// --- conversions ---

#[test]
fn statuses_round_trip() {
    for status in [
        LocationStatus::Active,
        LocationStatus::Missing,
        LocationStatus::Moved,
        LocationStatus::Stale,
    ] {
        assert_eq!(status_from_str(status_to_str(status)), Ok(status));
        assert_eq!(str_to_status(status_to_str(status)), status);
    }
    assert_eq!(status_to_str(LocationStatus::Moved), "moved");
    assert_eq!(str_to_status("odd"), LocationStatus::Active);
    assert_eq!(status_from_str("odd"), Err(internal("unknown location status: odd")));
    assert_eq!(status_from_str("Active"), Err(internal("unknown location status: Active")));
}

#[test]
fn numbers_fit_or_are_refused() {
    assert_eq!(size_to_i64(FileSize(i64::MAX as u64)), Ok(i64::MAX));
    assert_eq!(
        size_to_i64(FileSize(1 << 63)),
        Err(internal("file size 9223372036854775808 overflows i64"))
    );
    assert_eq!(capacity_to_i64(5), Ok(5));
    assert_eq!(
        capacity_to_i64(1 << 63),
        Err(internal("capacity 9223372036854775808 overflows i64"))
    );
    assert_eq!(u64_to_i64(1 << 63, "x"), Err(internal("x 9223372036854775808 overflows i64")));
    assert_eq!(i64_to_size(9), Ok(FileSize(9)));
    assert_eq!(
        i64_to_size(i64::MIN),
        Err(internal("stored file_size -9223372036854775808 is negative"))
    );
    assert_eq!(i64_to_count(0), Ok(0));
    assert_eq!(i64_to_count(-10), Err(internal("count -10 is negative")));
    assert_eq!(limit_to_i64(10), 10);
    assert_eq!(limit_to_i64(usize::MAX), i64::MAX);
    assert_eq!(i64_to_u32_opt(None), Ok(None));
    assert_eq!(i64_to_u32_opt(Some(u32::MAX as i64)), Ok(Some(u32::MAX)));
    assert_eq!(
        i64_to_u32_opt(Some(1 << 32)),
        Err(internal("stored u32 column value 4294967296 out of range"))
    );
    assert_eq!(
        i64_to_u32_opt(Some(-1)),
        Err(internal("stored u32 column value -1 out of range"))
    );
    assert_eq!(i64_to_u64_opt(Some(3)), Ok(Some(3)));
    assert_eq!(
        i64_to_u64_opt(Some(-3)),
        Err(internal("stored u64 column value -3 out of range"))
    );
    assert_eq!(sum_counts(&vec![1, 0, 41]), 42);
}

#[test]
fn identifiers_and_hashes_are_parsed() {
    assert_eq!(parse_file_uuid(&Uuid(9).to_hyphenated()), Ok(FileUuid(Uuid(9))));
    assert_eq!(
        parse_file_uuid("nope"),
        Err(internal(&format!("bad file_uuid: {}", parse_text("nope"))))
    );
    assert_eq!(parse_optional_hash(&None), Ok(None));
    assert_eq!(
        parse_optional_hash(&Some("ff".repeat(32))),
        Ok(Some(BlakeHash::from_bytes([0xff; 32])))
    );
    assert_eq!(
        parse_optional_hash(&Some("ff".to_owned())),
        Err(CoreError::InvalidHash("expected 64 chars, got 2".to_owned()))
    );
}

#[test]
fn database_errors_are_sorted() {
    let e = |kind| {
        CoreError::from(Error::Rusqlite(SqliteError { kind, text: "boom".to_owned() }))
    };
    let text = || "rusqlite: boom".to_owned();
    assert_eq!(e(SqliteErrorKind::QueryReturnedNoRows), CoreError::NotFound(text()));
    assert_eq!(e(SqliteErrorKind::ConstraintViolation), CoreError::Duplicate(text()));
    assert_eq!(e(SqliteErrorKind::DiskFull), CoreError::Internal(text()));
    assert_eq!(e(SqliteErrorKind::CannotOpen), CoreError::Internal(text()));
    assert_eq!(e(SqliteErrorKind::Other), CoreError::Internal(text()));
    assert_eq!(
        CoreError::from(Error::Refinery("v9".to_owned())),
        internal("migration: v9")
    );
    assert_eq!(
        CoreError::from(Error::AppLevelDuplicate("tag".to_owned())),
        CoreError::Duplicate("app-level duplicate: tag".to_owned())
    );
}

// --- lists of locations ---

#[test]
fn location_rows_are_read() {
    let out = list_file_locations_sql(&vec![good_row()]).expect("list");
    assert_eq!(out.len(), 1);
    assert_eq!(out[0].file_uuid, FileUuid(Uuid(7)));
    assert_eq!(out[0].hash, Some(BlakeHash::from_bytes([0x0a; 32])));
    assert_eq!(out[0].size, FileSize(12));
    assert_eq!(out[0].volume_id, VolumeId(Uuid(8)));
    assert_eq!(out[0].relative_path.as_str(), "dir/a.txt");
    assert_eq!(out[0].status, LocationStatus::Stale);
    assert_eq!(out[0].first_seen, "then");
    let mut pending = good_row();
    pending.hash = None;
    assert_eq!(list_file_locations_sql(&vec![pending]).expect("list")[0].hash, None);
}

#[test]
fn the_first_fault_of_the_first_bad_row_is_reported() {
    let list = |row: LocationRow| {
        let mut later = good_row();
        later.status = "later".to_owned();
        list_file_locations_sql(&vec![good_row(), row, later]).unwrap_err()
    };
    let mut row = good_row();
    row.size = -1;
    assert_eq!(list(row.clone()), internal("stored file_size -1 is negative"));
    row.status = "lost".to_owned();
    assert_eq!(list(row.clone()), internal("unknown location status: lost"));
    row.volume = "vol".to_owned();
    assert_eq!(
        list(row.clone()),
        internal(&format!("bad volume uuid: {}", parse_text("vol")))
    );
    row.hash = Some("zz".to_owned());
    assert_eq!(
        list(row.clone()),
        CoreError::InvalidHash("expected 64 chars, got 2".to_owned())
    );
    row.file_uuid = String::new();
    assert_eq!(list(row), internal(&format!("bad file_uuid: {}", parse_text(""))));
}

#[test]
fn location_queries_bind_volume_and_limit() {
    let all = list_file_locations_query(usize::MAX, None);
    assert_eq!(all.params, vec![SqlValue::Int(i64::MAX)]);
    assert!(!all.sql.contains("fl.volume_id = ?"));
    let some = list_file_locations_query(3, Some(VolumeId(Uuid(8))));
    assert_eq!(
        some.params,
        vec![SqlValue::Text(Uuid(8).to_hyphenated()), SqlValue::Int(3)]
    );
    assert!(some.sql.contains("fl.volume_id = ?1"));
}

#[test]
fn backfill_rows_tolerate_negative_sizes() {
    let row = |mount: Option<&str>, path: Option<&str>| BackfillRow {
        hash: "0b".repeat(32),
        size: -5,
        mount: mount.map(str::to_owned),
        path: path.map(str::to_owned),
    };
    let out = list_files_needing_backfill_sql(&vec![
        row(Some("/m"), Some("p")),
        row(None, Some("p")),
        row(Some("/m"), None),
    ])
    .expect("list");
    assert_eq!(out[0].size_bytes, 0);
    assert_eq!(
        out[0].active_path,
        Some(MountedPath { mount: "/m".to_owned(), relative: "p".to_owned() })
    );
    assert_eq!(out[1].active_path, None);
    assert_eq!(out[2].active_path, None);
    let mut bad = row(None, None);
    bad.hash = "0B".repeat(32);
    assert_eq!(
        list_files_needing_backfill_sql(&vec![row(None, None), bad]).unwrap_err(),
        CoreError::InvalidHash("invalid char at 1".to_owned())
    );
}

#[test]
fn lookups_by_uuid_check_before_they_tell_nothing() {
    let row = |size: i64| {
        Some(FileByUuidRow { hash: None, size, mount: Some("/m".to_owned()), path: None })
    };
    assert_eq!(lookup_by_file_uuid_sql(&None), Ok(None));
    assert_eq!(lookup_by_file_uuid_sql(&row(1)), Ok(None));
    assert_eq!(
        lookup_by_file_uuid_sql(&row(-1)),
        Err(internal("stored file_size -1 is negative"))
    );
}

#[test]
fn verify_rows_count_what_is_left_out() {
    let row = |volume: &str| VerifyRow {
        volume: volume.to_owned(),
        path: "p".to_owned(),
        status: "odd".to_owned(),
        mount: "/m".to_owned(),
    };
    let id = Uuid(3).to_hyphenated();
    let rows = vec![row(&id), row(&id)];
    for (total, skipped) in [(5, 3), (2, 0), (1, 0), (-1, 0)] {
        let c = list_locations_for_verify_sql(&rows, total).expect("list");
        assert_eq!(c.skipped_unmounted, skipped);
        assert_eq!(c.locations[1].status, LocationStatus::Active);
    }
    assert_eq!(
        list_locations_for_verify_sql(&vec![row(&id), row("x")], 2).unwrap_err(),
        internal(&format!("parse volume_id: {}", parse_text("x")))
    );
}

#[test]
fn pending_rows_are_identifiers() {
    let id = Uuid(4).to_hyphenated();
    assert_eq!(
        list_files_pending_full_hash_sql(&vec![id.clone()]),
        Ok(vec![FileUuid(Uuid(4))])
    );
    assert_eq!(
        list_files_pending_full_hash_sql(&vec![id, "y".to_owned()]),
        Err(internal(&format!("bad file_uuid: {}", parse_text("y"))))
    );
}

#[test]
fn collision_groups_report_the_first_fault() {
    let q = "0c".repeat(32);
    let sound = GroupRows { quick_hash: q.clone(), rows: vec![good_row()] };
    let empty = GroupRows { quick_hash: q.clone(), rows: Vec::new() };
    let out = list_quick_hash_collisions_sql(&vec![empty.clone(), sound.clone()]).expect("list");
    assert_eq!(out.len(), 1);
    assert_eq!(out[0].files.len(), 1);
    let mut bad_hash = sound.clone();
    bad_hash.quick_hash = "q".to_owned();
    let mut bad_row = sound.clone();
    bad_row.rows[0].status = "gone".to_owned();
    assert_eq!(
        list_quick_hash_collisions_sql(&vec![sound.clone(), bad_row.clone(), bad_hash.clone()])
            .unwrap_err(),
        internal("unknown location status: gone")
    );
    assert_eq!(
        list_quick_hash_collisions_sql(&vec![bad_hash, bad_row]).unwrap_err(),
        CoreError::InvalidHash("expected 64 chars, got 1".to_owned())
    );
}

// --- other rows ---

fn columns() -> MetadataColumns {
    MetadataColumns {
        width: Some(1),
        height: None,
        duration_ms: Some(3),
        captured_at: None,
        camera_make: Some("m".to_owned()),
        camera_model: None,
        codec: Some("c".to_owned()),
        bitrate_bps: Some(4),
        mime_type: None,
        thumbnail_path: Some("t".to_owned()),
        thumbnail_status: None,
    }
}

#[test]
fn metadata_columns_are_read_in_order() {
    let hash = BlakeHash::from_bytes([1; 32]);
    assert_eq!(find_by_hash(&hash, &None), Ok(None));
    let m = find_by_hash(&hash, &Some(columns())).expect("find").expect("present");
    assert_eq!(m.hash, hash);
    assert_eq!((m.width, m.height, m.duration_ms, m.bitrate_bps), (Some(1), None, Some(3), Some(4)));
    assert_eq!(m.camera_make.as_deref(), Some("m"));
    assert_eq!(m.codec.as_deref(), Some("c"));
    assert_eq!(m.thumbnail_path.as_deref(), Some("t"));
    let mut bad = columns();
    bad.bitrate_bps = Some(-4);
    let err = |c: &MetadataColumns| find_by_hash(&hash, &Some(c.clone())).unwrap_err();
    assert_eq!(err(&bad), internal("stored u32 column value -4 out of range"));
    bad.duration_ms = Some(-3);
    assert_eq!(err(&bad), internal("stored u64 column value -3 out of range"));
    bad.height = Some(1 << 40);
    assert_eq!(err(&bad), internal("stored u32 column value 1099511627776 out of range"));
    bad.width = Some(-1);
    assert_eq!(err(&bad), internal("stored u32 column value -1 out of range"));
}

#[test]
fn absent_metadata_is_not_looked_at() {
    let mut bad = columns();
    bad.width = Some(-1);
    let row = |updated: Option<&str>| LocationMetadataRow {
        location: good_row(),
        updated_at: updated.map(str::to_owned),
        columns: bad.clone(),
        quick_hash: Some("q".to_owned()),
    };
    let out = list_with_metadata(&vec![row(None)]).expect("list");
    assert!(out[0].1.is_none());
    assert_eq!(out[0].2.as_deref(), Some("q"));
    assert_eq!(
        list_with_metadata(&vec![row(None), row(Some("t"))]).unwrap_err(),
        internal("stored u32 column value -1 out of range")
    );
}

#[test]
fn volume_rows_are_merged() {
    let row = |id: u128, mount: Option<&str>, label: &str| VolumeRow {
        volume: Uuid(id).to_hyphenated(),
        label: Some(label.to_owned()),
        capacity: 10,
        removable: 2,
        last_seen: "s".to_owned(),
        mount: mount.map(str::to_owned),
    };
    let out = list_volumes(&vec![
        row(2, Some("/a"), "first"),
        row(1, None, "lone"),
        row(2, Some("/b"), "second"),
        row(2, None, "third"),
    ])
    .expect("list");
    assert_eq!(out.len(), 2);
    assert_eq!(out[0].id, VolumeId(Uuid(2)));
    assert_eq!(out[0].label.as_deref(), Some("first"));
    assert_eq!(out[0].mounts_on_this_machine, vec!["/a".to_owned(), "/b".to_owned()]);
    assert!(out[0].is_removable);
    assert_eq!(out[1].id, VolumeId(Uuid(1)));
    assert!(out[1].mounts_on_this_machine.is_empty());
    let mut bad = row(3, None, "x");
    bad.capacity = -7;
    assert_eq!(
        list_volumes(&vec![row(1, None, "ok"), bad.clone()]).unwrap_err(),
        internal("stored capacity -7 is negative")
    );
    bad.volume = "v".to_owned();
    assert_eq!(
        list_volumes(&vec![bad]).unwrap_err(),
        internal(&format!("bad volume uuid: {}", parse_text("v")))
    );
}

#[test]
fn tag_rows_report_faults() {
    let tag = |id: &str| TagRow {
        id: id.to_owned(),
        name: "n".to_owned(),
        first_seen: "s".to_owned(),
    };
    let id = Uuid(6).to_hyphenated();
    let bad_uuid = internal(&format!("invalid uuid in db: {}", parse_text("t")));
    assert_eq!(list_tags(&vec![tag(&id)]).expect("list")[0].id, Uuid(6));
    assert_eq!(list_tags(&vec![tag(&id), tag("t")]).unwrap_err(), bad_uuid);
    let link = |hash: &str, id: &str| HashTagRow { hash: hash.to_owned(), tag: tag(id) };
    let good = "0d".repeat(32);
    assert_eq!(tags_for_hashes(&vec![link(&good, "t")]).unwrap_err(), bad_uuid);
    let bad_hash = internal("invalid hash in db: invalid hash hex: expected 64 chars, got 1");
    assert_eq!(tags_for_hashes(&vec![link("h", "t")]).unwrap_err(), bad_hash);
    assert_eq!(files_with_tag(&vec![good, "h".to_owned()]).unwrap_err(), bad_hash);
    let stamp = stamp();
    let existing = Some(ExistingTag { id: "t".to_owned(), first_seen: "s".to_owned() });
    assert_eq!(
        upsert_tag_impl(&"n".to_owned(), DeviceId(Uuid(1)), &stamp, &existing).unwrap_err(),
        bad_uuid
    );
}

#[test]
fn cache_rows_report_faults() {
    assert_eq!(lookup(&None), Ok(None));
    let row = |q: &str, f: Option<&str>| {
        Some(CacheRow { quick_hash: q.to_owned(), full_hash: f.map(str::to_owned) })
    };
    let good = "0e".repeat(32);
    assert_eq!(
        lookup(&row(&good, None)),
        Ok(Some(CacheEntry { quick_hash: BlakeHash::from_bytes([0x0e; 32]), full_hash: None }))
    );
    assert_eq!(
        lookup(&row(&good, Some("short"))),
        Err(CoreError::InvalidHash("expected 64 chars, got 5".to_owned()))
    );
    assert_eq!(
        lookup(&row("ab", Some("short"))),
        Err(CoreError::InvalidHash("expected 64 chars, got 2".to_owned()))
    );
}

#[test]
fn search_rows_report_faults() {
    let row = |id: &str| SearchRow {
        file_uuid: id.to_owned(),
        hash: None,
        volume: String::new(),
        path: "p".to_owned(),
        rank_bits: (-1.5f64).to_bits(),
    };
    let out = search_impl(&vec![row(&Uuid(2).to_hyphenated())]).expect("hits");
    assert_eq!(out[0].file_uuid, FileUuid(Uuid(2)));
    assert_eq!(f64::from_bits(out[0].rank_bits), -1.5);
    assert_eq!(
        search_impl(&vec![row("s")]).unwrap_err(),
        internal(&format!("bad file_uuid: {}", parse_text("s")))
    );
}

// --- plans ---

fn stamp() -> Stamp {
    Stamp { now: "now".to_owned(), hlc: 77, fresh: Uuid(100) }
}

fn file() -> HashedFile {
    HashedFile {
        discovered: DiscoveredFile {
            absolute_path: PathText::Utf8("/x".to_owned()),
            relative_path: MediaPath::new("p"),
            size: FileSize(5),
        },
        hash: BlakeHash::from_bytes([9; 32]),
    }
}

#[test]
fn file_plans_carry_the_stamp() {
    let dev = DeviceId(Uuid(1));
    let plan = upsert_file_impl(&file(), dev, &None, &stamp(), &None).expect("plan");
    assert_eq!(plan.answer, FileAnswer::Outcome(UpsertOutcome::Inserted));
    assert_eq!(plan.statements.len(), 1);
    let call = plan.statements[0].call();
    assert_eq!(
        call.params,
        vec![
            SqlValue::Text("09".repeat(32)),
            SqlValue::Text(Uuid(100).to_hyphenated()),
            SqlValue::Int(5),
            SqlValue::Null,
            SqlValue::Text("now".to_owned()),
            SqlValue::Text(Uuid(1).to_hyphenated()),
            SqlValue::Int(77),
        ]
    );
    let row = |device: u128, quick_hash: Option<&str>| {
        Some(ExistingFile {
            size: 5,
            device: Uuid(device).to_hyphenated(),
            quick_hash: quick_hash.map(str::to_owned),
        })
    };
    let same = row(1, None);
    let plan = upsert_file_impl(&file(), dev, &None, &stamp(), &same).expect("plan");
    assert_eq!(plan.answer, FileAnswer::Outcome(UpsertOutcome::Unchanged));
    assert!(plan.statements.is_empty());
    let other = row(2, None);
    let plan = upsert_file_impl(&file(), dev, &None, &stamp(), &other).expect("plan");
    assert_eq!(plan.answer, FileAnswer::Outcome(UpsertOutcome::Updated));
    // A quick hash is filled in where there is none.
    let quick = Some(BlakeHash::from_bytes([8; 32]));
    let plan = upsert_file_impl(&file(), dev, &quick, &stamp(), &same).expect("plan");
    assert_eq!(plan.answer, FileAnswer::Outcome(UpsertOutcome::Updated));
    assert_eq!(plan.statements.len(), 1);
    let full = row(1, Some("q"));
    let plan = upsert_file_impl(&file(), dev, &quick, &stamp(), &full).expect("plan");
    assert_eq!(plan.answer, FileAnswer::Outcome(UpsertOutcome::Unchanged));
    assert!(plan.statements.is_empty());
}

#[test]
fn location_plans_compare_hash_and_device() {
    let dev = DeviceId(Uuid(1));
    let hash = BlakeHash::from_bytes([9; 32]);
    let path = MediaPath::new("p");
    let row = |hash: &str, device: u128| {
        Some(ExistingLocation {
            id: "row".to_owned(),
            hash: Some(hash.to_owned()),
            device: Uuid(device).to_hyphenated(),
        })
    };
    let answer = |existing: &Option<ExistingLocation>| {
        upsert_location_impl(&hash, VolumeId(Uuid(2)), &path, dev, &stamp(), existing)
    };
    assert_eq!(answer(&None).answer, FileAnswer::Outcome(UpsertOutcome::Inserted));
    assert!(answer(&row(&"09".repeat(32), 1)).statements.is_empty());
    let plan = answer(&row(&"09".repeat(32), 3));
    assert_eq!(plan.answer, FileAnswer::Outcome(UpsertOutcome::Updated));
    match &plan.statements[0] {
        FileStatement::UpdateLocationHash { id, hlc, .. } => {
            assert_eq!(id, "row");
            assert_eq!(*hlc, 77);
        }
        other => panic!("unexpected statement {other:?}"),
    }
}

#[test]
fn row_counts_beyond_the_column_are_refused() {
    let plan = FilePlan { answer: FileAnswer::SignedRows, statements: Vec::new() };
    match plan.reply(&vec![1, 1 << 63]) {
        FileReply::Rows(Err(e)) => {
            assert_eq!(e, internal("rows_changed 9223372036854775808 too large"))
        }
        other => panic!("unexpected reply {other:?}"),
    }
    match plan.reply(&vec![1, 2]) {
        FileReply::Rows(Ok(n)) => assert_eq!(n, 3),
        other => panic!("unexpected reply {other:?}"),
    }
}

#[test]
fn failed_commands_are_not_told() {
    let cmd = FileWriteCmd::UpsertFile {
        file: file(),
        device: DeviceId(Uuid(1)),
        quick_hash: None,
    };
    let reply = cmd.refuse(internal("x"));
    assert!(matches!(reply, FileReply::Outcome(Err(_))));
    assert!(cmd.event(&reply).is_none());
    let rows = FileWriteCmd::SoftDeleteMissingLocations { device: DeviceId(Uuid(1)) };
    assert!(rows.event(&FileReply::Rows(Ok(0))).is_none());
    assert!(matches!(
        rows.event(&FileReply::Rows(Ok(1))),
        Some(AppEvent::IndexInvalidated { reason: InvalidationReason::FilesChanged })
    ));
    let found = FileFound { file: None, location: None, collision: None };
    assert_eq!(cmd.plan(&stamp(), &found).expect("plan").statements.len(), 1);
    assert!(rebuild_event(&Err(internal("x"))).is_none());
    assert!(matches!(
        rebuild_event(&Ok(())),
        Some(AppEvent::IndexInvalidated { reason: InvalidationReason::SearchIndexRebuilt })
    ));
}

#[test]
fn commands_have_names() {
    let key = CacheKey {
        device_id: DeviceId(Uuid(1)),
        volume_id: VolumeId(Uuid(2)),
        fs_file_id: 1,
        size_bytes: 1,
        mtime_ns: 1,
    };
    let entry = CacheEntry { quick_hash: BlakeHash::from_bytes([0; 32]), full_hash: None };
    let device = DeviceId(Uuid(1));
    for (cmd, name) in [
        (
            WriteCmd::Volume(VolumeWriteCmd::FindOrCreate {
                identifiers: VolumeIdentifiers {
                    gpt_partition_guid: None,
                    fs_uuid: None,
                    label: None,
                    capacity_bytes: 0,
                    is_removable: false,
                },
                device,
            }),
            "volume",
        ),
        (WriteCmd::Tag(TagWriteCmd::DeleteTag { tag_id: Uuid(1), device }), "tag"),
        (
            WriteCmd::Metadata(MetadataWriteCmd::UpdateThumbnail {
                hash: BlakeHash::from_bytes([0; 32]),
                path: None,
                status: "s".to_owned(),
                device,
            }),
            "metadata",
        ),
        (WriteCmd::File(FileWriteCmd::SoftDeleteMissingLocations { device }), "file"),
        (WriteCmd::Search(SearchWriteCmd::Rebuild), "search"),
        (WriteCmd::Cache(CacheWriteCmd::UpsertCacheRow { key, entry }), "upsert_cache_row"),
        (WriteCmd::Cache(CacheWriteCmd::SoftDeleteCacheRow { key }), "soft_delete_cache_row"),
        (
            WriteCmd::Backup(BackupWriteCmd { target: PathText::Utf8("t".to_owned()) }),
            "backup",
        ),
        (WriteCmd::Shutdown, "shutdown"),
    ] {
        assert_eq!(cmd.kind_str(), name);
    }
}

// --- backups and replies ---

#[test]
fn backups_name_their_target() {
    let cmd = BackupWriteCmd { target: PathText::Utf8("/b.db".to_owned()) };
    let call = cmd.call().expect("call");
    assert_eq!(call.sql, "VACUUM INTO ?1");
    assert_eq!(call.params, vec![SqlValue::Text("/b.db".to_owned())]);
    let bad = BackupWriteCmd { target: PathText::NotUtf8 {
        bytes: b"b\xff".to_vec(),
        shown: "b\u{fffd}".to_owned(),
    } };
    assert_eq!(
        bad.call().unwrap_err(),
        CoreError::BackupFailed {
            reason: BackupFailureReason::TargetUnwritable {
                path: "b\u{fffd}".to_owned(),
                message: "target path is not valid UTF-8".to_owned(),
            }
        }
    );
    let failed = |kind| cmd.failed(&SqliteError { kind, text: "boom".to_owned() });
    assert_eq!(
        failed(SqliteErrorKind::DiskFull),
        CoreError::BackupFailed {
            reason: BackupFailureReason::DiskFull { path: "/b.db".to_owned() }
        }
    );
    assert_eq!(
        failed(SqliteErrorKind::CannotOpen),
        CoreError::BackupFailed {
            reason: BackupFailureReason::TargetUnwritable {
                path: "/b.db".to_owned(),
                message: "boom".to_owned(),
            }
        }
    );
    let other = |text: &str| CoreError::BackupFailed {
        reason: BackupFailureReason::Internal(text.to_owned()),
    };
    assert_eq!(failed(SqliteErrorKind::Other), other("boom"));
    assert_eq!(failed(SqliteErrorKind::ConstraintViolation), other("boom"));
    assert_eq!(size_unknown("m"), other("metadata after VACUUM INTO: m"));
    assert_eq!(backup_not_sent("m"), other("writer send: m"));
    assert_eq!(backup_not_answered("m"), other("writer reply: m"));
    assert_eq!(writer_disconnected(), internal("transcript writer disconnected"));
    assert_eq!(writer_reply_lost(), internal("transcript writer reply lost"));
}

// --- triggers ---

#[test]
fn trigger_statement_takes_any_body() {
    let a = FtsAggregation {
        name: "t_name",
        source_table: "t_table",
        event: TriggerEvent::UpdateOf("col"),
        when: Some("NEW.x IS NULL"),
        body: BodyKind::TagsDelete,
    };
    assert_eq!(
        create_statement_with(&a, "  DELETE FROM y;"),
        "CREATE TRIGGER t_name\nAFTER UPDATE OF col ON t_table\nWHEN NEW.x IS NULL\nBEGIN\n  \
         DELETE FROM y;\nEND;\n"
    );
    let plain = FtsAggregation { event: TriggerEvent::Delete, when: None, ..a };
    assert_eq!(
        create_statement_with(&plain, ""),
        "CREATE TRIGGER t_name\nAFTER DELETE ON t_table\nBEGIN\n\nEND;\n"
    );
}

#[test]
fn render_includes_all_legacy_drops() {
    let sql = render_fts_triggers();
    for legacy in legacy_trigger_names() {
        assert!(
            sql.contains(&format!("DROP TRIGGER IF EXISTS {legacy};")),
            "render output missing legacy DROP for {legacy}"
        );
    }
}

#[test]
fn fts_aggregations_has_eighteen_entries() {
    assert_eq!(fts_aggregations().len(), 18, "expected 18 trigger entries");
}

#[test]
fn legacy_trigger_names_includes_v007_hash_change() {
    assert!(legacy_trigger_names().contains(&"search_after_location_hash_change"));
}

#[test]
fn no_overlap_between_legacy_and_current() {
    let current: Vec<&str> = fts_aggregations().iter().map(|a| a.name).collect();
    for legacy in legacy_trigger_names() {
        assert!(
            !current.contains(&legacy),
            "{legacy:?} appears in BOTH lists"
        );
    }
}

#[test]
fn template_parses_without_panic() {
    let mut env = minijinja::Environment::empty();
    env.add_template("fts_triggers.sql.j2", FTS_TEMPLATE).expect("template parses");
    assert!(env.get_template("fts_triggers.sql.j2").is_ok());
}

#[test]
fn every_trigger_is_dropped_and_then_made() {
    let sql = render_fts_triggers();
    let first = sql.find("CREATE TRIGGER ").expect("a trigger");
    for a in fts_aggregations() {
        let gone = sql.find(&format!("DROP TRIGGER IF EXISTS {};", a.name)).expect("drop");
        assert!(gone < first);
        assert!(sql.contains(&format!("CREATE TRIGGER {}\n", a.name)));
    }
    assert!(sql.contains(RENAME_GUARD));
}

#[test]
fn bodies_are_rendered_from_the_template() {
    for a in fts_aggregations() {
        let sql = render_internal(&vec![a], &Vec::new());
        let body = sql.split("BEGIN\n").nth(1).expect("body");
        assert!(body.len() > 20, "{} has no body: {sql}", a.name);
        assert!(!sql.contains("{{") && !sql.contains("{%"), "{sql}");
        assert!(!body.contains(body_kind_name(a.body)), "{sql}");
    }
    let rename = fts_aggregations()
        .into_iter()
        .find(|a| a.body == BodyKind::RenameRepresentative)
        .expect("rename");
    assert_eq!(rename.event, TriggerEvent::UpdateOf("relative_path"));
    let sql = render_internal(&vec![rename], &vec!["old"]);
    assert!(sql.starts_with(
        "DROP TRIGGER IF EXISTS old;\nDROP TRIGGER IF EXISTS search_after_location_rename;\n\
         CREATE TRIGGER search_after_location_rename\n\
         AFTER UPDATE OF relative_path ON file_locations\nWHEN OLD.relative_path"
    ));
    assert!(sql.ends_with("\nEND;\n"));
    assert_eq!(install_failed("why"), internal("install_fts_triggers: why"));
}
