//! The lists, by their parts.
use vstd::prelude::*;
use vstd::string::*;

use crate::db::joins::{Col, Cond, Join, JoinForm, JoinQuery, Limit, QueryForm};
use crate::db::shape::{GroupForm, GroupShape, Test};

verus! {

/// A list that is read from several tables, or in order.
#[derive(Clone, Copy, Debug, PartialEq, Eq, Structural)]
pub enum List {
    /// The live locations with their files, by path.
    Locations,
    /// The live locations of a volume with their files, by path.
    LocationsOfVolume,
    /// The live locations with their files and the live metadata of those, by path.
    WithMetadata,
    /// The same of one volume.
    WithMetadataOfVolume,
    /// A live file by its identifier, with the active location that names it at the smallest
    /// mount.
    ByUuid,
    /// The live locations on volumes that a machine has mounted, by volume and path.
    ForVerify,
    /// The live files without a hash that have an active mounted location, by identifier.
    Pending,
    /// The live locations of the live files with a quick hash, by path.
    Group,
    /// The live volumes with their live mounts on a machine, by volume and mount.
    Volumes,
    /// The live tags, by name.
    Tags,
    /// The live locations with their files, those that were seen first before the others.
    Representatives,
    /// The volume of the live location of the file of a hit that was seen first.
    VolumeOfHit,
    /// The names of the live tags of the hash of a row that is being made.
    TagNames,
    /// The live files without a quick hash, with the active locations of their hash: those on
    /// mounted volumes first, and of them the latest.
    Backfill,
}

/// A column of the table in a slot.
pub open spec fn col(slot: u64, of: &'static str, name: &'static str) -> Col {
    Col { slot, of, name }
}

pub(crate) fn col_of(slot: u64, of: &'static str, name: &'static str) -> (r: Col)
    ensures
        r == col(slot, of, name),
{
    Col { slot, of, name }
}

/// The live tags that are attached to so many hashes, with the hash.
pub open spec fn tags_of_files(n: u64) -> QueryForm {
    QueryForm {
        distinct: false,
        columns: seq![
            col(0, "ft", "blake3_hash"),
            col(1, "t", "id"),
            col(1, "t", "name"),
            col(1, "t", "first_seen"),
        ],
        table: "file_tags"@,
        name: "ft"@,
        joins: seq![
            JoinForm {
                left: false,
                table: "tags"@,
                name: "t"@,
                conds: seq![Cond::Same(col(1, "t", "id"), col(0, "ft", "tag_id"))],
            },
        ],
        conds: seq![
            Cond::Among(col(0, "ft", "blake3_hash"), n),
            Cond::Absent(col(0, "ft", "deleted_at")),
            Cond::Absent(col(1, "t", "deleted_at")),
        ],
        nulls_last: false,
        latest: None,
        order: seq![],
        limit: Limit::All,
    }
}

/// The live tags that are attached to so many hashes, with the hash.
pub(crate) fn tags_of_files_query(n: u64) -> (r: JoinQuery)
    ensures
        r@ == tags_of_files(n),
{
    let r = JoinQuery {
        distinct: false,
        columns: vec![
            col_of(0, "ft", "blake3_hash"),
            col_of(1, "t", "id"),
            col_of(1, "t", "name"),
            col_of(1, "t", "first_seen"),
        ],
        table: "file_tags",
        name: "ft",
        joins: vec![
            Join {
                left: false,
                table: "tags",
                name: "t",
                conds: vec![Cond::Same(col_of(1, "t", "id"), col_of(0, "ft", "tag_id"))],
            },
        ],
        conds: vec![
            Cond::Among(col_of(0, "ft", "blake3_hash"), n),
            Cond::Absent(col_of(0, "ft", "deleted_at")),
            Cond::Absent(col_of(1, "t", "deleted_at")),
        ],
        nulls_last: false,
        latest: None,
        order: Vec::new(),
        limit: Limit::All,
    };
    proof {
        let form = tags_of_files(n);
        assert(r.columns@ =~= form.columns);
        assert(r.conds@ =~= form.conds);
        assert(r.order@ =~= form.order);
        assert(r.joins@[0].conds@ =~= form.joins[0].conds);
        assert(r.joins@.map_values(|j: Join| j@) =~= form.joins);
    }
    r
}

/// The quick hashes that several live files share, unless all of those files are known to
/// be distinct.
pub open spec fn collisions() -> GroupForm {
    GroupForm {
        column: "quick_hash"@,
        table: "files"@,
        tests: seq![Test::Present("quick_hash"), Test::Absent("deleted_at")],
        more_than: 1,
        least: "verified_distinct"@,
        number: 0,
    }
}

/// The quick hashes that several live files share.
pub(crate) fn collisions_shape() -> (r: GroupShape)
    ensures
        r@ == collisions(),
{
    let r = GroupShape {
        column: "quick_hash",
        table: "files",
        tests: vec![Test::Present("quick_hash"), Test::Absent("deleted_at")],
        more_than: 1,
        least: "verified_distinct",
        number: 0,
    };
    assert(r.tests@ =~= collisions().tests);
    r
}

/// The live metadata of the hash of a row that is being made, where there is any.
pub open spec fn metadata_of_row() -> JoinForm {
    JoinForm {
        left: true,
        table: "file_metadata"@,
        name: "m"@,
        conds: seq![
            Cond::Same(col(1, "m", "blake3_hash"), col(0, "r", "blake3_hash")),
            Cond::Absent(col(1, "m", "deleted_at")),
        ],
    }
}

/// The live metadata of the hash of a row that is being made.
pub(crate) fn metadata_of_row_join() -> (r: Join)
    ensures
        r@ == metadata_of_row(),
{
    let r = Join {
        left: true,
        table: "file_metadata",
        name: "m",
        conds: vec![
            Cond::Same(col_of(1, "m", "blake3_hash"), col_of(0, "r", "blake3_hash")),
            Cond::Absent(col_of(1, "m", "deleted_at")),
        ],
    };
    assert(r.conds@ =~= metadata_of_row().conds);
    r
}

/// The column by which files are told apart.
pub open spec fn file_id() -> Col {
    col(1, "f", "file_uuid")
}

/// The column by which files are told apart.
pub(crate) fn file_id_col() -> (r: Col)
    ensures
        r == file_id(),
{
    col_of(1, "f", "file_uuid")
}

/// The column by which files to be fingerprinted are told apart and ordered.
pub open spec fn file_hash() -> Col {
    col(0, "f", "blake3_hash")
}

/// The column by which files to be fingerprinted are told apart and ordered.
pub(crate) fn file_hash_col() -> (r: Col)
    ensures
        r == file_hash(),
{
    col_of(0, "f", "blake3_hash")
}

impl List {
    /// The parts of the list.
    pub open spec fn form(self) -> QueryForm {
        match self {
            List::Backfill => QueryForm {
                distinct: false,
                columns: seq![
                    col(0, "f", "blake3_hash"),
                    col(0, "f", "file_size"),
                    col(2, "vm", "mount_path"),
                    col(1, "fl", "relative_path"),
                ],
                table: "files"@,
                name: "f"@,
                joins: seq![
                    JoinForm {
                        left: true,
                        table: "file_locations"@,
                        name: "fl"@,
                        conds: seq![
                            Cond::Same(col(1, "fl", "blake3_hash"), col(0, "f", "blake3_hash")),
                            Cond::Absent(col(1, "fl", "deleted_at")),
                            Cond::Says(col(1, "fl", "status"), "active"),
                        ],
                    },
                    JoinForm {
                        left: true,
                        table: "volume_mounts"@,
                        name: "vm"@,
                        conds: seq![
                            Cond::Same(col(2, "vm", "volume_id"), col(1, "fl", "volume_id")),
                            Cond::Absent(col(2, "vm", "deleted_at")),
                        ],
                    },
                ],
                conds: seq![
                    Cond::Absent(col(0, "f", "quick_hash")),
                    Cond::Absent(col(0, "f", "deleted_at")),
                ],
                nulls_last: true,
                latest: Some(col(1, "fl", "updated_at")),
                order: seq![col(2, "vm", "mount_path"), col(1, "fl", "relative_path")],
                limit: Limit::Param(1),
            },
            List::Representatives => QueryForm {
                distinct: false,
                columns: seq![
                    col(1, "f", "file_uuid"),
                    col(1, "f", "blake3_hash"),
                    col(0, "fl", "relative_path"),
                ],
                table: "file_locations"@,
                name: "fl"@,
                joins: seq![
                    JoinForm {
                        left: false,
                        table: "files"@,
                        name: "f"@,
                        conds: seq![
                            Cond::FileOf(1, 0),
                        ],
                    },
                ],
                conds: seq![
                    Cond::Absent(col(0, "fl", "deleted_at")),
                ],
                nulls_last: false,
                latest: None,
                order: seq![col(0, "fl", "first_seen"), col(0, "fl", "id")],
                limit: Limit::All,
            },
            List::VolumeOfHit => QueryForm {
                distinct: false,
                columns: seq![
                    col(0, "fl", "volume_id"),
                ],
                table: "file_locations"@,
                name: "fl"@,
                joins: seq![
                    JoinForm {
                        left: false,
                        table: "files"@,
                        name: "f"@,
                        conds: seq![
                            Cond::FileOf(1, 0),
                        ],
                    },
                ],
                conds: seq![
                    Cond::Same(col(1, "f", "file_uuid"), col(2, "sc", "file_uuid")),
                    Cond::Absent(col(0, "fl", "deleted_at")),
                ],
                nulls_last: false,
                latest: None,
                order: seq![col(0, "fl", "first_seen"), col(0, "fl", "id")],
                limit: Limit::One,
            },
            List::TagNames => QueryForm {
                distinct: false,
                columns: seq![
                    col(1, "t", "name"),
                ],
                table: "file_tags"@,
                name: "ft"@,
                joins: seq![
                    JoinForm {
                        left: false,
                        table: "tags"@,
                        name: "t"@,
                        conds: seq![
                            Cond::Same(col(1, "t", "id"), col(0, "ft", "tag_id")),
                        ],
                    },
                ],
                conds: seq![
                    Cond::Same(col(0, "ft", "blake3_hash"), col(2, "r", "blake3_hash")),
                    Cond::Absent(col(0, "ft", "deleted_at")),
                    Cond::Absent(col(1, "t", "deleted_at")),
                ],
                nulls_last: false,
                latest: None,
                order: seq![],
                limit: Limit::All,
            },
            List::Locations => QueryForm {
                distinct: false,
                columns: seq![
                    col(1, "f", "file_uuid"),
                    col(1, "f", "blake3_hash"),
                    col(1, "f", "file_size"),
                    col(0, "fl", "volume_id"),
                    col(0, "fl", "relative_path"),
                    col(0, "fl", "status"),
                    col(0, "fl", "first_seen"),
                ],
                table: "file_locations"@,
                name: "fl"@,
                joins: seq![
                    JoinForm {
                        left: false,
                        table: "files"@,
                        name: "f"@,
                        conds: seq![
                            Cond::FileOf(1, 0),
                        ],
                    },
                ],
                conds: seq![
                    Cond::Absent(col(0, "fl", "deleted_at")),
                ],
                nulls_last: false,
                latest: None,
                order: seq![col(0, "fl", "relative_path")],
                limit: Limit::Param(1),
            },
            List::LocationsOfVolume => QueryForm {
                distinct: false,
                columns: seq![
                    col(1, "f", "file_uuid"),
                    col(1, "f", "blake3_hash"),
                    col(1, "f", "file_size"),
                    col(0, "fl", "volume_id"),
                    col(0, "fl", "relative_path"),
                    col(0, "fl", "status"),
                    col(0, "fl", "first_seen"),
                ],
                table: "file_locations"@,
                name: "fl"@,
                joins: seq![
                    JoinForm {
                        left: false,
                        table: "files"@,
                        name: "f"@,
                        conds: seq![
                            Cond::FileOf(1, 0),
                        ],
                    },
                ],
                conds: seq![
                    Cond::Absent(col(0, "fl", "deleted_at")),
                    Cond::Equals(col(0, "fl", "volume_id"), 1),
                ],
                nulls_last: false,
                latest: None,
                order: seq![col(0, "fl", "relative_path")],
                limit: Limit::Param(2),
            },
            List::WithMetadata => QueryForm {
                distinct: false,
                columns: seq![
                    col(1, "f", "file_uuid"),
                    col(1, "f", "blake3_hash"),
                    col(1, "f", "file_size"),
                    col(0, "fl", "volume_id"),
                    col(0, "fl", "relative_path"),
                    col(0, "fl", "status"),
                    col(0, "fl", "first_seen"),
                    col(2, "fm", "updated_at"),
                    col(2, "fm", "width"),
                    col(2, "fm", "height"),
                    col(2, "fm", "duration_ms"),
                    col(2, "fm", "captured_at"),
                    col(2, "fm", "camera_make"),
                    col(2, "fm", "camera_model"),
                    col(2, "fm", "codec"),
                    col(2, "fm", "bitrate_bps"),
                    col(2, "fm", "mime_type"),
                    col(2, "fm", "thumbnail_path"),
                    col(2, "fm", "thumbnail_status"),
                    col(1, "f", "quick_hash"),
                ],
                table: "file_locations"@,
                name: "fl"@,
                joins: seq![
                    JoinForm {
                        left: false,
                        table: "files"@,
                        name: "f"@,
                        conds: seq![
                            Cond::FileOf(1, 0),
                        ],
                    },
                    JoinForm {
                        left: true,
                        table: "file_metadata"@,
                        name: "fm"@,
                        conds: seq![
                            Cond::Same(col(2, "fm", "blake3_hash"), col(1, "f", "blake3_hash")),
                            Cond::Absent(col(2, "fm", "deleted_at")),
                        ],
                    },
                ],
                conds: seq![
                    Cond::Absent(col(0, "fl", "deleted_at")),
                ],
                nulls_last: false,
                latest: None,
                order: seq![col(0, "fl", "relative_path")],
                limit: Limit::Param(1),
            },
            List::WithMetadataOfVolume => QueryForm {
                distinct: false,
                columns: seq![
                    col(1, "f", "file_uuid"),
                    col(1, "f", "blake3_hash"),
                    col(1, "f", "file_size"),
                    col(0, "fl", "volume_id"),
                    col(0, "fl", "relative_path"),
                    col(0, "fl", "status"),
                    col(0, "fl", "first_seen"),
                    col(2, "fm", "updated_at"),
                    col(2, "fm", "width"),
                    col(2, "fm", "height"),
                    col(2, "fm", "duration_ms"),
                    col(2, "fm", "captured_at"),
                    col(2, "fm", "camera_make"),
                    col(2, "fm", "camera_model"),
                    col(2, "fm", "codec"),
                    col(2, "fm", "bitrate_bps"),
                    col(2, "fm", "mime_type"),
                    col(2, "fm", "thumbnail_path"),
                    col(2, "fm", "thumbnail_status"),
                    col(1, "f", "quick_hash"),
                ],
                table: "file_locations"@,
                name: "fl"@,
                joins: seq![
                    JoinForm {
                        left: false,
                        table: "files"@,
                        name: "f"@,
                        conds: seq![
                            Cond::FileOf(1, 0),
                        ],
                    },
                    JoinForm {
                        left: true,
                        table: "file_metadata"@,
                        name: "fm"@,
                        conds: seq![
                            Cond::Same(col(2, "fm", "blake3_hash"), col(1, "f", "blake3_hash")),
                            Cond::Absent(col(2, "fm", "deleted_at")),
                        ],
                    },
                ],
                conds: seq![
                    Cond::Absent(col(0, "fl", "deleted_at")),
                    Cond::Equals(col(0, "fl", "volume_id"), 1),
                ],
                nulls_last: false,
                latest: None,
                order: seq![col(0, "fl", "relative_path")],
                limit: Limit::Param(2),
            },
            List::ByUuid => QueryForm {
                distinct: false,
                columns: seq![
                    col(0, "f", "blake3_hash"),
                    col(0, "f", "file_size"),
                    col(2, "vm", "mount_path"),
                    col(1, "fl", "relative_path"),
                ],
                table: "files"@,
                name: "f"@,
                joins: seq![
                    JoinForm {
                        left: true,
                        table: "file_locations"@,
                        name: "fl"@,
                        conds: seq![
                            Cond::Same(col(1, "fl", "file_uuid"), col(0, "f", "file_uuid")),
                            Cond::Absent(col(1, "fl", "deleted_at")),
                            Cond::Says(col(1, "fl", "status"), "active"),
                        ],
                    },
                    JoinForm {
                        left: true,
                        table: "volume_mounts"@,
                        name: "vm"@,
                        conds: seq![
                            Cond::Same(col(2, "vm", "volume_id"), col(1, "fl", "volume_id")),
                            Cond::Absent(col(2, "vm", "deleted_at")),
                        ],
                    },
                ],
                conds: seq![
                    Cond::Equals(col(0, "f", "file_uuid"), 1),
                    Cond::Absent(col(0, "f", "deleted_at")),
                ],
                nulls_last: true,
                latest: None,
                order: seq![col(2, "vm", "mount_path"), col(1, "fl", "relative_path")],
                limit: Limit::One,
            },
            List::ForVerify => QueryForm {
                distinct: false,
                columns: seq![
                    col(0, "fl", "volume_id"),
                    col(0, "fl", "relative_path"),
                    col(0, "fl", "status"),
                    col(1, "vm", "mount_path"),
                ],
                table: "file_locations"@,
                name: "fl"@,
                joins: seq![
                    JoinForm {
                        left: false,
                        table: "volume_mounts"@,
                        name: "vm"@,
                        conds: seq![
                            Cond::Same(col(1, "vm", "volume_id"), col(0, "fl", "volume_id")),
                            Cond::Equals(col(1, "vm", "machine_id"), 1),
                            Cond::Absent(col(1, "vm", "deleted_at")),
                        ],
                    },
                ],
                conds: seq![
                    Cond::Absent(col(0, "fl", "deleted_at")),
                ],
                nulls_last: false,
                latest: None,
                order: seq![col(0, "fl", "volume_id"), col(0, "fl", "relative_path")],
                limit: Limit::All,
            },
            List::Pending => QueryForm {
                distinct: true,
                columns: seq![
                    col(0, "f", "file_uuid"),
                ],
                table: "files"@,
                name: "f"@,
                joins: seq![
                    JoinForm {
                        left: false,
                        table: "file_locations"@,
                        name: "fl"@,
                        conds: seq![
                            Cond::Same(col(1, "fl", "file_uuid"), col(0, "f", "file_uuid")),
                            Cond::Absent(col(1, "fl", "deleted_at")),
                            Cond::Says(col(1, "fl", "status"), "active"),
                        ],
                    },
                    JoinForm {
                        left: false,
                        table: "volume_mounts"@,
                        name: "vm"@,
                        conds: seq![
                            Cond::Same(col(2, "vm", "volume_id"), col(1, "fl", "volume_id")),
                            Cond::Absent(col(2, "vm", "deleted_at")),
                        ],
                    },
                ],
                conds: seq![
                    Cond::Absent(col(0, "f", "blake3_hash")),
                    Cond::Absent(col(0, "f", "deleted_at")),
                ],
                nulls_last: false,
                latest: None,
                order: seq![col(0, "f", "file_uuid")],
                limit: Limit::Param(1),
            },
            List::Group => QueryForm {
                distinct: false,
                columns: seq![
                    col(1, "f", "file_uuid"),
                    col(1, "f", "blake3_hash"),
                    col(1, "f", "file_size"),
                    col(0, "fl", "volume_id"),
                    col(0, "fl", "relative_path"),
                    col(0, "fl", "status"),
                    col(0, "fl", "first_seen"),
                ],
                table: "file_locations"@,
                name: "fl"@,
                joins: seq![
                    JoinForm {
                        left: false,
                        table: "files"@,
                        name: "f"@,
                        conds: seq![
                            Cond::FileOf(1, 0),
                        ],
                    },
                ],
                conds: seq![
                    Cond::Equals(col(1, "f", "quick_hash"), 1),
                    Cond::Absent(col(1, "f", "deleted_at")),
                    Cond::Absent(col(0, "fl", "deleted_at")),
                ],
                nulls_last: false,
                latest: None,
                order: seq![col(0, "fl", "relative_path")],
                limit: Limit::All,
            },
            List::Volumes => QueryForm {
                distinct: false,
                columns: seq![
                    col(0, "v", "volume_id"),
                    col(0, "v", "volume_label"),
                    col(0, "v", "capacity_bytes"),
                    col(0, "v", "is_removable"),
                    col(0, "v", "last_seen"),
                    col(1, "vm", "mount_path"),
                ],
                table: "volumes"@,
                name: "v"@,
                joins: seq![
                    JoinForm {
                        left: true,
                        table: "volume_mounts"@,
                        name: "vm"@,
                        conds: seq![
                            Cond::Same(col(1, "vm", "volume_id"), col(0, "v", "volume_id")),
                            Cond::Equals(col(1, "vm", "machine_id"), 1),
                            Cond::Absent(col(1, "vm", "deleted_at")),
                        ],
                    },
                ],
                conds: seq![
                    Cond::Absent(col(0, "v", "deleted_at")),
                ],
                nulls_last: false,
                latest: None,
                order: seq![col(0, "v", "volume_id"), col(1, "vm", "mount_path")],
                limit: Limit::All,
            },
            List::Tags => QueryForm {
                distinct: false,
                columns: seq![
                    col(0, "t", "id"),
                    col(0, "t", "name"),
                    col(0, "t", "first_seen"),
                ],
                table: "tags"@,
                name: "t"@,
                joins: seq![
                ],
                conds: seq![
                    Cond::Absent(col(0, "t", "deleted_at")),
                ],
                nulls_last: false,
                latest: None,
                order: seq![col(0, "t", "name")],
                limit: Limit::All,
            },
        }
    }

    /// The parts of the list.
    pub fn query(&self) -> (r: JoinQuery)
        ensures
            r@ == self.form(),
    {
        let r = match self {
            List::Backfill => JoinQuery {
                distinct: false,
                columns: vec![
                    col_of(0, "f", "blake3_hash"),
                    col_of(0, "f", "file_size"),
                    col_of(2, "vm", "mount_path"),
                    col_of(1, "fl", "relative_path"),
                ],
                table: "files",
                name: "f",
                joins: vec![
                    Join {
                        left: true,
                        table: "file_locations",
                        name: "fl",
                        conds: vec![
                            Cond::Same(col_of(1, "fl", "blake3_hash"), col_of(0, "f", "blake3_hash")),
                            Cond::Absent(col_of(1, "fl", "deleted_at")),
                            Cond::Says(col_of(1, "fl", "status"), "active"),
                        ],
                    },
                    Join {
                        left: true,
                        table: "volume_mounts",
                        name: "vm",
                        conds: vec![
                            Cond::Same(col_of(2, "vm", "volume_id"), col_of(1, "fl", "volume_id")),
                            Cond::Absent(col_of(2, "vm", "deleted_at")),
                        ],
                    },
                ],
                conds: vec![
                    Cond::Absent(col_of(0, "f", "quick_hash")),
                    Cond::Absent(col_of(0, "f", "deleted_at")),
                ],
                nulls_last: true,
                latest: Some(col_of(1, "fl", "updated_at")),
                order: vec![col_of(2, "vm", "mount_path"), col_of(1, "fl", "relative_path")],
                limit: Limit::Param(1),
            },
            List::Representatives => JoinQuery {
                distinct: false,
                columns: vec![
                    col_of(1, "f", "file_uuid"),
                    col_of(1, "f", "blake3_hash"),
                    col_of(0, "fl", "relative_path"),
                ],
                table: "file_locations",
                name: "fl",
                joins: vec![
                    Join {
                        left: false,
                        table: "files",
                        name: "f",
                        conds: vec![
                            Cond::FileOf(1, 0),
                        ],
                    },
                ],
                conds: vec![
                    Cond::Absent(col_of(0, "fl", "deleted_at")),
                ],
                nulls_last: false,
                latest: None,
                order: vec![col_of(0, "fl", "first_seen"), col_of(0, "fl", "id")],
                limit: Limit::All,
            },
            List::VolumeOfHit => JoinQuery {
                distinct: false,
                columns: vec![
                    col_of(0, "fl", "volume_id"),
                ],
                table: "file_locations",
                name: "fl",
                joins: vec![
                    Join {
                        left: false,
                        table: "files",
                        name: "f",
                        conds: vec![
                            Cond::FileOf(1, 0),
                        ],
                    },
                ],
                conds: vec![
                    Cond::Same(col_of(1, "f", "file_uuid"), col_of(2, "sc", "file_uuid")),
                    Cond::Absent(col_of(0, "fl", "deleted_at")),
                ],
                nulls_last: false,
                latest: None,
                order: vec![col_of(0, "fl", "first_seen"), col_of(0, "fl", "id")],
                limit: Limit::One,
            },
            List::TagNames => JoinQuery {
                distinct: false,
                columns: vec![
                    col_of(1, "t", "name"),
                ],
                table: "file_tags",
                name: "ft",
                joins: vec![
                    Join {
                        left: false,
                        table: "tags",
                        name: "t",
                        conds: vec![
                            Cond::Same(col_of(1, "t", "id"), col_of(0, "ft", "tag_id")),
                        ],
                    },
                ],
                conds: vec![
                    Cond::Same(col_of(0, "ft", "blake3_hash"), col_of(2, "r", "blake3_hash")),
                    Cond::Absent(col_of(0, "ft", "deleted_at")),
                    Cond::Absent(col_of(1, "t", "deleted_at")),
                ],
                nulls_last: false,
                latest: None,
                order: Vec::new(),
                limit: Limit::All,
            },
            List::Locations => JoinQuery {
                distinct: false,
                columns: vec![
                    col_of(1, "f", "file_uuid"),
                    col_of(1, "f", "blake3_hash"),
                    col_of(1, "f", "file_size"),
                    col_of(0, "fl", "volume_id"),
                    col_of(0, "fl", "relative_path"),
                    col_of(0, "fl", "status"),
                    col_of(0, "fl", "first_seen"),
                ],
                table: "file_locations",
                name: "fl",
                joins: vec![
                    Join {
                        left: false,
                        table: "files",
                        name: "f",
                        conds: vec![
                            Cond::FileOf(1, 0),
                        ],
                    },
                ],
                conds: vec![
                    Cond::Absent(col_of(0, "fl", "deleted_at")),
                ],
                nulls_last: false,
                latest: None,
                order: vec![col_of(0, "fl", "relative_path")],
                limit: Limit::Param(1),
            },
            List::LocationsOfVolume => JoinQuery {
                distinct: false,
                columns: vec![
                    col_of(1, "f", "file_uuid"),
                    col_of(1, "f", "blake3_hash"),
                    col_of(1, "f", "file_size"),
                    col_of(0, "fl", "volume_id"),
                    col_of(0, "fl", "relative_path"),
                    col_of(0, "fl", "status"),
                    col_of(0, "fl", "first_seen"),
                ],
                table: "file_locations",
                name: "fl",
                joins: vec![
                    Join {
                        left: false,
                        table: "files",
                        name: "f",
                        conds: vec![
                            Cond::FileOf(1, 0),
                        ],
                    },
                ],
                conds: vec![
                    Cond::Absent(col_of(0, "fl", "deleted_at")),
                    Cond::Equals(col_of(0, "fl", "volume_id"), 1),
                ],
                nulls_last: false,
                latest: None,
                order: vec![col_of(0, "fl", "relative_path")],
                limit: Limit::Param(2),
            },
            List::WithMetadata => JoinQuery {
                distinct: false,
                columns: vec![
                    col_of(1, "f", "file_uuid"),
                    col_of(1, "f", "blake3_hash"),
                    col_of(1, "f", "file_size"),
                    col_of(0, "fl", "volume_id"),
                    col_of(0, "fl", "relative_path"),
                    col_of(0, "fl", "status"),
                    col_of(0, "fl", "first_seen"),
                    col_of(2, "fm", "updated_at"),
                    col_of(2, "fm", "width"),
                    col_of(2, "fm", "height"),
                    col_of(2, "fm", "duration_ms"),
                    col_of(2, "fm", "captured_at"),
                    col_of(2, "fm", "camera_make"),
                    col_of(2, "fm", "camera_model"),
                    col_of(2, "fm", "codec"),
                    col_of(2, "fm", "bitrate_bps"),
                    col_of(2, "fm", "mime_type"),
                    col_of(2, "fm", "thumbnail_path"),
                    col_of(2, "fm", "thumbnail_status"),
                    col_of(1, "f", "quick_hash"),
                ],
                table: "file_locations",
                name: "fl",
                joins: vec![
                    Join {
                        left: false,
                        table: "files",
                        name: "f",
                        conds: vec![
                            Cond::FileOf(1, 0),
                        ],
                    },
                    Join {
                        left: true,
                        table: "file_metadata",
                        name: "fm",
                        conds: vec![
                            Cond::Same(col_of(2, "fm", "blake3_hash"), col_of(1, "f", "blake3_hash")),
                            Cond::Absent(col_of(2, "fm", "deleted_at")),
                        ],
                    },
                ],
                conds: vec![
                    Cond::Absent(col_of(0, "fl", "deleted_at")),
                ],
                nulls_last: false,
                latest: None,
                order: vec![col_of(0, "fl", "relative_path")],
                limit: Limit::Param(1),
            },
            List::WithMetadataOfVolume => JoinQuery {
                distinct: false,
                columns: vec![
                    col_of(1, "f", "file_uuid"),
                    col_of(1, "f", "blake3_hash"),
                    col_of(1, "f", "file_size"),
                    col_of(0, "fl", "volume_id"),
                    col_of(0, "fl", "relative_path"),
                    col_of(0, "fl", "status"),
                    col_of(0, "fl", "first_seen"),
                    col_of(2, "fm", "updated_at"),
                    col_of(2, "fm", "width"),
                    col_of(2, "fm", "height"),
                    col_of(2, "fm", "duration_ms"),
                    col_of(2, "fm", "captured_at"),
                    col_of(2, "fm", "camera_make"),
                    col_of(2, "fm", "camera_model"),
                    col_of(2, "fm", "codec"),
                    col_of(2, "fm", "bitrate_bps"),
                    col_of(2, "fm", "mime_type"),
                    col_of(2, "fm", "thumbnail_path"),
                    col_of(2, "fm", "thumbnail_status"),
                    col_of(1, "f", "quick_hash"),
                ],
                table: "file_locations",
                name: "fl",
                joins: vec![
                    Join {
                        left: false,
                        table: "files",
                        name: "f",
                        conds: vec![
                            Cond::FileOf(1, 0),
                        ],
                    },
                    Join {
                        left: true,
                        table: "file_metadata",
                        name: "fm",
                        conds: vec![
                            Cond::Same(col_of(2, "fm", "blake3_hash"), col_of(1, "f", "blake3_hash")),
                            Cond::Absent(col_of(2, "fm", "deleted_at")),
                        ],
                    },
                ],
                conds: vec![
                    Cond::Absent(col_of(0, "fl", "deleted_at")),
                    Cond::Equals(col_of(0, "fl", "volume_id"), 1),
                ],
                nulls_last: false,
                latest: None,
                order: vec![col_of(0, "fl", "relative_path")],
                limit: Limit::Param(2),
            },
            List::ByUuid => JoinQuery {
                distinct: false,
                columns: vec![
                    col_of(0, "f", "blake3_hash"),
                    col_of(0, "f", "file_size"),
                    col_of(2, "vm", "mount_path"),
                    col_of(1, "fl", "relative_path"),
                ],
                table: "files",
                name: "f",
                joins: vec![
                    Join {
                        left: true,
                        table: "file_locations",
                        name: "fl",
                        conds: vec![
                            Cond::Same(col_of(1, "fl", "file_uuid"), col_of(0, "f", "file_uuid")),
                            Cond::Absent(col_of(1, "fl", "deleted_at")),
                            Cond::Says(col_of(1, "fl", "status"), "active"),
                        ],
                    },
                    Join {
                        left: true,
                        table: "volume_mounts",
                        name: "vm",
                        conds: vec![
                            Cond::Same(col_of(2, "vm", "volume_id"), col_of(1, "fl", "volume_id")),
                            Cond::Absent(col_of(2, "vm", "deleted_at")),
                        ],
                    },
                ],
                conds: vec![
                    Cond::Equals(col_of(0, "f", "file_uuid"), 1),
                    Cond::Absent(col_of(0, "f", "deleted_at")),
                ],
                nulls_last: true,
                latest: None,
                order: vec![col_of(2, "vm", "mount_path"), col_of(1, "fl", "relative_path")],
                limit: Limit::One,
            },
            List::ForVerify => JoinQuery {
                distinct: false,
                columns: vec![
                    col_of(0, "fl", "volume_id"),
                    col_of(0, "fl", "relative_path"),
                    col_of(0, "fl", "status"),
                    col_of(1, "vm", "mount_path"),
                ],
                table: "file_locations",
                name: "fl",
                joins: vec![
                    Join {
                        left: false,
                        table: "volume_mounts",
                        name: "vm",
                        conds: vec![
                            Cond::Same(col_of(1, "vm", "volume_id"), col_of(0, "fl", "volume_id")),
                            Cond::Equals(col_of(1, "vm", "machine_id"), 1),
                            Cond::Absent(col_of(1, "vm", "deleted_at")),
                        ],
                    },
                ],
                conds: vec![
                    Cond::Absent(col_of(0, "fl", "deleted_at")),
                ],
                nulls_last: false,
                latest: None,
                order: vec![col_of(0, "fl", "volume_id"), col_of(0, "fl", "relative_path")],
                limit: Limit::All,
            },
            List::Pending => JoinQuery {
                distinct: true,
                columns: vec![
                    col_of(0, "f", "file_uuid"),
                ],
                table: "files",
                name: "f",
                joins: vec![
                    Join {
                        left: false,
                        table: "file_locations",
                        name: "fl",
                        conds: vec![
                            Cond::Same(col_of(1, "fl", "file_uuid"), col_of(0, "f", "file_uuid")),
                            Cond::Absent(col_of(1, "fl", "deleted_at")),
                            Cond::Says(col_of(1, "fl", "status"), "active"),
                        ],
                    },
                    Join {
                        left: false,
                        table: "volume_mounts",
                        name: "vm",
                        conds: vec![
                            Cond::Same(col_of(2, "vm", "volume_id"), col_of(1, "fl", "volume_id")),
                            Cond::Absent(col_of(2, "vm", "deleted_at")),
                        ],
                    },
                ],
                conds: vec![
                    Cond::Absent(col_of(0, "f", "blake3_hash")),
                    Cond::Absent(col_of(0, "f", "deleted_at")),
                ],
                nulls_last: false,
                latest: None,
                order: vec![col_of(0, "f", "file_uuid")],
                limit: Limit::Param(1),
            },
            List::Group => JoinQuery {
                distinct: false,
                columns: vec![
                    col_of(1, "f", "file_uuid"),
                    col_of(1, "f", "blake3_hash"),
                    col_of(1, "f", "file_size"),
                    col_of(0, "fl", "volume_id"),
                    col_of(0, "fl", "relative_path"),
                    col_of(0, "fl", "status"),
                    col_of(0, "fl", "first_seen"),
                ],
                table: "file_locations",
                name: "fl",
                joins: vec![
                    Join {
                        left: false,
                        table: "files",
                        name: "f",
                        conds: vec![
                            Cond::FileOf(1, 0),
                        ],
                    },
                ],
                conds: vec![
                    Cond::Equals(col_of(1, "f", "quick_hash"), 1),
                    Cond::Absent(col_of(1, "f", "deleted_at")),
                    Cond::Absent(col_of(0, "fl", "deleted_at")),
                ],
                nulls_last: false,
                latest: None,
                order: vec![col_of(0, "fl", "relative_path")],
                limit: Limit::All,
            },
            List::Volumes => JoinQuery {
                distinct: false,
                columns: vec![
                    col_of(0, "v", "volume_id"),
                    col_of(0, "v", "volume_label"),
                    col_of(0, "v", "capacity_bytes"),
                    col_of(0, "v", "is_removable"),
                    col_of(0, "v", "last_seen"),
                    col_of(1, "vm", "mount_path"),
                ],
                table: "volumes",
                name: "v",
                joins: vec![
                    Join {
                        left: true,
                        table: "volume_mounts",
                        name: "vm",
                        conds: vec![
                            Cond::Same(col_of(1, "vm", "volume_id"), col_of(0, "v", "volume_id")),
                            Cond::Equals(col_of(1, "vm", "machine_id"), 1),
                            Cond::Absent(col_of(1, "vm", "deleted_at")),
                        ],
                    },
                ],
                conds: vec![
                    Cond::Absent(col_of(0, "v", "deleted_at")),
                ],
                nulls_last: false,
                latest: None,
                order: vec![col_of(0, "v", "volume_id"), col_of(1, "vm", "mount_path")],
                limit: Limit::All,
            },
            List::Tags => JoinQuery {
                distinct: false,
                columns: vec![
                    col_of(0, "t", "id"),
                    col_of(0, "t", "name"),
                    col_of(0, "t", "first_seen"),
                ],
                table: "tags",
                name: "t",
                joins: Vec::new(),
                conds: vec![
                    Cond::Absent(col_of(0, "t", "deleted_at")),
                ],
                nulls_last: false,
                latest: None,
                order: vec![col_of(0, "t", "name")],
                limit: Limit::All,
            },
        };
        proof {
            let form = self.form();
            assert(r.columns@ =~= form.columns);
            assert(r.conds@ =~= form.conds);
            assert(r.order@ =~= form.order);
            assert(r.joins@.len() == form.joins.len());
            assert forall|k: int| 0 <= k < form.joins.len() implies #[trigger] r.joins@[k]@
                == form.joins[k] by {
                assert(r.joins@[k].conds@ =~= form.joins[k].conds);
            }
            assert(r.joins@.map_values(|j: Join| j@) =~= form.joins);
        }
        r
    }

    /// The text of the list.
    pub open spec fn sql(self) -> Seq<char> {
        self.form().text()
    }
}

} // verus!
