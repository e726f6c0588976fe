//! Queries on one table, by their parts.
use vstd::prelude::*;
use vstd::string::*;

use crate::db::shape::{show, shown, Form, Shape, Test, Verb};

verus! {

/// A query on one table.
#[derive(Clone, Copy, Debug, PartialEq, Eq, Structural)]
pub enum Lookup {
    /// The file with a hash: its size, its device, its quick hash.
    File,
    /// The live location at a path of a volume: its identifier, its hash, its device.
    Location,
    /// The identifier of the live location at a path of a volume.
    LocationId,
    /// The live metadata of a hash: its device, its MIME type.
    MetadataOwner,
    /// The live metadata of a hash.
    Metadata,
    /// The live tag of a name: its identifier, its first sighting.
    Tag,
    /// The identifier of the live attachment of a tag to a hash.
    Link,
    /// The hashes that carry a tag.
    TaggedHashes,
    /// The identifier of the live entry under a key of the cache.
    CacheId,
    /// The hashes of the live entry under a key of the cache.
    CacheEntry,
    /// The live volume with a partition GUID.
    VolumeByGuid,
    /// The live volume with a file-system UUID.
    VolumeByFsUuid,
    /// The live volume with a label and a capacity.
    VolumeByLabel,
    /// The identifier of the live mount of a volume at a path of a machine.
    Mount,
    /// How many live locations there are.
    LocationCount,
    /// How many live locations are missing.
    MissingCount,
    /// How many hashes carry a tag.
    TaggedCount,
}

impl Lookup {
    /// The parts of the query.
    pub open spec fn form(self) -> Form {
        match self {
            Lookup::File => Form {
                verb: Verb::Select,
                table: "files"@,
                columns: seq![shown("file_size"), shown("device_id"), shown("quick_hash")],
                tests: seq![Test::Equals("blake3_hash", 1)],
            },
            Lookup::Location => Form {
                verb: Verb::Select,
                table: "file_locations"@,
                columns: seq![shown("id"), shown("blake3_hash"), shown("device_id")],
                tests: seq![Test::Equals("volume_id", 1), Test::Equals("relative_path", 2), Test::Absent("deleted_at")],
            },
            Lookup::LocationId => Form {
                verb: Verb::Select,
                table: "file_locations"@,
                columns: seq![shown("id")],
                tests: seq![Test::Equals("volume_id", 1), Test::Equals("relative_path", 2), Test::Absent("deleted_at")],
            },
            Lookup::MetadataOwner => Form {
                verb: Verb::Select,
                table: "file_metadata"@,
                columns: seq![shown("device_id"), shown("mime_type")],
                tests: seq![Test::Equals("blake3_hash", 1), Test::Absent("deleted_at")],
            },
            Lookup::Metadata => Form {
                verb: Verb::Select,
                table: "file_metadata"@,
                columns: seq![shown("width"), shown("height"), shown("duration_ms"), shown("captured_at"), shown("camera_make"), shown("camera_model"), shown("codec"), shown("bitrate_bps"), shown("mime_type"), shown("thumbnail_path"), shown("thumbnail_status")],
                tests: seq![Test::Equals("blake3_hash", 1), Test::Absent("deleted_at")],
            },
            Lookup::Tag => Form {
                verb: Verb::Select,
                table: "tags"@,
                columns: seq![shown("id"), shown("first_seen")],
                tests: seq![Test::Equals("name", 1), Test::Absent("deleted_at")],
            },
            Lookup::Link => Form {
                verb: Verb::Select,
                table: "file_tags"@,
                columns: seq![shown("id")],
                tests: seq![Test::Equals("blake3_hash", 1), Test::Equals("tag_id", 2), Test::Absent("deleted_at")],
            },
            Lookup::TaggedHashes => Form {
                verb: Verb::Select,
                table: "file_tags"@,
                columns: seq![shown("blake3_hash")],
                tests: seq![Test::Equals("tag_id", 1), Test::Absent("deleted_at")],
            },
            Lookup::CacheId => Form {
                verb: Verb::Select,
                table: "file_identity_cache"@,
                columns: seq![shown("id")],
                tests: seq![Test::Equals("device_id", 1), Test::Equals("volume_id", 2), Test::Equals("fs_file_id", 3), Test::Equals("size_bytes", 4), Test::Equals("mtime_ns", 5), Test::Absent("deleted_at")],
            },
            Lookup::CacheEntry => Form {
                verb: Verb::Select,
                table: "file_identity_cache"@,
                columns: seq![shown("quick_hash"), shown("full_hash")],
                tests: seq![Test::Equals("device_id", 1), Test::Equals("volume_id", 2), Test::Equals("fs_file_id", 3), Test::Equals("size_bytes", 4), Test::Equals("mtime_ns", 5), Test::Absent("deleted_at")],
            },
            Lookup::VolumeByGuid => Form {
                verb: Verb::Select,
                table: "volumes"@,
                columns: seq![shown("volume_id")],
                tests: seq![Test::Equals("gpt_partition_guid", 1), Test::Absent("deleted_at")],
            },
            Lookup::VolumeByFsUuid => Form {
                verb: Verb::Select,
                table: "volumes"@,
                columns: seq![shown("volume_id")],
                tests: seq![Test::Equals("fs_uuid", 1), Test::Absent("deleted_at")],
            },
            Lookup::VolumeByLabel => Form {
                verb: Verb::Select,
                table: "volumes"@,
                columns: seq![shown("volume_id")],
                tests: seq![Test::Equals("volume_label", 1), Test::Equals("capacity_bytes", 2), Test::Absent("deleted_at")],
            },
            Lookup::Mount => Form {
                verb: Verb::Select,
                table: "volume_mounts"@,
                columns: seq![shown("id")],
                tests: seq![Test::Equals("volume_id", 1), Test::Equals("machine_id", 2), Test::Equals("mount_path", 3), Test::Absent("deleted_at")],
            },
            Lookup::LocationCount => Form {
                verb: Verb::Count,
                table: "file_locations"@,
                columns: seq![],
                tests: seq![Test::Absent("deleted_at")],
            },
            Lookup::MissingCount => Form {
                verb: Verb::Count,
                table: "file_locations"@,
                columns: seq![],
                tests: seq![Test::Says("status", "missing"), Test::Absent("deleted_at")],
            },
            Lookup::TaggedCount => Form {
                verb: Verb::Count,
                table: "file_tags"@,
                columns: seq![],
                tests: seq![Test::Equals("tag_id", 1), Test::Absent("deleted_at")],
            },
        }
    }

    /// The parts of the query.
    pub fn shape(&self) -> (r: Shape)
        ensures
            r@ == self.form(),
    {
        let r = match self {
            Lookup::File => Shape {
                verb: Verb::Select,
                table: "files",
                columns: vec![show("file_size"), show("device_id"), show("quick_hash")],
                tests: vec![Test::Equals("blake3_hash", 1)],
            },
            Lookup::Location => Shape {
                verb: Verb::Select,
                table: "file_locations",
                columns: vec![show("id"), show("blake3_hash"), show("device_id")],
                tests: vec![Test::Equals("volume_id", 1), Test::Equals("relative_path", 2), Test::Absent("deleted_at")],
            },
            Lookup::LocationId => Shape {
                verb: Verb::Select,
                table: "file_locations",
                columns: vec![show("id")],
                tests: vec![Test::Equals("volume_id", 1), Test::Equals("relative_path", 2), Test::Absent("deleted_at")],
            },
            Lookup::MetadataOwner => Shape {
                verb: Verb::Select,
                table: "file_metadata",
                columns: vec![show("device_id"), show("mime_type")],
                tests: vec![Test::Equals("blake3_hash", 1), Test::Absent("deleted_at")],
            },
            Lookup::Metadata => Shape {
                verb: Verb::Select,
                table: "file_metadata",
                columns: vec![show("width"), show("height"), show("duration_ms"), show("captured_at"), show("camera_make"), show("camera_model"), show("codec"), show("bitrate_bps"), show("mime_type"), show("thumbnail_path"), show("thumbnail_status")],
                tests: vec![Test::Equals("blake3_hash", 1), Test::Absent("deleted_at")],
            },
            Lookup::Tag => Shape {
                verb: Verb::Select,
                table: "tags",
                columns: vec![show("id"), show("first_seen")],
                tests: vec![Test::Equals("name", 1), Test::Absent("deleted_at")],
            },
            Lookup::Link => Shape {
                verb: Verb::Select,
                table: "file_tags",
                columns: vec![show("id")],
                tests: vec![Test::Equals("blake3_hash", 1), Test::Equals("tag_id", 2), Test::Absent("deleted_at")],
            },
            Lookup::TaggedHashes => Shape {
                verb: Verb::Select,
                table: "file_tags",
                columns: vec![show("blake3_hash")],
                tests: vec![Test::Equals("tag_id", 1), Test::Absent("deleted_at")],
            },
            Lookup::CacheId => Shape {
                verb: Verb::Select,
                table: "file_identity_cache",
                columns: vec![show("id")],
                tests: vec![Test::Equals("device_id", 1), Test::Equals("volume_id", 2), Test::Equals("fs_file_id", 3), Test::Equals("size_bytes", 4), Test::Equals("mtime_ns", 5), Test::Absent("deleted_at")],
            },
            Lookup::CacheEntry => Shape {
                verb: Verb::Select,
                table: "file_identity_cache",
                columns: vec![show("quick_hash"), show("full_hash")],
                tests: vec![Test::Equals("device_id", 1), Test::Equals("volume_id", 2), Test::Equals("fs_file_id", 3), Test::Equals("size_bytes", 4), Test::Equals("mtime_ns", 5), Test::Absent("deleted_at")],
            },
            Lookup::VolumeByGuid => Shape {
                verb: Verb::Select,
                table: "volumes",
                columns: vec![show("volume_id")],
                tests: vec![Test::Equals("gpt_partition_guid", 1), Test::Absent("deleted_at")],
            },
            Lookup::VolumeByFsUuid => Shape {
                verb: Verb::Select,
                table: "volumes",
                columns: vec![show("volume_id")],
                tests: vec![Test::Equals("fs_uuid", 1), Test::Absent("deleted_at")],
            },
            Lookup::VolumeByLabel => Shape {
                verb: Verb::Select,
                table: "volumes",
                columns: vec![show("volume_id")],
                tests: vec![Test::Equals("volume_label", 1), Test::Equals("capacity_bytes", 2), Test::Absent("deleted_at")],
            },
            Lookup::Mount => Shape {
                verb: Verb::Select,
                table: "volume_mounts",
                columns: vec![show("id")],
                tests: vec![Test::Equals("volume_id", 1), Test::Equals("machine_id", 2), Test::Equals("mount_path", 3), Test::Absent("deleted_at")],
            },
            Lookup::LocationCount => Shape {
                verb: Verb::Count,
                table: "file_locations",
                columns: Vec::new(),
                tests: vec![Test::Absent("deleted_at")],
            },
            Lookup::MissingCount => Shape {
                verb: Verb::Count,
                table: "file_locations",
                columns: Vec::new(),
                tests: vec![Test::Says("status", "missing"), Test::Absent("deleted_at")],
            },
            Lookup::TaggedCount => Shape {
                verb: Verb::Count,
                table: "file_tags",
                columns: Vec::new(),
                tests: vec![Test::Equals("tag_id", 1), Test::Absent("deleted_at")],
            },
        };
        assert(r.columns@ =~= self.form().columns);
        assert(r.tests@ =~= self.form().tests);
        r
    }

    /// The text of the query.
    pub open spec fn sql(self) -> Seq<char> {
        self.form().text()
    }
}

} // verus!
