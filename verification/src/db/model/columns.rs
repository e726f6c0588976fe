//! The names of columns, told apart.
use vstd::prelude::*;
use vstd::string::*;

verus! {

/// The names of the columns of `files` differ from one another.
pub(crate) proof fn lemma_files_columns()
    ensures
        "blake3_hash"@.len() == 11,
        "file_uuid"@.len() == 9,
        "file_size"@.len() == 9,
        "quick_hash"@.len() == 10,
        "first_seen"@.len() == 10,
        "updated_at"@.len() == 10,
        "device_id"@.len() == 9,
        "hlc"@.len() == 3,
        "deleted_at"@.len() == 10,
        "verified_distinct"@.len() == 17,
        "deleted_at"@[0] == 'd',
        "device_id"@[5] == 'e',
        "file_size"@[5] == 's',
        "file_uuid"@[5] == 'u',
        "first_seen"@[0] == 'f',
        "quick_hash"@[0] == 'q',
        "updated_at"@[0] == 'u',
{
    reveal_strlit("blake3_hash");
    reveal_strlit("file_uuid");
    reveal_strlit("file_size");
    reveal_strlit("quick_hash");
    reveal_strlit("first_seen");
    reveal_strlit("updated_at");
    reveal_strlit("device_id");
    reveal_strlit("hlc");
    reveal_strlit("deleted_at");
    reveal_strlit("verified_distinct");
    assert("blake3_hash"@.len() == 11);
    assert("file_uuid"@.len() == 9);
    assert("file_size"@.len() == 9);
    assert("quick_hash"@.len() == 10);
    assert("first_seen"@.len() == 10);
    assert("updated_at"@.len() == 10);
    assert("device_id"@.len() == 9);
    assert("hlc"@.len() == 3);
    assert("deleted_at"@.len() == 10);
    assert("verified_distinct"@.len() == 17);
    assert("deleted_at"@[0] == 'd');
    assert("device_id"@[5] == 'e');
    assert("file_size"@[5] == 's');
    assert("file_uuid"@[5] == 'u');
    assert("first_seen"@[0] == 'f');
    assert("quick_hash"@[0] == 'q');
    assert("updated_at"@[0] == 'u');
}

/// The names of the columns of `file_locations` differ from one another.
pub(crate) proof fn lemma_file_locations_columns()
    ensures
        "id"@.len() == 2,
        "blake3_hash"@.len() == 11,
        "file_uuid"@.len() == 9,
        "volume_id"@.len() == 9,
        "relative_path"@.len() == 13,
        "status"@.len() == 6,
        "first_seen"@.len() == 10,
        "updated_at"@.len() == 10,
        "device_id"@.len() == 9,
        "hlc"@.len() == 3,
        "deleted_at"@.len() == 10,
        "deleted_at"@[0] == 'd',
        "device_id"@[0] == 'd',
        "file_uuid"@[0] == 'f',
        "first_seen"@[0] == 'f',
        "updated_at"@[0] == 'u',
        "volume_id"@[0] == 'v',
{
    reveal_strlit("id");
    reveal_strlit("blake3_hash");
    reveal_strlit("file_uuid");
    reveal_strlit("volume_id");
    reveal_strlit("relative_path");
    reveal_strlit("status");
    reveal_strlit("first_seen");
    reveal_strlit("updated_at");
    reveal_strlit("device_id");
    reveal_strlit("hlc");
    reveal_strlit("deleted_at");
    assert("id"@.len() == 2);
    assert("blake3_hash"@.len() == 11);
    assert("file_uuid"@.len() == 9);
    assert("volume_id"@.len() == 9);
    assert("relative_path"@.len() == 13);
    assert("status"@.len() == 6);
    assert("first_seen"@.len() == 10);
    assert("updated_at"@.len() == 10);
    assert("device_id"@.len() == 9);
    assert("hlc"@.len() == 3);
    assert("deleted_at"@.len() == 10);
    assert("deleted_at"@[0] == 'd');
    assert("device_id"@[0] == 'd');
    assert("file_uuid"@[0] == 'f');
    assert("first_seen"@[0] == 'f');
    assert("updated_at"@[0] == 'u');
    assert("volume_id"@[0] == 'v');
}

/// The names of the columns of `file_metadata` differ from one another.
pub(crate) proof fn lemma_file_metadata_columns()
    ensures
        "blake3_hash"@.len() == 11,
        "width"@.len() == 5,
        "height"@.len() == 6,
        "duration_ms"@.len() == 11,
        "captured_at"@.len() == 11,
        "camera_make"@.len() == 11,
        "camera_model"@.len() == 12,
        "codec"@.len() == 5,
        "bitrate_bps"@.len() == 11,
        "mime_type"@.len() == 9,
        "thumbnail_status"@.len() == 16,
        "extracted_at"@.len() == 12,
        "updated_at"@.len() == 10,
        "device_id"@.len() == 9,
        "hlc"@.len() == 3,
        "thumbnail_path"@.len() == 14,
        "deleted_at"@.len() == 10,
        "bitrate_bps"@[0] == 'b',
        "bitrate_bps"@[1] == 'i',
        "blake3_hash"@[0] == 'b',
        "blake3_hash"@[1] == 'l',
        "camera_make"@[0] == 'c',
        "camera_make"@[2] == 'm',
        "camera_model"@[0] == 'c',
        "captured_at"@[0] == 'c',
        "captured_at"@[2] == 'p',
        "codec"@[0] == 'c',
        "deleted_at"@[0] == 'd',
        "device_id"@[0] == 'd',
        "duration_ms"@[0] == 'd',
        "extracted_at"@[0] == 'e',
        "mime_type"@[0] == 'm',
        "updated_at"@[0] == 'u',
        "width"@[0] == 'w',
{
    reveal_strlit("blake3_hash");
    reveal_strlit("width");
    reveal_strlit("height");
    reveal_strlit("duration_ms");
    reveal_strlit("captured_at");
    reveal_strlit("camera_make");
    reveal_strlit("camera_model");
    reveal_strlit("codec");
    reveal_strlit("bitrate_bps");
    reveal_strlit("mime_type");
    reveal_strlit("thumbnail_status");
    reveal_strlit("extracted_at");
    reveal_strlit("updated_at");
    reveal_strlit("device_id");
    reveal_strlit("hlc");
    reveal_strlit("thumbnail_path");
    reveal_strlit("deleted_at");
    assert("blake3_hash"@.len() == 11);
    assert("width"@.len() == 5);
    assert("height"@.len() == 6);
    assert("duration_ms"@.len() == 11);
    assert("captured_at"@.len() == 11);
    assert("camera_make"@.len() == 11);
    assert("camera_model"@.len() == 12);
    assert("codec"@.len() == 5);
    assert("bitrate_bps"@.len() == 11);
    assert("mime_type"@.len() == 9);
    assert("thumbnail_status"@.len() == 16);
    assert("extracted_at"@.len() == 12);
    assert("updated_at"@.len() == 10);
    assert("device_id"@.len() == 9);
    assert("hlc"@.len() == 3);
    assert("thumbnail_path"@.len() == 14);
    assert("deleted_at"@.len() == 10);
    assert("bitrate_bps"@[0] == 'b');
    assert("bitrate_bps"@[1] == 'i');
    assert("blake3_hash"@[0] == 'b');
    assert("blake3_hash"@[1] == 'l');
    assert("camera_make"@[0] == 'c');
    assert("camera_make"@[2] == 'm');
    assert("camera_model"@[0] == 'c');
    assert("captured_at"@[0] == 'c');
    assert("captured_at"@[2] == 'p');
    assert("codec"@[0] == 'c');
    assert("deleted_at"@[0] == 'd');
    assert("device_id"@[0] == 'd');
    assert("duration_ms"@[0] == 'd');
    assert("extracted_at"@[0] == 'e');
    assert("mime_type"@[0] == 'm');
    assert("updated_at"@[0] == 'u');
    assert("width"@[0] == 'w');
}

/// The names of the columns of `volumes` differ from one another.
pub(crate) proof fn lemma_volumes_columns()
    ensures
        "last_seen"@.len() == 9,
        "updated_at"@.len() == 10,
        "device_id"@.len() == 9,
        "hlc"@.len() == 3,
        "volume_id"@.len() == 9,
        "gpt_partition_guid"@.len() == 18,
        "fs_uuid"@.len() == 7,
        "volume_label"@.len() == 12,
        "capacity_bytes"@.len() == 14,
        "is_removable"@.len() == 12,
        "deleted_at"@.len() == 10,
        "deleted_at"@[0] == 'd',
        "device_id"@[0] == 'd',
        "is_removable"@[0] == 'i',
        "last_seen"@[0] == 'l',
        "updated_at"@[0] == 'u',
        "volume_id"@[0] == 'v',
        "volume_label"@[0] == 'v',
{
    reveal_strlit("last_seen");
    reveal_strlit("updated_at");
    reveal_strlit("device_id");
    reveal_strlit("hlc");
    reveal_strlit("volume_id");
    reveal_strlit("gpt_partition_guid");
    reveal_strlit("fs_uuid");
    reveal_strlit("volume_label");
    reveal_strlit("capacity_bytes");
    reveal_strlit("is_removable");
    reveal_strlit("deleted_at");
    assert("last_seen"@.len() == 9);
    assert("updated_at"@.len() == 10);
    assert("device_id"@.len() == 9);
    assert("hlc"@.len() == 3);
    assert("volume_id"@.len() == 9);
    assert("gpt_partition_guid"@.len() == 18);
    assert("fs_uuid"@.len() == 7);
    assert("volume_label"@.len() == 12);
    assert("capacity_bytes"@.len() == 14);
    assert("is_removable"@.len() == 12);
    assert("deleted_at"@.len() == 10);
    assert("deleted_at"@[0] == 'd');
    assert("device_id"@[0] == 'd');
    assert("is_removable"@[0] == 'i');
    assert("last_seen"@[0] == 'l');
    assert("updated_at"@[0] == 'u');
    assert("volume_id"@[0] == 'v');
    assert("volume_label"@[0] == 'v');
}

/// The names of the columns of `volume_mounts` differ from one another.
pub(crate) proof fn lemma_volume_mounts_columns()
    ensures
        "deleted_at"@.len() == 10,
        "updated_at"@.len() == 10,
        "device_id"@.len() == 9,
        "volume_id"@.len() == 9,
        "machine_id"@.len() == 10,
        "mount_path"@.len() == 10,
        "id"@.len() == 2,
        "first_seen"@.len() == 10,
        "deleted_at"@[0] == 'd',
        "device_id"@[0] == 'd',
        "first_seen"@[0] == 'f',
        "machine_id"@[0] == 'm',
        "machine_id"@[1] == 'a',
        "mount_path"@[0] == 'm',
        "mount_path"@[1] == 'o',
        "updated_at"@[0] == 'u',
        "volume_id"@[0] == 'v',
{
    reveal_strlit("deleted_at");
    reveal_strlit("updated_at");
    reveal_strlit("device_id");
    reveal_strlit("volume_id");
    reveal_strlit("machine_id");
    reveal_strlit("mount_path");
    reveal_strlit("id");
    reveal_strlit("first_seen");
    assert("deleted_at"@.len() == 10);
    assert("updated_at"@.len() == 10);
    assert("device_id"@.len() == 9);
    assert("volume_id"@.len() == 9);
    assert("machine_id"@.len() == 10);
    assert("mount_path"@.len() == 10);
    assert("id"@.len() == 2);
    assert("first_seen"@.len() == 10);
    assert("deleted_at"@[0] == 'd');
    assert("device_id"@[0] == 'd');
    assert("first_seen"@[0] == 'f');
    assert("machine_id"@[0] == 'm');
    assert("machine_id"@[1] == 'a');
    assert("mount_path"@[0] == 'm');
    assert("mount_path"@[1] == 'o');
    assert("updated_at"@[0] == 'u');
    assert("volume_id"@[0] == 'v');
}

/// The names of the columns of `tags` differ from one another.
pub(crate) proof fn lemma_tags_columns()
    ensures
        "id"@.len() == 2,
        "name"@.len() == 4,
        "first_seen"@.len() == 10,
        "updated_at"@.len() == 10,
        "device_id"@.len() == 9,
        "hlc"@.len() == 3,
        "deleted_at"@.len() == 10,
        "deleted_at"@[0] == 'd',
        "first_seen"@[0] == 'f',
        "updated_at"@[0] == 'u',
{
    reveal_strlit("id");
    reveal_strlit("name");
    reveal_strlit("first_seen");
    reveal_strlit("updated_at");
    reveal_strlit("device_id");
    reveal_strlit("hlc");
    reveal_strlit("deleted_at");
    assert("id"@.len() == 2);
    assert("name"@.len() == 4);
    assert("first_seen"@.len() == 10);
    assert("updated_at"@.len() == 10);
    assert("device_id"@.len() == 9);
    assert("hlc"@.len() == 3);
    assert("deleted_at"@.len() == 10);
    assert("deleted_at"@[0] == 'd');
    assert("first_seen"@[0] == 'f');
    assert("updated_at"@[0] == 'u');
}

/// The names of the columns of `file_tags` differ from one another.
pub(crate) proof fn lemma_file_tags_columns()
    ensures
        "id"@.len() == 2,
        "blake3_hash"@.len() == 11,
        "tag_id"@.len() == 6,
        "first_seen"@.len() == 10,
        "updated_at"@.len() == 10,
        "device_id"@.len() == 9,
        "hlc"@.len() == 3,
        "deleted_at"@.len() == 10,
        "deleted_at"@[0] == 'd',
        "first_seen"@[0] == 'f',
        "updated_at"@[0] == 'u',
{
    reveal_strlit("id");
    reveal_strlit("blake3_hash");
    reveal_strlit("tag_id");
    reveal_strlit("first_seen");
    reveal_strlit("updated_at");
    reveal_strlit("device_id");
    reveal_strlit("hlc");
    reveal_strlit("deleted_at");
    assert("id"@.len() == 2);
    assert("blake3_hash"@.len() == 11);
    assert("tag_id"@.len() == 6);
    assert("first_seen"@.len() == 10);
    assert("updated_at"@.len() == 10);
    assert("device_id"@.len() == 9);
    assert("hlc"@.len() == 3);
    assert("deleted_at"@.len() == 10);
    assert("deleted_at"@[0] == 'd');
    assert("first_seen"@[0] == 'f');
    assert("updated_at"@[0] == 'u');
}

/// The names of the columns of `file_identity_cache` differ from one another.
pub(crate) proof fn lemma_file_identity_cache_columns()
    ensures
        "id"@.len() == 2,
        "device_id"@.len() == 9,
        "volume_id"@.len() == 9,
        "fs_file_id"@.len() == 10,
        "size_bytes"@.len() == 10,
        "mtime_ns"@.len() == 8,
        "quick_hash"@.len() == 10,
        "full_hash"@.len() == 9,
        "last_verified"@.len() == 13,
        "first_seen"@.len() == 10,
        "updated_at"@.len() == 10,
        "deleted_at"@.len() == 10,
        "deleted_at"@[0] == 'd',
        "device_id"@[0] == 'd',
        "first_seen"@[0] == 'f',
        "first_seen"@[1] == 'i',
        "fs_file_id"@[0] == 'f',
        "fs_file_id"@[1] == 's',
        "full_hash"@[0] == 'f',
        "quick_hash"@[0] == 'q',
        "size_bytes"@[0] == 's',
        "updated_at"@[0] == 'u',
        "volume_id"@[0] == 'v',
{
    reveal_strlit("id");
    reveal_strlit("device_id");
    reveal_strlit("volume_id");
    reveal_strlit("fs_file_id");
    reveal_strlit("size_bytes");
    reveal_strlit("mtime_ns");
    reveal_strlit("quick_hash");
    reveal_strlit("full_hash");
    reveal_strlit("last_verified");
    reveal_strlit("first_seen");
    reveal_strlit("updated_at");
    reveal_strlit("deleted_at");
    assert("id"@.len() == 2);
    assert("device_id"@.len() == 9);
    assert("volume_id"@.len() == 9);
    assert("fs_file_id"@.len() == 10);
    assert("size_bytes"@.len() == 10);
    assert("mtime_ns"@.len() == 8);
    assert("quick_hash"@.len() == 10);
    assert("full_hash"@.len() == 9);
    assert("last_verified"@.len() == 13);
    assert("first_seen"@.len() == 10);
    assert("updated_at"@.len() == 10);
    assert("deleted_at"@.len() == 10);
    assert("deleted_at"@[0] == 'd');
    assert("device_id"@[0] == 'd');
    assert("first_seen"@[0] == 'f');
    assert("first_seen"@[1] == 'i');
    assert("fs_file_id"@[0] == 'f');
    assert("fs_file_id"@[1] == 's');
    assert("full_hash"@[0] == 'f');
    assert("quick_hash"@[0] == 'q');
    assert("size_bytes"@[0] == 's');
    assert("updated_at"@[0] == 'u');
    assert("volume_id"@[0] == 'v');
}

/// The names of the columns of `transcript` differ from one another.
pub(crate) proof fn lemma_transcript_columns()
    ensures
        "id"@.len() == 2,
        "file_uuid"@.len() == 9,
        "backend"@.len() == 7,
        "language"@.len() == 8,
        "duration_ms"@.len() == 11,
        "completed_at"@.len() == 12,
        "created_at"@.len() == 10,
        "updated_at"@.len() == 10,
        "device_id"@.len() == 9,
        "hlc"@.len() == 3,
        "deleted_at"@.len() == 10,
        "created_at"@[0] == 'c',
        "deleted_at"@[0] == 'd',
        "device_id"@[0] == 'd',
        "file_uuid"@[0] == 'f',
        "updated_at"@[0] == 'u',
{
    reveal_strlit("id");
    reveal_strlit("file_uuid");
    reveal_strlit("backend");
    reveal_strlit("language");
    reveal_strlit("duration_ms");
    reveal_strlit("completed_at");
    reveal_strlit("created_at");
    reveal_strlit("updated_at");
    reveal_strlit("device_id");
    reveal_strlit("hlc");
    reveal_strlit("deleted_at");
    assert("id"@.len() == 2);
    assert("file_uuid"@.len() == 9);
    assert("backend"@.len() == 7);
    assert("language"@.len() == 8);
    assert("duration_ms"@.len() == 11);
    assert("completed_at"@.len() == 12);
    assert("created_at"@.len() == 10);
    assert("updated_at"@.len() == 10);
    assert("device_id"@.len() == 9);
    assert("hlc"@.len() == 3);
    assert("deleted_at"@.len() == 10);
    assert("created_at"@[0] == 'c');
    assert("deleted_at"@[0] == 'd');
    assert("device_id"@[0] == 'd');
    assert("file_uuid"@[0] == 'f');
    assert("updated_at"@[0] == 'u');
}

/// The names of the columns of `transcript_segment` differ from one another.
pub(crate) proof fn lemma_transcript_segment_columns()
    ensures
        "id"@.len() == 2,
        "transcript_id"@.len() == 13,
        "start_ms"@.len() == 8,
        "end_ms"@.len() == 6,
        "text"@.len() == 4,
        "confidence"@.len() == 10,
        "created_at"@.len() == 10,
        "updated_at"@.len() == 10,
        "device_id"@.len() == 9,
        "hlc"@.len() == 3,
        "deleted_at"@.len() == 10,
        "confidence"@[1] == 'o',
        "created_at"@[1] == 'r',
        "deleted_at"@[1] == 'e',
        "updated_at"@[1] == 'p',
{
    reveal_strlit("id");
    reveal_strlit("transcript_id");
    reveal_strlit("start_ms");
    reveal_strlit("end_ms");
    reveal_strlit("text");
    reveal_strlit("confidence");
    reveal_strlit("created_at");
    reveal_strlit("updated_at");
    reveal_strlit("device_id");
    reveal_strlit("hlc");
    reveal_strlit("deleted_at");
    assert("id"@.len() == 2);
    assert("transcript_id"@.len() == 13);
    assert("start_ms"@.len() == 8);
    assert("end_ms"@.len() == 6);
    assert("text"@.len() == 4);
    assert("confidence"@.len() == 10);
    assert("created_at"@.len() == 10);
    assert("updated_at"@.len() == 10);
    assert("device_id"@.len() == 9);
    assert("hlc"@.len() == 3);
    assert("deleted_at"@.len() == 10);
    assert("confidence"@[1] == 'o');
    assert("created_at"@[1] == 'r');
    assert("deleted_at"@[1] == 'e');
    assert("updated_at"@[1] == 'p');
}

/// The names of the columns of `manifest_meta` differ from one another.
pub(crate) proof fn lemma_manifest_meta_columns()
    ensures
        "key"@.len() == 3,
        "value"@.len() == 5,
{
    reveal_strlit("key");
    reveal_strlit("value");
    assert("key"@.len() == 3);
    assert("value"@.len() == 5);
}

/// The names of the columns of `manifest_files` differ from one another.
pub(crate) proof fn lemma_manifest_files_columns()
    ensures
        "blake3_hash"@.len() == 11,
        "file_size"@.len() == 9,
        "relative_path"@.len() == 13,
        "first_seen"@.len() == 10,
        "updated_at"@.len() == 10,
        "first_seen"@[0] == 'f',
        "updated_at"@[0] == 'u',
{
    reveal_strlit("blake3_hash");
    reveal_strlit("file_size");
    reveal_strlit("relative_path");
    reveal_strlit("first_seen");
    reveal_strlit("updated_at");
    assert("blake3_hash"@.len() == 11);
    assert("file_size"@.len() == 9);
    assert("relative_path"@.len() == 13);
    assert("first_seen"@.len() == 10);
    assert("updated_at"@.len() == 10);
    assert("first_seen"@[0] == 'f');
    assert("updated_at"@[0] == 'u');
}

} // verus!
