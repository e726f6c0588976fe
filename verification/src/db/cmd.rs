//! The commands that the writer takes.
use vstd::prelude::*;

use crate::db::writer::backup::BackupWriteCmd;
use crate::db::writer::cache::CacheWriteCmd;
use crate::db::writer::file::FileWriteCmd;
use crate::db::writer::metadata::MetadataWriteCmd;
use crate::db::writer::search::SearchWriteCmd;
use crate::db::writer::tag::TagWriteCmd;
use crate::db::writer::transcript::TranscriptInsert;
use crate::db::writer::volume::VolumeWriteCmd;

verus! {

/// A command for the writer.
#[derive(Clone, Debug)]
#[non_exhaustive]
pub enum WriteCmd {
    Volume(VolumeWriteCmd),
    Tag(TagWriteCmd),
    Metadata(MetadataWriteCmd),
    File(FileWriteCmd),
    Search(SearchWriteCmd),
    Cache(CacheWriteCmd),
    Transcript(TranscriptInsert),
    Backup(BackupWriteCmd),
    /// Stop taking commands.
    Shutdown,
}

impl WriteCmd {
    /// The name of the command in logs.
    pub open spec fn kind(self) -> Seq<char> {
        match self {
            WriteCmd::Volume(_) => "volume"@,
            WriteCmd::Tag(_) => "tag"@,
            WriteCmd::Metadata(_) => "metadata"@,
            WriteCmd::File(_) => "file"@,
            WriteCmd::Search(_) => "search"@,
            WriteCmd::Cache(CacheWriteCmd::UpsertCacheRow { .. }) => "upsert_cache_row"@,
            WriteCmd::Cache(CacheWriteCmd::SoftDeleteCacheRow { .. }) => "soft_delete_cache_row"@,
            WriteCmd::Transcript(_) => "transcript"@,
            WriteCmd::Backup(_) => "backup"@,
            WriteCmd::Shutdown => "shutdown"@,
        }
    }

    /// The name of the command in logs.
    pub fn kind_str(&self) -> (r: &'static str)
        ensures
            r@ == self.kind(),
    {
        match self {
            WriteCmd::Volume(_) => "volume",
            WriteCmd::Tag(_) => "tag",
            WriteCmd::Metadata(_) => "metadata",
            WriteCmd::File(_) => "file",
            WriteCmd::Search(_) => "search",
            WriteCmd::Cache(c) => c.kind_str(),
            WriteCmd::Transcript(_) => "transcript",
            WriteCmd::Backup(_) => "backup",
            WriteCmd::Shutdown => "shutdown",
        }
    }

    /// Whether the writer goes on after what it received: it stops at the command
    /// to stop, and where nobody can send any more.
    pub fn keeps_running(received: &Option<WriteCmd>) -> (r: bool)
        ensures
            r == (*received matches Some(cmd) && !(cmd is Shutdown)),
    {
        match received {
            Some(WriteCmd::Shutdown) => false,
            Some(_) => true,
            None => false,
        }
    }
}

} // verus!
