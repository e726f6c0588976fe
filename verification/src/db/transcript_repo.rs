//! Transcripts as rows.
use vstd::prelude::*;
use vstd::string::*;

use crate::ids::{new_id, simple_form, Uuid};
use crate::transcription::TranscriptSegment;

verus! {

/// Identifier of a transcript or of a segment: a UUID as thirty-two digits.
#[derive(Clone, Debug, PartialEq, Eq, Hash)]
pub struct TranscriptId(pub String);

impl TranscriptId {
    /// Generates an identifier for a new transcript.
    pub fn new() -> (r: TranscriptId)
        ensures
            exists|u: Uuid| #[trigger] u.is_v7() && r.0@ == simple_form(u.0),
    {
        let id = new_id();
        TranscriptId(id.to_simple())
    }

    /// A copy of this identifier.
    pub fn copy(&self) -> (r: TranscriptId)
        ensures
            r == *self,
    {
        TranscriptId(self.0.clone())
    }
}

impl Default for TranscriptId {
    fn default() -> (r: TranscriptId)
        ensures
            exists|u: Uuid| #[trigger] u.is_v7() && r.0@ == simple_form(u.0),
    {
        TranscriptId::new()
    }
}

/// A transcript to be stored.
#[derive(Clone, Debug)]
pub struct TranscriptRow {
    pub id: TranscriptId,
    /// The file that was transcribed.
    pub file_uuid: String,
    /// Backend identifier in `provider:model` form.
    pub backend: String,
    pub language: Option<String>,
    pub duration_ms: u32,
}

/// A segment to be stored.
#[derive(Clone, Debug)]
pub struct TranscriptSegmentRow {
    pub id: TranscriptId,
    /// The transcript of the segment. Storing it takes the transcript that it is
    /// stored with instead.
    pub transcript_id: TranscriptId,
    pub start_ms: u32,
    pub end_ms: u32,
    pub text: String,
    /// The IEEE 754 bits of a single-precision confidence of roughly 0 to 1, if
    /// there is one.
    pub confidence_bits: Option<u32>,
}

impl vstd::std_specs::convert::FromSpecImpl<TranscriptSegment> for TranscriptSegmentRow {
    open spec fn obeys_from_spec() -> bool {
        false
    }

    open spec fn from_spec(v: TranscriptSegment) -> Self {
        arbitrary()
    }
}

impl From<TranscriptSegment> for TranscriptSegmentRow {
    /// The row of a segment; its transcript is left open.
    fn from(seg: TranscriptSegment) -> (r: TranscriptSegmentRow)
        ensures
            r.id.0@ == simple_form(seg.id.0),
            r.transcript_id.0@ == Seq::<char>::empty(),
            r.start_ms == seg.start_ms,
            r.end_ms == seg.end_ms,
            r.text == seg.text,
            r.confidence_bits == seg.confidence_bits,
    {
        TranscriptSegmentRow {
            id: TranscriptId(seg.id.to_simple()),
            transcript_id: TranscriptId(String::new()),
            start_ms: seg.start_ms,
            end_ms: seg.end_ms,
            text: seg.text,
            confidence_bits: seg.confidence_bits,
        }
    }
}

} // verus!
