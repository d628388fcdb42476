//! The transcript data model and its four text renderers.
//!
//! A transcript is an ordered sequence of timed segments plus one metadata
//! record. All times are integer milliseconds. Each renderer is a pure
//! function from the model to a string, specified character by character.

use vstd::prelude::*;

use crate::numfmt::{pad2, pad3};

pub mod json;
pub mod srt;
pub mod txt;
pub mod vtt;

verus! {

/// One timed utterance: start and end in milliseconds, with its text.
///
/// The text may carry surrounding whitespace; the subtitle renderers trim it
/// on emission, the model itself does not.
#[derive(Debug, Clone)]
pub struct Segment {
    pub start: u64,
    pub end: u64,
    pub text: String,
}

impl Segment {
    /// A segment from its parts.
    pub fn new(start: u64, end: u64, text: &str) -> (r: Segment)
        ensures
            r.start == start,
            r.end == end,
            r.text@ == text@,
    {
        Segment { start, end, text: text.to_owned() }
    }
}

/// Descriptive facts about one transcription run. `duration` is in
/// milliseconds, `None` when unknown.
#[derive(Debug, Clone)]
pub struct Metadata {
    pub title: String,
    pub source: String,
    pub duration: Option<u64>,
    pub model: String,
    pub language: Option<String>,
}

impl Metadata {
    /// A metadata record from its parts.
    pub fn new(
        title: &str,
        source: &str,
        duration: Option<u64>,
        model: &str,
        language: Option<String>,
    ) -> (r: Metadata)
        ensures
            r.title@ == title@,
            r.source@ == source@,
            r.duration == duration,
            r.model@ == model@,
            r.language == language,
    {
        Metadata {
            title: title.to_owned(),
            source: source.to_owned(),
            duration,
            model: model.to_owned(),
            language,
        }
    }
}

/// A complete transcript: ordered segments plus metadata. The segment list
/// may be empty; every renderer yields well-formed output for that case.
#[derive(Debug, Clone)]
pub struct Transcript {
    pub segments: Vec<Segment>,
    pub metadata: Metadata,
}

impl Transcript {
    /// A transcript from its parts.
    pub fn new(segments: Vec<Segment>, metadata: Metadata) -> (r: Transcript)
        ensures
            r.segments == segments,
            r.metadata == metadata,
    {
        Transcript { segments, metadata }
    }

    /// The transcript as plain text, one line per segment.
    pub fn to_txt(&self) -> (r: String)
        ensures
            r@ == txt::txt_render(self.segments@),
    {
        txt::format_transcript(&self.segments)
    }

    /// The transcript as a pretty-printed JSON document.
    pub fn to_json(&self) -> (r: String)
        ensures
            r@ == json::json_render(self.segments@, self.metadata),
    {
        json::format_transcript(&self.segments, &self.metadata)
    }

    /// The transcript as SRT subtitles.
    pub fn to_srt(&self) -> (r: String)
        ensures
            r@ == srt::srt_render(self.segments@),
    {
        srt::format_transcript(&self.segments)
    }

    /// The transcript as WebVTT subtitles with metadata notes.
    pub fn to_vtt(&self) -> (r: String)
        ensures
            r@ == vtt::vtt_render(self.segments@, self.metadata),
    {
        vtt::format_transcript(&self.segments, &self.metadata)
    }

}

/// `ms` milliseconds as `HH:MM:SS` followed by `sep` and three millisecond
/// digits; hours grow past two digits when needed.
pub open spec fn hms_timestamp(ms: nat, sep: char) -> Seq<char> {
    let total = ms / 1000;
    pad2(total / 3600) + seq![':'] + pad2((total % 3600) / 60) + seq![':'] + pad2(total % 60)
        + seq![sep] + pad3(ms % 1000)
}

} // verus!
