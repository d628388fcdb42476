//! Assembly of a transcript from the transcription collaborator's raw
//! output, and the download location of each model.

use vstd::prelude::*;

use crate::config::normalize_model;
use crate::formats::{Metadata, Segment, Transcript};

verus! {

/// One raw timed segment as the speech engine reports it: times in
/// centiseconds, text as decoded.
#[derive(Debug, Clone)]
pub struct RawSegment {
    pub start_cs: u64,
    pub end_cs: u64,
    pub text: String,
}

/// Where a model is downloaded from: the fixed archive URL with the
/// normalized model name spliced in.
pub open spec fn model_url_spec(model: Seq<char>) -> Seq<char> {
    "https://huggingface.co/ggerganov/whisper.cpp/resolve/main/ggml-"@ + normalize_model(model)
        + ".bin"@
}

/// The download URL for a model; `large` resolves to `large-v3`.
pub fn get_model_url(model: &str) -> (r: String)
    ensures
        r@ == model_url_spec(model@),
{
    let mut out = "https://huggingface.co/ggerganov/whisper.cpp/resolve/main/ggml-".to_owned();
    if crate::strutil::str_eq(model, "large") {
        out.append("large-v3");
    } else {
        out.append(model);
    }
    out.append(".bin");
    proof {
        assert(out@ =~= model_url_spec(model@));
    }
    out
}

/// The duration recorded for a run: the end of the last segment, zero when
/// there are none. Times in milliseconds.
pub open spec fn duration_of(raw: Seq<RawSegment>) -> nat {
    if raw.len() == 0 {
        0
    } else {
        (raw.last().end_cs * 10) as nat
    }
}

/// Builds the transcript for one run from the engine's raw segments:
/// centiseconds become milliseconds, ordering is kept, and the metadata
/// records the title, the input source, the duration and the model.
pub fn build_transcript(
    raw: &Vec<RawSegment>,
    title: &str,
    source: &str,
    model_name: &str,
    language: Option<String>,
) -> (r: Transcript)
    requires
        forall|i: int| 0 <= i < raw@.len() ==> #[trigger] raw@[i].start_cs <= u64::MAX / 10
            && raw@[i].end_cs <= u64::MAX / 10,
    ensures
        r.segments@.len() == raw@.len(),
        forall|i: int| 0 <= i < raw@.len() ==> {
            &&& (#[trigger] r.segments@[i]).start == raw@[i].start_cs * 10
            &&& r.segments@[i].end == raw@[i].end_cs * 10
            &&& r.segments@[i].text@ == raw@[i].text@
        },
        r.metadata.title@ == title@,
        r.metadata.source@ == source@,
        r.metadata.duration == Option::Some((duration_of(raw@) as u64)),
        r.metadata.model@ == model_name@,
        r.metadata.language == language,
{
    let mut segments: Vec<Segment> = Vec::new();
    let n = raw.len();
    let mut i: usize = 0;
    while i < n
        invariant
            i <= n,
            n == raw@.len(),
            segments@.len() == i,
            forall|j: int| 0 <= j < raw@.len() ==> #[trigger] raw@[j].start_cs <= u64::MAX / 10
                && raw@[j].end_cs <= u64::MAX / 10,
            forall|j: int| 0 <= j < i ==> {
                &&& (#[trigger] segments@[j]).start == raw@[j].start_cs * 10
                &&& segments@[j].end == raw@[j].end_cs * 10
                &&& segments@[j].text@ == raw@[j].text@
            },
        decreases n - i,
    {
        let rs = &raw[i];
        segments.push(Segment { start: rs.start_cs * 10, end: rs.end_cs * 10, text: rs.text.clone() });
        i += 1;
    }
    let duration: u64 = if n == 0 {
        0
    } else {
        proof {
            assert(raw@[n - 1].start_cs <= u64::MAX / 10);
        }
        raw[n - 1].end_cs * 10
    };
    let metadata = Metadata {
        title: title.to_owned(),
        source: source.to_owned(),
        duration: Option::Some(duration),
        model: model_name.to_owned(),
        language,
    };
    Transcript { segments, metadata }
}

} // verus!
