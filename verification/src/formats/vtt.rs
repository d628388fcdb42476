//! WebVTT rendering: header, metadata notes, then one cue per segment, with
//! `HH:MM:SS.mmm` timestamps (dot before the milliseconds, unlike SRT).

use vstd::prelude::*;

use crate::formats::{hms_timestamp, Metadata, Segment};
use crate::formats::srt::push_timestamp;
use crate::strutil::{push_char, trim_seq, trim_str};

verus! {

/// One VTT cue: timestamp line with a dot before the milliseconds, then the
/// segment text trimmed of surrounding whitespace.
pub open spec fn vtt_cue(seg: Segment) -> Seq<char> {
    hms_timestamp(seg.start as nat, '.') + " --> "@ + hms_timestamp(seg.end as nat, '.')
        + seq!['\n'] + trim_seq(seg.text@)
}

/// The five metadata NOTE blocks, separated by blank lines. Duration renders
/// as a VTT timestamp, or the literal `unknown` when absent; so does an
/// absent language.
pub open spec fn vtt_notes(md: Metadata) -> Seq<char> {
    "NOTE Title\n"@ + md.title@ + "\n\nNOTE Source\n"@ + md.source@ + "\n\nNOTE Duration\n"@
        + (match md.duration {
        Option::Some(d) => hms_timestamp(d as nat, '.'),
        Option::None => "unknown"@,
    }) + "\n\nNOTE Language\n"@ + (match md.language {
        Option::Some(l) => l@,
        Option::None => "unknown"@,
    }) + "\n\nNOTE Model\n"@ + md.model@
}

/// The cue section: a blank line before each cue; empty for no segments.
pub open spec fn vtt_cues(segs: Seq<Segment>) -> Seq<char>
    decreases segs.len(),
{
    if segs.len() == 0 {
        Seq::<char>::empty()
    } else {
        vtt_cues(segs.drop_last()) + "\n\n"@ + vtt_cue(segs.last())
    }
}

/// The whole document: `WEBVTT`, the metadata notes, then the cues.
pub open spec fn vtt_render(segs: Seq<Segment>, md: Metadata) -> Seq<char> {
    "WEBVTT\n\n"@ + vtt_notes(md) + vtt_cues(segs)
}

/// `ms` milliseconds as `HH:MM:SS.mmm`.
pub fn format_timestamp(ms: u64) -> (r: String)
    ensures
        r@ == hms_timestamp(ms as nat, '.'),
{
    let mut out = String::new();
    push_timestamp(&mut out, ms, '.');
    proof {
        assert(out@ =~= hms_timestamp(ms as nat, '.'));
    }
    out
}

/// Appends one VTT cue.
fn push_cue(out: &mut String, seg: &Segment)
    ensures
        final(out)@ == old(out)@ + vtt_cue(*seg),
{
    push_timestamp(out, seg.start, '.');
    out.append(" --> ");
    push_timestamp(out, seg.end, '.');
    push_char(out, '\n');
    out.append(trim_str(seg.text.as_str()));
    proof {
        assert(final(out)@ =~= old(out)@ + vtt_cue(*seg));
    }
}

/// One segment as a VTT cue.
pub fn format_segment(seg: &Segment) -> (r: String)
    ensures
        r@ == vtt_cue(*seg),
{
    let mut out = String::new();
    push_cue(&mut out, seg);
    proof {
        assert(out@ =~= vtt_cue(*seg));
    }
    out
}

/// The metadata NOTE blocks.
pub fn format_metadata(md: &Metadata) -> (r: String)
    ensures
        r@ == vtt_notes(*md),
{
    let mut out = String::new();
    push_metadata(&mut out, md);
    proof {
        assert(out@ =~= vtt_notes(*md));
    }
    out
}

/// Appends the metadata NOTE blocks.
fn push_metadata(out: &mut String, md: &Metadata)
    ensures
        final(out)@ == old(out)@ + vtt_notes(*md),
{
    out.append("NOTE Title\n");
    out.append(md.title.as_str());
    out.append("\n\nNOTE Source\n");
    out.append(md.source.as_str());
    out.append("\n\nNOTE Duration\n");
    match &md.duration {
        Option::Some(d) => push_timestamp(out, *d, '.'),
        Option::None => out.append("unknown"),
    }
    out.append("\n\nNOTE Language\n");
    match &md.language {
        Option::Some(l) => out.append(l.as_str()),
        Option::None => out.append("unknown"),
    }
    out.append("\n\nNOTE Model\n");
    out.append(md.model.as_str());
    proof {
        assert(final(out)@ =~= old(out)@ + vtt_notes(*md));
    }
}

/// All segments and metadata as a WebVTT document.
pub fn format_transcript(segs: &Vec<Segment>, md: &Metadata) -> (r: String)
    ensures
        r@ == vtt_render(segs@, *md),
{
    let mut out = String::new();
    out.append("WEBVTT\n\n");
    push_metadata(&mut out, md);
    let n = segs.len();
    let mut i: usize = 0;
    while i < n
        invariant
            i <= n,
            n == segs@.len(),
            out@ == vtt_render(segs@.subrange(0, i as int), *md),
        decreases n - i,
    {
        let ghost pre = segs@.subrange(0, i as int);
        let ghost post = segs@.subrange(0, i + 1 as int);
        proof {
            assert(post.drop_last() =~= pre);
            assert(post.last() == segs@[i as int]);
        }
        out.append("\n\n");
        push_cue(&mut out, &segs[i]);
        proof {
            assert(out@ =~= vtt_render(post, *md));
        }
        i += 1;
    }
    proof {
        assert(segs@.subrange(0, n as int) =~= segs@);
    }
    out
}

} // verus!
