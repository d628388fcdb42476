//! SRT (SubRip) rendering: numbered blocks with `HH:MM:SS,mmm` timestamps.

use vstd::prelude::*;

use crate::formats::{hms_timestamp, Segment};
use crate::numfmt::{dec_digits, push_decimal, push_pad2, push_pad3};
use crate::strutil::{push_char, trim_seq, trim_str};

verus! {

/// One SRT block: index line, timestamp line with a comma before the
/// milliseconds, then the segment text trimmed of surrounding whitespace.
pub open spec fn srt_block(seg: Segment, index: nat) -> Seq<char> {
    dec_digits(index) + seq!['\n'] + hms_timestamp(seg.start as nat, ',') + " --> "@
        + hms_timestamp(seg.end as nat, ',') + seq!['\n'] + trim_seq(seg.text@)
}

/// All blocks with 1-based indices, separated by blank lines; empty input
/// renders empty.
pub open spec fn srt_render(segs: Seq<Segment>) -> Seq<char>
    decreases segs.len(),
{
    if segs.len() == 0 {
        Seq::<char>::empty()
    } else if segs.len() == 1 {
        srt_block(segs[0], 1)
    } else {
        srt_render(segs.drop_last()) + "\n\n"@ + srt_block(segs.last(), segs.len())
    }
}

/// Appends `ms` as an SRT timestamp.
pub(crate) fn push_timestamp(out: &mut String, ms: u64, sep: char)
    ensures
        final(out)@ == old(out)@ + hms_timestamp(ms as nat, sep),
{
    let total = ms / 1000;
    push_pad2(out, total / 3600);
    push_char(out, ':');
    push_pad2(out, (total % 3600) / 60);
    push_char(out, ':');
    push_pad2(out, total % 60);
    push_char(out, sep);
    push_pad3(out, ms % 1000);
    proof {
        assert(final(out)@ =~= old(out)@ + hms_timestamp(ms as nat, sep));
    }
}

/// `ms` milliseconds as `HH:MM:SS,mmm`.
pub fn format_timestamp(ms: u64) -> (r: String)
    ensures
        r@ == hms_timestamp(ms as nat, ','),
{
    let mut out = String::new();
    push_timestamp(&mut out, ms, ',');
    proof {
        assert(out@ =~= hms_timestamp(ms as nat, ','));
    }
    out
}

/// Appends one SRT block.
fn push_block(out: &mut String, seg: &Segment, index: usize)
    ensures
        final(out)@ == old(out)@ + srt_block(*seg, index as nat),
{
    push_decimal(out, index as u64);
    push_char(out, '\n');
    push_timestamp(out, seg.start, ',');
    out.append(" --> ");
    push_timestamp(out, seg.end, ',');
    push_char(out, '\n');
    out.append(trim_str(seg.text.as_str()));
    proof {
        assert(final(out)@ =~= old(out)@ + srt_block(*seg, index as nat));
    }
}

/// One segment as an SRT block with the given 1-based index.
pub fn format_segment(seg: &Segment, index: usize) -> (r: String)
    ensures
        r@ == srt_block(*seg, index as nat),
{
    let mut out = String::new();
    push_block(&mut out, seg, index);
    proof {
        assert(out@ =~= srt_block(*seg, index as nat));
    }
    out
}

/// All segments as SRT subtitles.
pub fn format_transcript(segs: &Vec<Segment>) -> (r: String)
    ensures
        r@ == srt_render(segs@),
{
    let mut out = String::new();
    let n = segs.len();
    let mut i: usize = 0;
    while i < n
        invariant
            i <= n,
            n == segs@.len(),
            out@ == srt_render(segs@.subrange(0, i as int)),
        decreases n - i,
    {
        let ghost pre = segs@.subrange(0, i as int);
        let ghost post = segs@.subrange(0, i + 1 as int);
        proof {
            assert(post.drop_last() =~= pre);
            assert(post.last() == segs@[i as int]);
        }
        if i > 0 {
            out.append("\n\n");
        }
        push_block(&mut out, &segs[i], i + 1);
        proof {
            assert(out@ =~= srt_render(post));
        }
        i += 1;
    }
    proof {
        assert(segs@.subrange(0, n as int) =~= segs@);
    }
    out
}

} // verus!
