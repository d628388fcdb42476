//! Plain-text rendering: one line per segment, seconds with two decimals.

use vstd::prelude::*;

use crate::formats::Segment;
use crate::numfmt::{push_two_dec, two_dec};
use crate::strutil::push_char;

verus! {

/// The text line for one segment: `[start - end]: text`, seconds with two
/// decimals, text as stored (not trimmed).
pub open spec fn txt_line(seg: Segment) -> Seq<char> {
    seq!['['] + two_dec(seg.start as nat) + " - "@ + two_dec(seg.end as nat) + "]: "@ + seg.text@
}

/// All segment lines joined by single newlines; empty input renders empty.
pub open spec fn txt_render(segs: Seq<Segment>) -> Seq<char>
    decreases segs.len(),
{
    if segs.len() == 0 {
        Seq::<char>::empty()
    } else if segs.len() == 1 {
        txt_line(segs[0])
    } else {
        txt_render(segs.drop_last()) + seq!['\n'] + txt_line(segs.last())
    }
}

/// Appends the text line for one segment.
fn push_segment(out: &mut String, seg: &Segment)
    ensures
        final(out)@ == old(out)@ + txt_line(*seg),
{
    push_char(out, '[');
    push_two_dec(out, seg.start);
    out.append(" - ");
    push_two_dec(out, seg.end);
    out.append("]: ");
    out.append(seg.text.as_str());
    proof {
        assert(final(out)@ =~= old(out)@ + txt_line(*seg));
    }
}

/// One segment as a text line.
pub fn format_segment(seg: &Segment) -> (r: String)
    ensures
        r@ == txt_line(*seg),
{
    let mut out = String::new();
    push_segment(&mut out, seg);
    proof {
        assert(out@ =~= txt_line(*seg));
    }
    out
}

/// All segments as plain text, one line each.
pub fn format_transcript(segs: &Vec<Segment>) -> (r: String)
    ensures
        r@ == txt_render(segs@),
{
    let mut out = String::new();
    let n = segs.len();
    let mut i: usize = 0;
    while i < n
        invariant
            i <= n,
            n == segs@.len(),
            out@ == txt_render(segs@.subrange(0, i as int)),
        decreases n - i,
    {
        let ghost pre = segs@.subrange(0, i as int);
        let ghost post = segs@.subrange(0, i + 1 as int);
        proof {
            assert(post.drop_last() =~= pre);
            assert(post.last() == segs@[i as int]);
        }
        if i > 0 {
            push_char(&mut out, '\n');
        }
        push_segment(&mut out, &segs[i]);
        proof {
            assert(out@ =~= txt_render(post));
        }
        i += 1;
    }
    proof {
        assert(segs@.subrange(0, n as int) =~= segs@);
    }
    out
}

} // verus!
