//! JSON rendering: a pretty-printed document with a `transcript` array of
//! `{id, start, end, text}` objects (1-based ids) and a `metadata` object.
//! Two-space indentation; times as seconds with the shortest fraction.

use vstd::prelude::*;

use crate::formats::{Metadata, Segment};
use crate::numfmt::{dec_digits, digit_char, pad2, pad3, push_decimal, push_pad2, push_pad3};
use crate::strutil::push_char;

verus! {

/// The lowercase hexadecimal digit for `d` (meaningful for `0 <= d < 16`).
pub open spec fn hex_char(d: int) -> char {
    if d < 10 {
        digit_char(d)
    } else {
        ((87 + d) as u8) as char
    }
}

/// The JSON escape of one character: quote, backslash and the named control
/// characters get two-character escapes, other control characters a
/// `\u00..` escape, and everything else stands for itself.
pub open spec fn esc_char(c: char) -> Seq<char> {
    if c == '"' {
        seq!['\\', '"']
    } else if c == '\\' {
        seq!['\\', '\\']
    } else if c == '\u{8}' {
        seq!['\\', 'b']
    } else if c == '\t' {
        seq!['\\', 't']
    } else if c == '\n' {
        seq!['\\', 'n']
    } else if c == '\u{C}' {
        seq!['\\', 'f']
    } else if c == '\r' {
        seq!['\\', 'r']
    } else if (c as u32) < 32 {
        seq!['\\', 'u', '0', '0', hex_char((c as u32) as int / 16), hex_char((c as u32) as int % 16)]
    } else {
        seq![c]
    }
}

/// The JSON escape of a whole string body (without the enclosing quotes).
pub open spec fn esc(s: Seq<char>) -> Seq<char>
    decreases s.len(),
{
    if s.len() == 0 {
        Seq::<char>::empty()
    } else {
        esc(s.drop_last()) + esc_char(s.last())
    }
}

/// The shortest decimal fraction for `f` thousandths (`0 <= f < 1000`):
/// a lone zero for zero, otherwise trailing zeros dropped.
pub open spec fn json_frac(f: nat) -> Seq<char> {
    if f == 0 {
        seq!['0']
    } else if f % 100 == 0 {
        dec_digits(f / 100)
    } else if f % 10 == 0 {
        pad2(f / 10)
    } else {
        pad3(f)
    }
}

/// `ms` milliseconds as a JSON number of seconds, e.g. `5.2`, `0.0`, `1.025`.
pub open spec fn json_number(ms: nat) -> Seq<char> {
    dec_digits(ms / 1000) + seq!['.'] + json_frac(ms % 1000)
}

/// One segment as a pretty-printed array element with the given 1-based id.
pub open spec fn json_item(seg: Segment, id: nat) -> Seq<char> {
    "    {\n      \"id\": "@ + dec_digits(id) + ",\n      \"start\": "@
        + json_number(seg.start as nat) + ",\n      \"end\": "@ + json_number(seg.end as nat)
        + ",\n      \"text\": \""@ + esc(seg.text@) + "\"\n    }"@
}

/// The array elements joined by commas, ids counting from one.
pub open spec fn json_items(segs: Seq<Segment>) -> Seq<char>
    decreases segs.len(),
{
    if segs.len() == 0 {
        Seq::<char>::empty()
    } else if segs.len() == 1 {
        json_item(segs[0], 1)
    } else {
        json_items(segs.drop_last()) + ",\n"@ + json_item(segs.last(), segs.len())
    }
}

/// The `transcript` array: `[]` when empty, otherwise one element per line.
pub open spec fn json_array(segs: Seq<Segment>) -> Seq<char> {
    if segs.len() == 0 {
        "[]"@
    } else {
        "[\n"@ + json_items(segs) + "\n  ]"@
    }
}

/// The `metadata` object; an absent duration renders as `null`, an absent
/// language defaults to `en`.
pub open spec fn json_metadata(md: Metadata) -> Seq<char> {
    "{\n    \"title\": \""@ + esc(md.title@) + "\",\n    \"source\": \""@ + esc(md.source@)
        + "\",\n    \"duration\": "@ + (match md.duration {
        Option::Some(d) => json_number(d as nat),
        Option::None => "null"@,
    }) + ",\n    \"model\": \""@ + esc(md.model@) + "\",\n    \"language\": \""@ + esc(
        match md.language {
            Option::Some(l) => l@,
            Option::None => "en"@,
        },
    ) + "\"\n  }"@
}

/// The whole document.
pub open spec fn json_render(segs: Seq<Segment>, md: Metadata) -> Seq<char> {
    "{\n  \"transcript\": "@ + json_array(segs) + ",\n  \"metadata\": "@ + json_metadata(md)
        + "\n}"@
}

/// The lowercase hexadecimal digit for `d`.
fn hex_digit(d: u32) -> (r: char)
    requires
        d < 16,
    ensures
        r == hex_char(d as int),
{
    if d < 10 {
        (48 + d as u8) as char
    } else {
        (87 + d as u8) as char
    }
}

/// Appends the JSON escape of one character.
fn push_esc_char(out: &mut String, c: char)
    ensures
        final(out)@ == old(out)@ + esc_char(c),
{
    if c == '"' {
        out.append("\\\"");
        proof {
            reveal_strlit("\\\"");
            assert(final(out)@ =~= old(out)@ + esc_char(c));
        }
    } else if c == '\\' {
        out.append("\\\\");
        proof {
            reveal_strlit("\\\\");
            assert(final(out)@ =~= old(out)@ + esc_char(c));
        }
    } else if c == '\u{8}' {
        out.append("\\b");
        proof {
            reveal_strlit("\\b");
            assert(final(out)@ =~= old(out)@ + esc_char(c));
        }
    } else if c == '\t' {
        out.append("\\t");
        proof {
            reveal_strlit("\\t");
            assert(final(out)@ =~= old(out)@ + esc_char(c));
        }
    } else if c == '\n' {
        out.append("\\n");
        proof {
            reveal_strlit("\\n");
            assert(final(out)@ =~= old(out)@ + esc_char(c));
        }
    } else if c == '\u{C}' {
        out.append("\\f");
        proof {
            reveal_strlit("\\f");
            assert(final(out)@ =~= old(out)@ + esc_char(c));
        }
    } else if c == '\r' {
        out.append("\\r");
        proof {
            reveal_strlit("\\r");
            assert(final(out)@ =~= old(out)@ + esc_char(c));
        }
    } else if (c as u32) < 32 {
        out.append("\\u00");
        push_char(out, hex_digit((c as u32) / 16));
        push_char(out, hex_digit((c as u32) % 16));
        proof {
            reveal_strlit("\\u00");
            assert(final(out)@ =~= old(out)@ + esc_char(c));
        }
    } else {
        push_char(out, c);
    }
}

/// Appends the JSON escape of a whole string body.
fn push_escaped(out: &mut String, s: &str)
    ensures
        final(out)@ == old(out)@ + esc(s@),
{
    let n = s.unicode_len();
    let mut i: usize = 0;
    while i < n
        invariant
            i <= n,
            n == s@.len(),
            out@ == old(out)@ + esc(s@.subrange(0, i as int)),
        decreases n - i,
    {
        let ghost pre = s@.subrange(0, i as int);
        let ghost post = s@.subrange(0, i + 1 as int);
        proof {
            assert(post.drop_last() =~= pre);
            assert(post.last() == s@[i as int]);
        }
        push_esc_char(out, s.get_char(i));
        proof {
            assert(out@ =~= old(out)@ + esc(post));
        }
        i += 1;
    }
    proof {
        assert(s@.subrange(0, n as int) =~= s@);
    }
}

/// Appends `ms` as a JSON number of seconds.
fn push_json_number(out: &mut String, ms: u64)
    ensures
        final(out)@ == old(out)@ + json_number(ms as nat),
{
    push_decimal(out, ms / 1000);
    push_char(out, '.');
    let f = ms % 1000;
    if f == 0 {
        push_char(out, '0');
    } else if f % 100 == 0 {
        push_decimal(out, f / 100);
    } else if f % 10 == 0 {
        push_pad2(out, f / 10);
    } else {
        push_pad3(out, f);
    }
    proof {
        assert(final(out)@ =~= old(out)@ + json_number(ms as nat));
    }
}

/// Appends one array element.
fn push_item(out: &mut String, seg: &Segment, id: usize)
    ensures
        final(out)@ == old(out)@ + json_item(*seg, id as nat),
{
    out.append("    {\n      \"id\": ");
    push_decimal(out, id as u64);
    out.append(",\n      \"start\": ");
    push_json_number(out, seg.start);
    out.append(",\n      \"end\": ");
    push_json_number(out, seg.end);
    out.append(",\n      \"text\": \"");
    push_escaped(out, seg.text.as_str());
    out.append("\"\n    }");
    proof {
        assert(final(out)@ =~= old(out)@ + json_item(*seg, id as nat));
    }
}

/// Appends the `transcript` array.
fn push_array(out: &mut String, segs: &Vec<Segment>)
    ensures
        final(out)@ == old(out)@ + json_array(segs@),
{
    let n = segs.len();
    if n == 0 {
        out.append("[]");
        proof {
            assert(final(out)@ =~= old(out)@ + json_array(segs@));
        }
        return ;
    }
    out.append("[\n");
    let mut i: usize = 0;
    while i < n
        invariant
            i <= n,
            n == segs@.len(),
            n > 0,
            out@ == old(out)@ + "[\n"@ + json_items(segs@.subrange(0, i as int)),
        decreases n - i,
    {
        let ghost pre = segs@.subrange(0, i as int);
        let ghost post = segs@.subrange(0, i + 1 as int);
        proof {
            assert(post.drop_last() =~= pre);
            assert(post.last() == segs@[i as int]);
        }
        if i > 0 {
            out.append(",\n");
        }
        push_item(out, &segs[i], i + 1);
        proof {
            assert(out@ =~= old(out)@ + "[\n"@ + json_items(post));
        }
        i += 1;
    }
    out.append("\n  ]");
    proof {
        assert(segs@.subrange(0, n as int) =~= segs@);
        assert(final(out)@ =~= old(out)@ + json_array(segs@));
    }
}

/// Appends the `metadata` object.
#[verifier::rlimit(50)]
fn push_metadata(out: &mut String, md: &Metadata)
    ensures
        final(out)@ == old(out)@ + json_metadata(*md),
{
    out.append("{\n    \"title\": \"");
    push_escaped(out, md.title.as_str());
    out.append("\",\n    \"source\": \"");
    push_escaped(out, md.source.as_str());
    out.append("\",\n    \"duration\": ");
    match &md.duration {
        Option::Some(d) => push_json_number(out, *d),
        Option::None => out.append("null"),
    }
    out.append(",\n    \"model\": \"");
    push_escaped(out, md.model.as_str());
    out.append("\",\n    \"language\": \"");
    match &md.language {
        Option::Some(l) => push_escaped(out, l.as_str()),
        Option::None => push_escaped(out, "en"),
    }
    out.append("\"\n  }");
    proof {
        assert(final(out)@ =~= old(out)@ + json_metadata(*md));
    }
}

/// All segments and metadata as a pretty-printed JSON document.
pub fn format_transcript(segs: &Vec<Segment>, md: &Metadata) -> (r: String)
    ensures
        r@ == json_render(segs@, *md),
{
    let mut out = String::new();
    out.append("{\n  \"transcript\": ");
    push_array(&mut out, segs);
    out.append(",\n  \"metadata\": ");
    push_metadata(&mut out, md);
    out.append("\n}");
    proof {
        assert(out@ =~= json_render(segs@, *md));
    }
    out
}

} // verus!
