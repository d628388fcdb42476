//! Path-derived names: the last component of a path, the default title for
//! a local input (its file stem), the MP3-extension test that decides
//! between copying and converting, and output path construction.

use vstd::prelude::*;

use crate::strutil::str_eq;

verus! {

/// `p` without any trailing slashes.
pub open spec fn strip_trailing_slashes(p: Seq<char>) -> Seq<char>
    decreases p.len(),
{
    if p.len() > 0 && p.last() == '/' {
        strip_trailing_slashes(p.drop_last())
    } else {
        p
    }
}

/// The maximal suffix of `p` without a slash.
pub open spec fn last_component_of(p: Seq<char>) -> Seq<char>
    decreases p.len(),
{
    if p.len() == 0 || p.last() == '/' {
        Seq::<char>::empty()
    } else {
        last_component_of(p.drop_last()).push(p.last())
    }
}

/// The file name named by `p`: its last component, trailing slashes ignored.
pub open spec fn comp_of(p: Seq<char>) -> Seq<char> {
    last_component_of(strip_trailing_slashes(p))
}

/// The index of the last dot in `n`, or -1 when there is none.
pub open spec fn last_dot(n: Seq<char>) -> int
    decreases n.len(),
{
    if n.len() == 0 {
        -1
    } else if n.last() == '.' {
        n.len() - 1
    } else {
        last_dot(n.drop_last())
    }
}

/// The default title for a local input: the file name without its final
/// extension; the literal `audio` when the path yields no usable stem.
pub open spec fn title_of(p: Seq<char>) -> Seq<char> {
    let n = comp_of(p);
    if n.len() == 0 || n == "."@ || n == ".."@ {
        "audio"@
    } else {
        let d = last_dot(n);
        if d > 0 {
            n.take(d)
        } else {
            n
        }
    }
}

/// Whether the file named by `p` carries an `mp3` extension.
pub open spec fn has_mp3_ext(p: Seq<char>) -> bool {
    let n = comp_of(p);
    let d = last_dot(n);
    d > 0 && n.skip(d + 1) == "mp3"@
}

/// `dir` and `file` joined with a single slash; an empty `dir` yields
/// `file` alone.
pub open spec fn joined(dir: Seq<char>, file: Seq<char>) -> Seq<char> {
    if dir.len() == 0 {
        file
    } else if dir.last() == '/' {
        dir + file
    } else {
        dir + seq!['/'] + file
    }
}

/// The output path `{dir}/{base}.{ext}`.
pub open spec fn output_file(dir: Seq<char>, base: Seq<char>, ext: Seq<char>) -> Seq<char> {
    joined(dir, base + seq!['.'] + ext)
}

proof fn lemma_strip_trailing(p: Seq<char>, end: int)
    requires
        0 <= end <= p.len(),
        forall|j: int| end <= j < p.len() ==> p[j] == '/',
        end == 0 || p[end - 1] != '/',
    ensures
        strip_trailing_slashes(p) == p.take(end),
    decreases p.len() - end,
{
    if end == p.len() {
        if p.len() == 0 || p.last() != '/' {
            assert(strip_trailing_slashes(p) =~= p.take(end));
        } else {
            assert(false);
        }
    } else {
        assert(p.last() == '/');
        lemma_strip_trailing(p.drop_last(), end);
        assert(p.drop_last().take(end) =~= p.take(end));
    }
}

proof fn lemma_last_component(p: Seq<char>, start: int, end: int)
    requires
        0 <= start <= end <= p.len(),
        forall|j: int| start <= j < end ==> p[j] != '/',
        start == 0 || p[start - 1] == '/',
    ensures
        last_component_of(p.take(end)) == p.subrange(start, end),
    decreases end - start,
{
    let q = p.take(end);
    if start == end {
        if end == 0 {
            assert(last_component_of(q) =~= p.subrange(start, end));
        } else {
            assert(q.last() == p[end - 1]);
            assert(last_component_of(q) =~= p.subrange(start, end));
        }
    } else {
        assert(q.last() == p[end - 1]);
        assert(q.drop_last() =~= p.take(end - 1));
        lemma_last_component(p, start, end - 1);
        assert(p.subrange(start, end - 1).push(p[end - 1]) =~= p.subrange(start, end));
    }
}

proof fn lemma_last_dot(n: Seq<char>, di: int)
    requires
        0 <= di <= n.len(),
        forall|j: int| di <= j < n.len() ==> n[j] != '.',
        di == 0 || n[di - 1] == '.',
    ensures
        last_dot(n) == di - 1,
    decreases n.len() - di,
{
    if di == n.len() {
        if n.len() > 0 {
            assert(n.last() == n[di - 1]);
        }
    } else {
        assert(n.last() != '.');
        lemma_last_dot(n.drop_last(), di);
    }
}

/// The last component of `path`, trailing slashes ignored.
pub fn last_component(path: &str) -> (r: String)
    ensures
        r@ == comp_of(path@),
{
    let n = path.unicode_len();
    let mut end: usize = n;
    while end > 0 && path.get_char(end - 1) == '/'
        invariant
            end <= n,
            n == path@.len(),
            forall|j: int| end <= j < n ==> path@[j] == '/',
        decreases end,
    {
        end -= 1;
    }
    let mut start: usize = end;
    while start > 0 && path.get_char(start - 1) != '/'
        invariant
            start <= end <= n,
            n == path@.len(),
            forall|j: int| start <= j < end ==> path@[j] != '/',
        decreases start,
    {
        start -= 1;
    }
    proof {
        lemma_strip_trailing(path@, end as int);
        lemma_last_component(path@, start as int, end as int);
    }
    path.substring_char(start, end).to_owned()
}

/// The index after the last dot of `name`: `r - 1` is the dot's position,
/// zero meaning no dot at all.
fn dot_split(name: &str) -> (r: usize)
    ensures
        r <= name@.len(),
        last_dot(name@) == r - 1,
{
    let n = name.unicode_len();
    let mut di: usize = n;
    while di > 0 && name.get_char(di - 1) != '.'
        invariant
            di <= n,
            n == name@.len(),
            forall|j: int| di <= j < n ==> name@[j] != '.',
        decreases di,
    {
        di -= 1;
    }
    proof {
        lemma_last_dot(name@, di as int);
    }
    di
}

/// The default title for a local input path: its file stem, or `audio`.
pub fn file_title(path: &str) -> (r: String)
    ensures
        r@ == title_of(path@),
{
    let name = last_component(path);
    let name_ref = name.as_str();
    if name_ref.unicode_len() == 0 || str_eq(name_ref, ".") || str_eq(name_ref, "..") {
        "audio".to_owned()
    } else {
        let di = dot_split(name_ref);
        if di > 1 {
            let r = name_ref.substring_char(0, di - 1).to_owned();
            proof {
                assert(name@.subrange(0, di - 1) =~= name@.take(di - 1));
            }
            r
        } else {
            name
        }
    }
}

/// Whether `path` names a file with an `mp3` extension.
pub fn has_mp3_extension(path: &str) -> (r: bool)
    ensures
        r == has_mp3_ext(path@),
{
    let name = last_component(path);
    let name_ref = name.as_str();
    let di = dot_split(name_ref);
    if di > 1 {
        let ext = name_ref.substring_char(di, name_ref.unicode_len());
        proof {
            assert(name@.subrange(di as int, name@.len() as int) =~= name@.skip(di as int));
        }
        str_eq(ext, "mp3")
    } else {
        false
    }
}

/// Joins a directory and a file name with a single slash.
pub fn join_path(dir: &str, file: &str) -> (r: String)
    ensures
        r@ == joined(dir@, file@),
{
    let n = dir.unicode_len();
    if n == 0 {
        file.to_owned()
    } else if dir.get_char(n - 1) == '/' {
        let mut out = dir.to_owned();
        out.append(file);
        out
    } else {
        let mut out = dir.to_owned();
        out.append("/");
        out.append(file);
        proof {
            reveal_strlit("/");
            assert(out@ =~= joined(dir@, file@));
        }
        out
    }
}

/// Builds the output path `{dir}/{base}.{ext}`.
pub fn output_file_path(dir: &str, base: &str, ext: &str) -> (r: String)
    ensures
        r@ == output_file(dir@, base@, ext@),
{
    let mut name = base.to_owned();
    name.append(".");
    name.append(ext);
    proof {
        reveal_strlit(".");
        assert(name@ =~= base@ + seq!['.'] + ext@);
    }
    join_path(dir, name.as_str())
}

} // verus!
