//! The configuration resolver: raw, weakly typed command-line input is
//! validated and normalized into an immutable [`Config`] before any
//! pipeline stage begins, or rejected with a descriptive error.

use vstd::prelude::*;

use crate::error::Error;
use crate::strutil::{ci_eq, ci_eq_str, split_commas, split_commas_str, str_eq, trim_seq, trim_str};

verus! {

/// The four output formats, a closed set.
#[derive(Debug, Clone, Copy, PartialEq, Eq, Structural)]
pub enum OutputFormat {
    Txt,
    Json,
    Srt,
    Vtt,
}

/// The fixed file extension of each format.
pub open spec fn extension_spec(f: OutputFormat) -> Seq<char> {
    match f {
        OutputFormat::Txt => "txt"@,
        OutputFormat::Json => "json"@,
        OutputFormat::Srt => "srt"@,
        OutputFormat::Vtt => "vtt"@,
    }
}

impl OutputFormat {
    /// The file extension for this format.
    pub fn extension(&self) -> (r: &'static str)
        ensures
            r@ == extension_spec(*self),
    {
        match self {
            OutputFormat::Txt => "txt",
            OutputFormat::Json => "json",
            OutputFormat::Srt => "srt",
            OutputFormat::Vtt => "vtt",
        }
    }
}

/// The format named by one (already trimmed) token, compared without regard
/// to ASCII case; `None` for anything outside the closed set.
pub open spec fn token_format(t: Seq<char>) -> Option<OutputFormat> {
    if ci_eq(t, "txt"@) {
        Option::Some(OutputFormat::Txt)
    } else if ci_eq(t, "json"@) {
        Option::Some(OutputFormat::Json)
    } else if ci_eq(t, "srt"@) {
        Option::Some(OutputFormat::Srt)
    } else if ci_eq(t, "vtt"@) {
        Option::Some(OutputFormat::Vtt)
    } else {
        Option::None
    }
}

/// Maps one trimmed token to its format, or reports it as invalid.
pub fn parse_format_token(s: &str) -> (r: Result<OutputFormat, Error>)
    ensures
        match r {
            Result::Ok(f) => token_format(s@) == Option::Some(f),
            Result::Err(e) => token_format(s@) is None && (e matches Error::InvalidFormat(t)
                && t@ == s@),
        },
{
    if ci_eq_str(s, "txt") {
        Result::Ok(OutputFormat::Txt)
    } else if ci_eq_str(s, "json") {
        Result::Ok(OutputFormat::Json)
    } else if ci_eq_str(s, "srt") {
        Result::Ok(OutputFormat::Srt)
    } else if ci_eq_str(s, "vtt") {
        Result::Ok(OutputFormat::Vtt)
    } else {
        Result::Err(Error::InvalidFormat(s.to_owned()))
    }
}

/// The outcome of reading a format specification: either the formats in
/// order, or the first unrecognized token.
pub enum ParseOutcome {
    Parsed(Seq<OutputFormat>),
    BadToken(Seq<char>),
}

/// Reads a list of comma-split pieces left to right: each piece is trimmed,
/// empty pieces are discarded, and the first unrecognized token wins.
pub open spec fn parse_pieces(pieces: Seq<Seq<char>>) -> ParseOutcome
    decreases pieces.len(),
{
    if pieces.len() == 0 {
        ParseOutcome::Parsed(Seq::<OutputFormat>::empty())
    } else {
        match parse_pieces(pieces.drop_last()) {
            ParseOutcome::BadToken(t) => ParseOutcome::BadToken(t),
            ParseOutcome::Parsed(fs) => {
                let t = trim_seq(pieces.last());
                if t.len() == 0 {
                    ParseOutcome::Parsed(fs)
                } else {
                    match token_format(t) {
                        Option::Some(f) => ParseOutcome::Parsed(fs.push(f)),
                        Option::None => ParseOutcome::BadToken(t),
                    }
                }
            },
        }
    }
}

/// The formats named by a comma-separated specification string.
pub open spec fn formats_of(s: Seq<char>) -> ParseOutcome {
    parse_pieces(split_commas(s))
}

/// Parses a comma-separated format specification. Tokens are trimmed and
/// matched without regard to case; empty tokens are discarded; the first
/// unrecognized token fails the parse. In stdout mode more than one format
/// is rejected. An empty result is accepted.
pub fn parse_formats(format_str: &str, stdout_mode: bool) -> (r: Result<
    Vec<OutputFormat>,
    Error,
>)
    ensures
        match r {
            Result::Ok(v) => formats_of(format_str@) == ParseOutcome::Parsed(v@) && !(stdout_mode
                && v@.len() > 1),
            Result::Err(e) => match e {
                Error::InvalidFormat(t) => formats_of(format_str@) matches ParseOutcome::BadToken(b)
                    && t@ == b,
                Error::MultipleFormatsWithStdout => stdout_mode && (formats_of(format_str@) matches
                    ParseOutcome::Parsed(fs) && fs.len() > 1),
                _ => false,
            },
        },
{
    let pieces = split_commas_str(format_str);
    let ghost all = pieces.deep_view();
    let mut fmts: Vec<OutputFormat> = Vec::new();
    let n = pieces.len();
    let mut i: usize = 0;
    while i < n
        invariant
            i <= n,
            n == pieces@.len(),
            all == pieces.deep_view(),
            all == split_commas(format_str@),
            parse_pieces(all.subrange(0, i as int)) == ParseOutcome::Parsed(fmts@),
        decreases n - i,
    {
        let ghost pre = all.subrange(0, i as int);
        let ghost post = all.subrange(0, i + 1 as int);
        proof {
            assert(post.drop_last() =~= pre);
            assert(post.last() == all[i as int]);
        }
        let t = trim_str(pieces[i].as_str());
        if t.unicode_len() > 0 {
            match parse_format_token(t) {
                Result::Ok(f) => fmts.push(f),
                Result::Err(e) => {
                    proof {
                        assert(parse_pieces(post) == ParseOutcome::BadToken(t@));
                        lemma_parse_pieces_bad_persists(all, i + 1 as int);
                    }
                    return Result::Err(e);
                },
            }
        }
        proof {
            assert(parse_pieces(post) == ParseOutcome::Parsed(fmts@));
        }
        i += 1;
    }
    proof {
        assert(all.subrange(0, n as int) =~= all);
    }
    if stdout_mode && fmts.len() > 1 {
        return Result::Err(Error::MultipleFormatsWithStdout);
    }
    Result::Ok(fmts)
}

/// Once a bad token is found, reading further pieces never unseats it.
proof fn lemma_parse_pieces_bad_persists(pieces: Seq<Seq<char>>, i: int)
    requires
        0 <= i <= pieces.len(),
        parse_pieces(pieces.subrange(0, i)) matches ParseOutcome::BadToken(_),
    ensures
        parse_pieces(pieces) == parse_pieces(pieces.subrange(0, i)),
    decreases pieces.len() - i,
{
    if i < pieces.len() {
        assert(pieces.subrange(0, i + 1).drop_last() =~= pieces.subrange(0, i));
        lemma_parse_pieces_bad_persists(pieces, i + 1);
    } else {
        assert(pieces.subrange(0, i) =~= pieces);
    }
}

/// One catalog entry: a model name with its display facts.
#[derive(Debug, Clone)]
pub struct WhisperModel {
    pub name: &'static str,
    pub description: &'static str,
    pub params: &'static str,
    pub vram: &'static str,
    pub languages: &'static str,
}

/// Whether `s` is one of the eleven catalog model names.
pub open spec fn is_catalog_name(s: Seq<char>) -> bool {
    ||| s == "tiny"@
    ||| s == "tiny.en"@
    ||| s == "base"@
    ||| s == "base.en"@
    ||| s == "small"@
    ||| s == "small.en"@
    ||| s == "medium"@
    ||| s == "medium.en"@
    ||| s == "large"@
    ||| s == "large-v2"@
    ||| s == "large-v3"@
}

/// `large` stands for `large-v3`; every other name stands for itself.
pub open spec fn normalize_model(s: Seq<char>) -> Seq<char> {
    if s == "large"@ {
        "large-v3"@
    } else {
        s
    }
}

/// The catalog of available models, in display order.
pub fn available_models() -> (r: Vec<WhisperModel>)
    ensures
        r@.len() == 11,
            r@[0].name@ == "tiny"@ && r@[0].description@ == "Fastest model, 39M parameters"@
                && r@[0].params@ == "39M"@ && r@[0].vram@ == "~1GB"@
                && r@[0].languages@ == "multilingual"@,
            r@[1].name@ == "tiny.en"@ && r@[1].description@ == "English-only tiny model"@
                && r@[1].params@ == "39M"@ && r@[1].vram@ == "~1GB"@
                && r@[1].languages@ == "English only"@,
            r@[2].name@ == "base"@ && r@[2].description@ == "Smaller balanced model, 74M parameters"@
                && r@[2].params@ == "74M"@ && r@[2].vram@ == "~1GB"@
                && r@[2].languages@ == "multilingual"@,
            r@[3].name@ == "base.en"@ && r@[3].description@ == "English-only base model"@
                && r@[3].params@ == "74M"@ && r@[3].vram@ == "~1GB"@
                && r@[3].languages@ == "English only"@,
            r@[4].name@ == "small"@ && r@[4].description@ == "Default balanced model, 244M parameters"@
                && r@[4].params@ == "244M"@ && r@[4].vram@ == "~2GB"@
                && r@[4].languages@ == "multilingual"@,
            r@[5].name@ == "small.en"@ && r@[5].description@ == "English-only small model"@
                && r@[5].params@ == "244M"@ && r@[5].vram@ == "~2GB"@
                && r@[5].languages@ == "English only"@,
            r@[6].name@ == "medium"@ && r@[6].description@ == "Good accuracy model, 769M parameters"@
                && r@[6].params@ == "769M"@ && r@[6].vram@ == "~5GB"@
                && r@[6].languages@ == "multilingual"@,
            r@[7].name@ == "medium.en"@ && r@[7].description@ == "English-only medium model"@
                && r@[7].params@ == "769M"@ && r@[7].vram@ == "~5GB"@
                && r@[7].languages@ == "English only"@,
            r@[8].name@ == "large"@ && r@[8].description@ == "Highest accuracy model, 1550M parameters"@
                && r@[8].params@ == "1550M"@ && r@[8].vram@ == "~10GB"@
                && r@[8].languages@ == "multilingual"@,
            r@[9].name@ == "large-v2"@ && r@[9].description@ == "Improved large model, 1550M parameters"@
                && r@[9].params@ == "1550M"@ && r@[9].vram@ == "~10GB"@
                && r@[9].languages@ == "multilingual"@,
            r@[10].name@ == "large-v3"@ && r@[10].description@ == "Latest large model, 1550M parameters"@
                && r@[10].params@ == "1550M"@ && r@[10].vram@ == "~10GB"@
                && r@[10].languages@ == "multilingual"@,
        forall|i: int| 0 <= i < 11 ==> is_catalog_name(#[trigger] r@[i].name@),
{
    let mut out: Vec<WhisperModel> = Vec::new();
        out.push(WhisperModel { name: "tiny", description: "Fastest model, 39M parameters", params: "39M", vram: "~1GB", languages: "multilingual" });
        out.push(WhisperModel { name: "tiny.en", description: "English-only tiny model", params: "39M", vram: "~1GB", languages: "English only" });
        out.push(WhisperModel { name: "base", description: "Smaller balanced model, 74M parameters", params: "74M", vram: "~1GB", languages: "multilingual" });
        out.push(WhisperModel { name: "base.en", description: "English-only base model", params: "74M", vram: "~1GB", languages: "English only" });
        out.push(WhisperModel { name: "small", description: "Default balanced model, 244M parameters", params: "244M", vram: "~2GB", languages: "multilingual" });
        out.push(WhisperModel { name: "small.en", description: "English-only small model", params: "244M", vram: "~2GB", languages: "English only" });
        out.push(WhisperModel { name: "medium", description: "Good accuracy model, 769M parameters", params: "769M", vram: "~5GB", languages: "multilingual" });
        out.push(WhisperModel { name: "medium.en", description: "English-only medium model", params: "769M", vram: "~5GB", languages: "English only" });
        out.push(WhisperModel { name: "large", description: "Highest accuracy model, 1550M parameters", params: "1550M", vram: "~10GB", languages: "multilingual" });
        out.push(WhisperModel { name: "large-v2", description: "Improved large model, 1550M parameters", params: "1550M", vram: "~10GB", languages: "multilingual" });
        out.push(WhisperModel { name: "large-v3", description: "Latest large model, 1550M parameters", params: "1550M", vram: "~10GB", languages: "multilingual" });
    out
}

/// Validates a model name against the catalog, normalizing `large` to
/// `large-v3`; names outside the catalog are rejected.
pub fn validate_model(model: &str) -> (r: Result<String, Error>)
    ensures
        match r {
            Result::Ok(m) => is_catalog_name(normalize_model(model@)) && m@ == normalize_model(
                model@,
            ),
            Result::Err(e) => !is_catalog_name(normalize_model(model@)) && (e matches
                Error::InvalidModel(t) && t@ == model@),
        },
{
    if str_eq(model, "large") {
        let r = "large-v3".to_owned();
        proof {
            assert(is_catalog_name("large-v3"@));
        }
        Result::Ok(r)
    } else if str_eq(model, "tiny") || str_eq(model, "tiny.en") || str_eq(model, "base") || str_eq(model, "base.en") || str_eq(model, "small") || str_eq(model, "small.en") || str_eq(model, "medium") || str_eq(model, "medium.en") || str_eq(model, "large") || str_eq(model, "large-v2") || str_eq(model, "large-v3") {
        Result::Ok(model.to_owned())
    } else {
        Result::Err(Error::InvalidModel(model.to_owned()))
    }
}

} // verus!

verus! {

/// Whether `s` ends in the four characters `.txt`.
pub open spec fn ends_in_txt(s: Seq<char>) -> bool {
    s.len() >= 4 && s[s.len() - 4] == '.' && s[s.len() - 3] == 't' && s[s.len() - 2] == 'x'
        && s[s.len() - 1] == 't'
}

/// `s` with one trailing `.txt` removed, if present.
pub open spec fn strip_txt(s: Seq<char>) -> Seq<char> {
    if ends_in_txt(s) {
        s.take(s.len() - 4)
    } else {
        s
    }
}

/// Removes one trailing `.txt` suffix, if present.
pub fn strip_txt_extension(name: &str) -> (r: String)
    ensures
        r@ == strip_txt(name@),
{
    let n = name.unicode_len();
    if n >= 4 && name.get_char(n - 4) == '.' && name.get_char(n - 3) == 't' && name.get_char(
        n - 2,
    ) == 'x' && name.get_char(n - 1) == 't' {
        let r = name.substring_char(0, n - 4).to_owned();
        proof {
            assert(name@.subrange(0, n - 4) =~= strip_txt(name@));
        }
        r
    } else {
        name.to_owned()
    }
}

/// The base name for output files: the custom name when present and
/// non-empty, otherwise the discovered title.
pub open spec fn final_name_spec(title: Seq<char>, custom: Option<Seq<char>>) -> Seq<char> {
    match custom {
        Option::Some(c) => if c.len() > 0 {
            c
        } else {
            title
        },
        Option::None => title,
    }
}

/// Picks the output base name; a custom name takes precedence over the
/// title unless it is empty.
pub fn get_final_name(title: &str, custom_name: Option<&str>) -> (r: String)
    ensures
        r@ == final_name_spec(
            title@,
            match custom_name {
                Option::Some(c) => Option::Some(c@),
                Option::None => Option::None,
            },
        ),
{
    match custom_name {
        Option::Some(c) => if c.unicode_len() > 0 {
            c.to_owned()
        } else {
            title.to_owned()
        },
        Option::None => title.to_owned(),
    }
}

/// Whether `s` begins with the characters of `p`.
pub open spec fn has_prefix(s: Seq<char>, p: Seq<char>) -> bool {
    s.len() >= p.len() && s.subrange(0, p.len() as int) == p
}

/// Whether `s` begins with `p`.
pub fn starts_with_str(s: &str, p: &str) -> (r: bool)
    ensures
        r == has_prefix(s@, p@),
{
    let sn = s.unicode_len();
    let pn = p.unicode_len();
    if sn < pn {
        assert(!has_prefix(s@, p@));
        return false;
    }
    let mut i: usize = 0;
    while i < pn
        invariant
            i <= pn <= sn,
            sn == s@.len(),
            pn == p@.len(),
            forall|j: int| 0 <= j < i ==> s@[j] == p@[j],
        decreases pn - i,
    {
        if s.get_char(i) != p.get_char(i) {
            assert(s@.subrange(0, pn as int)[i as int] != p@[i as int]);
            return false;
        }
        i += 1;
    }
    proof {
        assert(s@.subrange(0, pn as int) =~= p@);
    }
    true
}

/// Whether the input names a remote resource rather than a local file.
pub open spec fn is_url_spec(s: Seq<char>) -> bool {
    has_prefix(s, "http://"@) || has_prefix(s, "https://"@)
}

/// Whether the input is a URL (`http://` or `https://`).
pub fn is_url(input: &str) -> (r: bool)
    ensures
        r == is_url_spec(input@),
{
    starts_with_str(input, "http://") || starts_with_str(input, "https://")
}

/// A leading `~/` replaced by the home directory, when one is known.
pub open spec fn expand_tilde_spec(path: Seq<char>, home: Option<Seq<char>>) -> Seq<char> {
    match home {
        Option::Some(h) => if has_prefix(path, "~/"@) {
            h + seq!['/'] + path.skip(2)
        } else {
            path
        },
        Option::None => path,
    }
}

/// Expands a leading `~/` to the given home directory.
pub fn expand_tilde(path: &str, home: Option<&str>) -> (r: String)
    ensures
        r@ == expand_tilde_spec(
            path@,
            match home {
                Option::Some(h) => Option::Some(h@),
                Option::None => Option::None,
            },
        ),
{
    match home {
        Option::Some(h) => {
            if starts_with_str(path, "~/") {
                proof {
                    reveal_strlit("~/");
                    reveal_strlit("/");
                }
                let mut out = h.to_owned();
                out.append("/");
                let rest = path.substring_char(2, path.unicode_len());
                out.append(rest);
                proof {
                    assert(out@ =~= expand_tilde_spec(path@, Option::Some(h@)));
                }
                out
            } else {
                path.to_owned()
            }
        },
        Option::None => path.to_owned(),
    }
}

/// Raw command-line input, before validation.
#[derive(Debug, Clone)]
pub struct Args {
    /// URL or local media file path; absent only in list-models mode.
    pub input: Option<String>,
    /// Comma-separated output format specification.
    pub format: String,
    /// Custom base name for output files.
    pub name: Option<String>,
    /// Output directory.
    pub output: Option<String>,
    /// Verbosity level.
    pub verbose: u8,
    /// Keep the normalized audio next to the text outputs.
    pub keep: bool,
    /// Model identifier.
    pub model: String,
    /// Print the model catalog and exit.
    pub list_models: bool,
    /// Overwrite existing files without confirmation.
    pub overwrite: bool,
    /// Write the single rendered format to standard output only.
    pub stdout: bool,
}

/// Validated run parameters, immutable for the run\'s duration.
#[derive(Debug, Clone)]
pub struct Config {
    pub input_path: String,
    pub formats: Vec<OutputFormat>,
    pub custom_name: Option<String>,
    pub output_dir: String,
    pub verbose_level: u8,
    pub keep_audio: bool,
    pub model: String,
    pub overwrite_files: bool,
    pub stdout_mode: bool,
}

impl Config {
    /// Builds a validated configuration from raw arguments. The caller
    /// supplies the home directory (for `~` expansion) and the current
    /// working directory (the default output directory); creating the
    /// directory is the caller\'s business afterwards.
    pub fn from_args(args: &Args, home: Option<&str>, cwd: &str) -> (r: Result<Config, Error>)
        ensures
            match r {
                Result::Ok(c) => {
                    &&& formats_of(args.format@) == ParseOutcome::Parsed(c.formats@)
                    &&& !(args.stdout && c.formats@.len() > 1)
                    &&& is_catalog_name(normalize_model(args.model@))
                    &&& c.model@ == normalize_model(args.model@)
                    &&& c.output_dir@ == (match args.output {
                        Option::Some(o) => expand_tilde_spec(
                            o@,
                            match home {
                                Option::Some(h) => Option::Some(h@),
                                Option::None => Option::None,
                            },
                        ),
                        Option::None => cwd@,
                    })
                    &&& (match (args.name, c.custom_name) {
                        (Option::Some(n), Option::Some(s)) => s@ == strip_txt(n@),
                        (Option::None, Option::None) => true,
                        _ => false,
                    })
                    &&& c.input_path@ == (match args.input {
                        Option::Some(i) => i@,
                        Option::None => Seq::<char>::empty(),
                    })
                    &&& c.verbose_level == args.verbose
                    &&& c.keep_audio == args.keep
                    &&& c.overwrite_files == args.overwrite
                    &&& c.stdout_mode == args.stdout
                },
                Result::Err(e) => match e {
                    Error::InvalidFormat(t) => formats_of(args.format@) matches
                        ParseOutcome::BadToken(b) && t@ == b,
                    Error::MultipleFormatsWithStdout => args.stdout && (formats_of(args.format@)
                        matches ParseOutcome::Parsed(fs) && fs.len() > 1),
                    Error::InvalidModel(t) => (formats_of(args.format@) matches
                        ParseOutcome::Parsed(fs) && !(args.stdout && fs.len() > 1))
                        && !is_catalog_name(normalize_model(args.model@)) && t@ == args.model@,
                    _ => false,
                },
            },
    {
        let formats = match parse_formats(args.format.as_str(), args.stdout) {
            Result::Ok(v) => v,
            Result::Err(e) => {
                return Result::Err(e);
            },
        };
        let model = match validate_model(args.model.as_str()) {
            Result::Ok(m) => m,
            Result::Err(e) => {
                return Result::Err(e);
            },
        };
        let output_dir = match &args.output {
            Option::Some(o) => expand_tilde(o.as_str(), home),
            Option::None => cwd.to_owned(),
        };
        let custom_name = match &args.name {
            Option::Some(n) => Option::Some(strip_txt_extension(n.as_str())),
            Option::None => Option::None,
        };
        let input_path = match &args.input {
            Option::Some(i) => i.clone(),
            Option::None => String::new(),
        };
        Result::Ok(
            Config {
                input_path,
                formats,
                custom_name,
                output_dir,
                verbose_level: args.verbose,
                keep_audio: args.keep,
                model,
                overwrite_files: args.overwrite,
                stdout_mode: args.stdout,
            },
        )
    }
}

/// The model catalog as printed by list-models mode.
pub open spec fn models_listing() -> Seq<char> {
    "Available Whisper Models:\n\n"@ + "Tiny Models:\n   tiny               - Fastest model, 39M parameters\n                      39M params, ~1GB VRAM, multilingual\n   tiny.en            - English-only tiny model\n                      39M params, ~1GB VRAM, English only\n\n"@ + "Base Models:\n   base               - Smaller balanced model, 74M parameters\n                      74M params, ~1GB VRAM, multilingual\n   base.en            - English-only base model\n                      74M params, ~1GB VRAM, English only\n\n"@ + "Small Models:\n   small              - Default balanced model, 244M parameters\n                      244M params, ~2GB VRAM, multilingual\n   small.en           - English-only small model\n                      244M params, ~2GB VRAM, English only\n\n"@ + "Medium Models:\n   medium             - Good accuracy model, 769M parameters\n                      769M params, ~5GB VRAM, multilingual\n   medium.en          - English-only medium model\n                      769M params, ~5GB VRAM, English only\n\n"@ + "Large Models:\n   large              - Highest accuracy model, 1550M parameters\n                      1550M params, ~10GB VRAM, multilingual\n   large-v2           - Improved large model, 1550M parameters\n                      1550M params, ~10GB VRAM, multilingual\n   large-v3           - Latest large model, 1550M parameters\n                      1550M params, ~10GB VRAM, multilingual\n\n"@ + "Examples:\n   voxtus --model tiny video.mp4            # Fastest transcription\n   voxtus --model small video.mp4           # Good balance (default)\n   voxtus --model large-v3 video.mp4        # Best accuracy\n   voxtus --model small.en audio.mp3        # English-only, faster\n"@
}

/// The text printed by list-models mode: the catalog in groups, then usage
/// examples.
pub fn list_models_text() -> (r: String)
    ensures
        r@ == models_listing(),
{
    let mut out = String::new();
    out.append("Available Whisper Models:\n\n");
    out.append("Tiny Models:\n   tiny               - Fastest model, 39M parameters\n                      39M params, ~1GB VRAM, multilingual\n   tiny.en            - English-only tiny model\n                      39M params, ~1GB VRAM, English only\n\n");
    out.append("Base Models:\n   base               - Smaller balanced model, 74M parameters\n                      74M params, ~1GB VRAM, multilingual\n   base.en            - English-only base model\n                      74M params, ~1GB VRAM, English only\n\n");
    out.append("Small Models:\n   small              - Default balanced model, 244M parameters\n                      244M params, ~2GB VRAM, multilingual\n   small.en           - English-only small model\n                      244M params, ~2GB VRAM, English only\n\n");
    out.append("Medium Models:\n   medium             - Good accuracy model, 769M parameters\n                      769M params, ~5GB VRAM, multilingual\n   medium.en          - English-only medium model\n                      769M params, ~5GB VRAM, English only\n\n");
    out.append("Large Models:\n   large              - Highest accuracy model, 1550M parameters\n                      1550M params, ~10GB VRAM, multilingual\n   large-v2           - Improved large model, 1550M parameters\n                      1550M params, ~10GB VRAM, multilingual\n   large-v3           - Latest large model, 1550M parameters\n                      1550M params, ~10GB VRAM, multilingual\n\n");
    out.append("Examples:\n   voxtus --model tiny video.mp4            # Fastest transcription\n   voxtus --model small video.mp4           # Good balance (default)\n   voxtus --model large-v3 video.mp4        # Best accuracy\n   voxtus --model small.en audio.mp3        # English-only, faster\n");
    proof {
        assert(out@ =~= models_listing());
    }
    out
}

} // verus!
