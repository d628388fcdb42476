//! The crate's stated laws: properties that relate several functions, each
//! proved from the specifications the functions themselves carry.

use vstd::prelude::*;

use crate::config::{
    formats_of, is_catalog_name, normalize_model, parse_formats, parse_pieces, strip_txt, token_format,
    validate_model, Args, Config, OutputFormat, ParseOutcome,
};
use crate::config::ends_in_txt;
use crate::error::Error;
use crate::formats::{hms_timestamp, json, srt, txt, vtt, Metadata};
use crate::numfmt::{dec_digits, digit_char, pad2, pad3};
use crate::pipeline::{affirmative, transition, Action, EmitPhase, Event, Stage};
use crate::strutil::{split_commas, trim_seq};

verus! {

proof fn lemma_split_no_commas(s: Seq<char>)
    requires
        forall|i: int| 0 <= i < s.len() ==> s[i] != ',',
    ensures
        split_commas(s) == seq![s],
    decreases s.len(),
{
    if s.len() == 0 {
        assert(split_commas(s) =~~= seq![s]);
    } else {
        lemma_split_no_commas(s.drop_last());
        let p = split_commas(s.drop_last());
        assert(p.update(p.len() - 1, p.last().push(s.last())) =~~= seq![s]);
    }
}

/// A single trimmed, non-empty, comma-free token parses to exactly the
/// format it names, and to no format at all when it names none: the whole
/// specification then fails on that token.
pub proof fn lemma_single_token_parse(s: Seq<char>)
    requires
        s.len() > 0,
        trim_seq(s) == s,
        forall|i: int| 0 <= i < s.len() ==> s[i] != ',',
    ensures
        match token_format(s) {
            Option::Some(f) => formats_of(s) == ParseOutcome::Parsed(seq![f]),
            Option::None => formats_of(s) == ParseOutcome::BadToken(s),
        },
{
    lemma_split_no_commas(s);
    let pieces = seq![s];
    assert(pieces.drop_last() =~= Seq::<Seq<char>>::empty());
    assert(parse_pieces(Seq::<Seq<char>>::empty()) == ParseOutcome::Parsed(
        Seq::<OutputFormat>::empty(),
    ));
    match token_format(s) {
        Option::Some(f) => {
            assert(Seq::<OutputFormat>::empty().push(f) =~= seq![f]);
        },
        Option::None => {},
    }
}

/// A specification that names two or more formats is rejected by
/// `parse_formats` in stdout mode, always with `MultipleFormatsWithStdout`.
pub proof fn lemma_multi_format_stdout_rejected(
    fstr: &str,
    r: Result<Vec<OutputFormat>, Error>,
)
    requires
        formats_of(fstr@) matches ParseOutcome::Parsed(v) && v.len() >= 2,
        call_ensures(parse_formats, (fstr, true), r),
    ensures
        r matches Result::Err(Error::MultipleFormatsWithStdout),
{
}

/// The same specification is accepted by `parse_formats` outside stdout
/// mode, yielding exactly the formats it names.
pub proof fn lemma_multi_format_without_stdout_accepted(
    fstr: &str,
    r: Result<Vec<OutputFormat>, Error>,
)
    requires
        formats_of(fstr@) matches ParseOutcome::Parsed(v) && v.len() >= 2,
        call_ensures(parse_formats, (fstr, false), r),
    ensures
        r matches Result::Ok(v2) && ParseOutcome::Parsed(v2@) == formats_of(fstr@),
{
}

/// Stripping the `.txt` suffix is idempotent, for every name whose stripped
/// form does not itself end in `.txt` again.
pub proof fn lemma_strip_txt_idempotent(s: Seq<char>)
    requires
        !ends_in_txt(strip_txt(s)),
    ensures
        strip_txt(strip_txt(s)) == strip_txt(s),
{
}

/// Appending `.txt` to any name and stripping gives the name back.
pub proof fn lemma_strip_txt_of_appended(s: Seq<char>)
    ensures
        strip_txt(s + ".txt"@) == s,
{
    reveal_strlit(".txt");
    let t = s + ".txt"@;
    assert(ends_in_txt(t));
    assert(t.take(t.len() - 4) =~= s);
}

/// Every catalog name is accepted by `validate_model`: `large` comes back
/// as `large-v3`, every other name comes back unchanged.
pub proof fn lemma_validate_model_roundtrip(m: &str, r: Result<String, Error>)
    requires
        is_catalog_name(m@),
        call_ensures(validate_model, (m,), r),
    ensures
        r matches Result::Ok(v) && v@ == normalize_model(m@),
        m@ != "large"@ ==> (r matches Result::Ok(v2) && v2@ == m@),
{
    assert(is_catalog_name(normalize_model(m@)));
}

/// Every name outside the catalog is rejected by `validate_model` with
/// `InvalidModel`, carrying the name as given.
pub proof fn lemma_validate_model_rejects(m: &str, r: Result<String, Error>)
    requires
        !is_catalog_name(normalize_model(m@)),
        call_ensures(validate_model, (m,), r),
    ensures
        r matches Result::Err(Error::InvalidModel(t)) && t@ == m@,
{
}

proof fn lemma_dec_digits_len(n: nat)
    ensures
        n < 10 ==> dec_digits(n).len() == 1,
        10 <= n < 100 ==> dec_digits(n).len() == 2,
        100 <= n < 1000 ==> dec_digits(n).len() == 3,
    decreases n,
{
    if n >= 10 {
        lemma_dec_digits_len(n / 10);
    }
}

proof fn lemma_dec_digits_are_digits(n: nat)
    ensures
        forall|i: int| 0 <= i < dec_digits(n).len() ==> '0' <= #[trigger] dec_digits(n)[i]
            && dec_digits(n)[i] <= '9',
    decreases n,
{
    if n < 10 {
        assert(dec_digits(n) == seq![digit_char(n as int)]);
        assert('0' <= digit_char(n as int) && digit_char(n as int) <= '9');
    } else {
        lemma_dec_digits_are_digits(n / 10);
        let inner = dec_digits(n / 10);
        let whole = dec_digits(n);
        assert forall|i: int| 0 <= i < whole.len() implies '0' <= #[trigger] whole[i] && whole[i]
            <= '9' by {
            if i < inner.len() {
                assert(whole[i] == inner[i]);
            } else {
                assert(whole[i] == digit_char((n % 10) as int));
            }
        }
    }
}

/// The shape of a rendered timestamp, for any time below one hundred
/// thousand seconds: exactly `HH:MM:SS` then the separator and three
/// millisecond digits, where every field is decimal, minutes and seconds
/// stay below sixty, and milliseconds below one thousand.
pub proof fn lemma_timestamp_shape(ms: nat, sep: char)
    requires
        ms < 100_000_000,
    ensures
        ({
            let t = hms_timestamp(ms, sep);
            let total = ms / 1000;
            &&& (total % 3600) / 60 < 60
            &&& total % 60 < 60
            &&& ms % 1000 < 1000
            &&& t.len() == 12
            &&& t[2] == ':'
            &&& t[5] == ':'
            &&& t[8] == sep
            &&& forall|i: int| 0 <= i < 12 && i != 2 && i != 5 && i != 8 ==> '0' <= #[trigger] t[i]
                && t[i] <= '9'
        }),
{
    let t = hms_timestamp(ms, sep);
    let total = ms / 1000;
    let h = total / 3600;
    let m = (total % 3600) / 60;
    let s = total % 60;
    let f = ms % 1000;
    assert(total < 100_000);
    assert(h < 28);
    lemma_dec_digits_len(h);
    lemma_dec_digits_len(m);
    lemma_dec_digits_len(s);
    lemma_dec_digits_len(f);
    lemma_dec_digits_are_digits(h);
    lemma_dec_digits_are_digits(m);
    lemma_dec_digits_are_digits(s);
    lemma_dec_digits_are_digits(f);
    assert(pad2(h).len() == 2 && pad2(m).len() == 2 && pad2(s).len() == 2);
    assert(pad3(f).len() == 3);
    assert(t.len() == 12);
    assert forall|i: int| 0 <= i < 12 && i != 2 && i != 5 && i != 8 implies '0' <= #[trigger] t[i]
        && t[i] <= '9' by {
        assert('0' <= '0' && '0' <= '9');
    }
}

/// What the renderers give an empty segment list: plain text and SRT render
/// empty, VTT is the header and the metadata notes alone, and JSON carries
/// an empty `transcript` array.
pub proof fn lemma_empty_renders(md: Metadata)
    ensures
        txt::txt_render(Seq::<crate::formats::Segment>::empty()) == Seq::<char>::empty(),
        srt::srt_render(Seq::<crate::formats::Segment>::empty()) == Seq::<char>::empty(),
        vtt::vtt_render(Seq::<crate::formats::Segment>::empty(), md) == "WEBVTT\n\n"@
            + vtt::vtt_notes(md),
        json::json_render(Seq::<crate::formats::Segment>::empty(), md) == "{\n  \"transcript\": "@
            + "[]"@ + ",\n  \"metadata\": "@ + json::json_metadata(md) + "\n}"@,
{
    assert(vtt::vtt_render(Seq::<crate::formats::Segment>::empty(), md) =~= "WEBVTT\n\n"@
        + vtt::vtt_notes(md));
}

/// A stdout-mode request that names two or more formats is rejected while
/// the configuration is built, before any pipeline stage can begin: no
/// `Config` value exists for it, so no collaborator is ever invoked.
pub proof fn lemma_stdout_multi_rejected_at_config(
    args: &Args,
    home: Option<&str>,
    cwd: &str,
    r: Result<Config, Error>,
)
    requires
        args.stdout,
        formats_of(args.format@) matches ParseOutcome::Parsed(v) && v.len() >= 2,
        call_ensures(Config::from_args, (args, home, cwd), r),
    ensures
        r matches Result::Err(Error::MultipleFormatsWithStdout),
{
}

/// A non-affirmative (or unreadable) answer to the overwrite prompt ends
/// the whole run with `UserAborted`; in particular no write is requested,
/// so the existing file stays as it is.
pub proof fn lemma_overwrite_declined_aborts(
    config: Config,
    s: Stage,
    response: Option<String>,
    s2: Stage,
    a: Action,
)
    requires
        s matches Stage::Emitting { phase: EmitPhase::Prompt, .. },
        match response {
            Option::Some(resp) => !affirmative(resp@),
            Option::None => true,
        },
        transition(config, s, Event::PromptAnswered { response }, s2, a),
    ensures
        s2 is Done,
        a matches Action::Finish { failure: Option::Some(Error::UserAborted) },
        !(a matches Action::WriteFile { .. }),
{
}

/// The overwrite prompt is only ever raised for a file that exists while
/// overwriting was not requested.
pub proof fn lemma_prompt_needs_existing_file(
    config: Config,
    s: Stage,
    exists: bool,
    s2: Stage,
    a: Action,
)
    requires
        s matches Stage::Emitting { phase: EmitPhase::Probe, .. },
        transition(config, s, Event::OutputProbed { exists }, s2, a),
        a matches Action::PromptOverwrite { .. },
    ensures
        exists && !config.overwrite_files,
{
}

} // verus!
