//! The argument list handed to the audio conversion tool.

use vstd::prelude::*;

verus! {

/// The argument list for converting `input` to an MP3 at `output`: audio
/// only, MP3 codec, quality level 2, overwriting the output.
pub open spec fn convert_args_spec(input: Seq<char>, output: Seq<char>) -> Seq<Seq<char>> {
    seq!["-i"@, input, "-vn"@, "-acodec"@, "mp3"@, "-q:a"@, "2"@, "-y"@, output]
}

/// Builds the conversion argument list for the given input and output paths.
pub fn ffmpeg_convert_args(input: &str, output: &str) -> (r: Vec<String>)
    ensures
        r.deep_view() == convert_args_spec(input@, output@),
{
    let mut args: Vec<String> = Vec::new();
    args.push("-i".to_owned());
    args.push(input.to_owned());
    args.push("-vn".to_owned());
    args.push("-acodec".to_owned());
    args.push("mp3".to_owned());
    args.push("-q:a".to_owned());
    args.push("2".to_owned());
    args.push("-y".to_owned());
    args.push(output.to_owned());
    proof {
        assert(args.deep_view() =~~= convert_args_spec(input@, output@));
    }
    args
}

} // verus!
