//! The pipeline orchestrator: a state machine that sequences acquisition,
//! conversion, transcription and emission, observing cancellation at stage
//! boundaries.
//!
//! The orchestrator itself performs no I/O. Each step returns an [`Action`]
//! for the caller to perform (download, convert, transcribe, probe a path,
//! prompt, write); the caller reports the outcome back as an [`Event`], and
//! the machine decides what happens next. A cancellation observed at a
//! checkpoint ends the run quietly, as a success.

use vstd::prelude::*;

use crate::config::{
    extension_spec, final_name_spec, is_url_spec, Config, OutputFormat,
};
use crate::error::Error;
use crate::formats::{json, srt, txt, vtt, Transcript};
use crate::paths::{
    file_title, has_mp3_ext, has_mp3_extension, output_file, output_file_path, title_of,
};
use crate::strutil::{ci_eq, ci_eq_str, trim_seq, trim_str};

verus! {

/// What the caller must do next.
#[derive(Debug)]
pub enum Action {
    /// Download the remote resource and report the audio file and title.
    FetchRemote { url: String },
    /// Report whether the local input file exists.
    ProbeLocal { path: String },
    /// Copy the local MP3 into the working area.
    CopyLocalAudio { source: String },
    /// Convert the source into an MP3 in the working area.
    ConvertAudio { source: String },
    /// Run speech recognition on the normalized audio.
    RunTranscription { audio_path: String, title: String, source: String, model: String },
    /// Write one rendered format to standard output.
    WriteStdout { content: String },
    /// Report whether the output path already exists.
    ProbeOutput { path: String },
    /// Ask the user whether to overwrite the existing file.
    PromptOverwrite { path: String },
    /// Write the rendered content to the output path.
    WriteFile { path: String, content: String },
    /// Copy the kept audio to its final place.
    CopyAudio { source: String, dest: String },
    /// The run is over; a failure is reported, a quiet stop is not.
    Finish { failure: Option<Error> },
}

/// What the caller reports back.
#[derive(Debug)]
pub enum Event {
    /// The download finished; the audio file and the discovered title.
    RemoteFetched { audio_path: String, title: String },
    /// The download failed.
    RemoteFailed { message: String },
    /// Whether the local input file exists.
    LocalProbed { exists: bool },
    /// The audio conversion failed.
    ConvertFailed { message: String },
    /// The copy into the working area failed.
    CopyFailed { message: String },
    /// The normalized audio is ready; `cancelled` is the flag polled at
    /// this checkpoint.
    AudioReady { audio_path: String, cancelled: bool },
    /// Transcription finished; `cancelled` is the flag polled at this
    /// checkpoint.
    TranscriptReady { transcript: Transcript, cancelled: bool },
    /// Transcription failed.
    TranscribeFailed { message: String },
    /// Whether the output path already exists.
    OutputProbed { exists: bool },
    /// The user's overwrite answer; `None` when reading it failed.
    PromptAnswered { response: Option<String> },
    /// The write (to the file, or to standard output) finished, or failed
    /// with a diagnostic.
    FileWritten { error: Option<String> },
    /// The audio copy finished, or failed with a diagnostic.
    AudioCopied { error: Option<String> },
}

/// Where the emission of one format stands.
#[derive(Debug, Clone, Copy, PartialEq, Eq, Structural)]
pub enum EmitPhase {
    /// Waiting to hear whether the output path exists.
    Probe,
    /// Waiting for the user's overwrite answer.
    Prompt,
    /// Waiting for the write to finish.
    Write,
}

/// The orchestrator's position in the run.
#[derive(Debug)]
pub enum Stage {
    /// Waiting for the input to be fetched or probed.
    Acquiring,
    /// Waiting for the normalized audio.
    AwaitingAudio { title: String },
    /// Waiting for the transcript.
    AwaitingTranscript { title: String, audio_path: String },
    /// Emitting the requested formats, one at a time, in order.
    Emitting { audio_path: String, transcript: Transcript, index: usize, phase: EmitPhase },
    /// Waiting for the kept audio to be copied out.
    AwaitingAudioCopy,
    /// The run is over.
    Done,
}

/// The state machine: a validated configuration and the current stage.
pub struct Pipeline {
    pub config: Config,
    pub stage: Stage,
}

impl Pipeline {
    /// Well-formedness: while emitting, the format index stays in range.
    pub open spec fn wf(self) -> bool {
        self.stage matches Stage::Emitting { index, .. } ==> index < self.config.formats@.len()
    }
}

/// The rendering of a transcript in one format.
pub open spec fn render_spec(t: Transcript, f: OutputFormat) -> Seq<char> {
    match f {
        OutputFormat::Txt => txt::txt_render(t.segments@),
        OutputFormat::Json => json::json_render(t.segments@, t.metadata),
        OutputFormat::Srt => srt::srt_render(t.segments@),
        OutputFormat::Vtt => vtt::vtt_render(t.segments@, t.metadata),
    }
}

/// The output base name for a run: the custom name when present and
/// non-empty, else the transcript's title.
pub open spec fn base_name_of(config: Config, t: Transcript) -> Seq<char> {
    final_name_spec(
        t.metadata.title@,
        match config.custom_name {
            Option::Some(c) => Option::Some(c@),
            Option::None => Option::None,
        },
    )
}

/// The output path for format `i` of the run.
pub open spec fn out_path_of(config: Config, t: Transcript, i: int) -> Seq<char> {
    output_file(config.output_dir@, base_name_of(config, t), extension_spec(config.formats@[i]))
}

/// Whether a prompt response accepts the overwrite: it must be `y`, up to
/// case and surrounding whitespace.
pub open spec fn affirmative(r: Seq<char>) -> bool {
    ci_eq(trim_seq(r), "y"@)
}

/// The run ends quietly: the stage is done and no failure is reported.
pub open spec fn quiet_stop(s2: Stage, a: Action) -> bool {
    &&& s2 is Done
    &&& a matches Action::Finish { failure: Option::None }
}

/// What emission of format `index` begins with: in stdout mode the content
/// goes straight out; otherwise the output path is probed first. Past the
/// last format the kept audio is copied out, or the run ends quietly.
pub open spec fn enters_emission(
    config: Config,
    audio_path: String,
    t: Transcript,
    index: int,
    s2: Stage,
    a: Action,
) -> bool {
    if index < config.formats@.len() {
        if config.stdout_mode {
            &&& (s2 matches Stage::Emitting { audio_path: a2, transcript: t2, index: i2, phase }
                && a2 == audio_path && t2 == t && i2 == index && phase is Write)
            &&& (a matches Action::WriteStdout { content } && content@ == render_spec(
                t,
                config.formats@[index],
            ))
        } else {
            &&& (s2 matches Stage::Emitting { audio_path: a2, transcript: t2, index: i2, phase }
                && a2 == audio_path && t2 == t && i2 == index && phase is Probe)
            &&& (a matches Action::ProbeOutput { path } && path@ == out_path_of(config, t, index))
        }
    } else if config.keep_audio {
        &&& s2 is AwaitingAudioCopy
        &&& (a matches Action::CopyAudio { source, dest } && source == audio_path && dest@
            == output_file(config.output_dir@, base_name_of(config, t), "mp3"@))
    } else {
        quiet_stop(s2, a)
    }
}

/// The transition relation of the orchestrator: from the stage `s`, on the
/// event `ev`, the machine moves to `s2` and asks for `a`. Any event that
/// the stage does not expect ends the run with a protocol failure.
pub open spec fn transition(config: Config, s: Stage, ev: Event, s2: Stage, a: Action) -> bool {
    match (s, ev) {
        (Stage::Acquiring, Event::RemoteFetched { audio_path, title }) => {
            &&& (s2 matches Stage::AwaitingAudio { title: t2 } && t2 == title)
            &&& (a matches Action::ConvertAudio { source } && source == audio_path)
        },
        (Stage::Acquiring, Event::RemoteFailed { message }) => {
            &&& s2 is Done
            &&& (a matches Action::Finish { failure: Option::Some(Error::DownloadFailed(m)) }
                && m == message)
        },
        (Stage::Acquiring, Event::LocalProbed { exists }) => {
            if !exists {
                &&& s2 is Done
                &&& (a matches Action::Finish { failure: Option::Some(Error::FileNotFound(p)) }
                    && p@ == config.input_path@)
            } else {
                &&& (s2 matches Stage::AwaitingAudio { title } && title@ == title_of(
                    config.input_path@,
                ))
                &&& if has_mp3_ext(config.input_path@) {
                    a matches Action::CopyLocalAudio { source } && source@ == config.input_path@
                } else {
                    a matches Action::ConvertAudio { source } && source@ == config.input_path@
                }
            }
        },
        (Stage::AwaitingAudio { title }, Event::ConvertFailed { message }) => {
            &&& s2 is Done
            &&& (a matches Action::Finish { failure: Option::Some(Error::FfmpegError(m)) } && m
                == message)
        },
        (Stage::AwaitingAudio { title }, Event::CopyFailed { message }) => {
            &&& s2 is Done
            &&& (a matches Action::Finish { failure: Option::Some(Error::Io(m)) } && m == message)
        },
        (Stage::AwaitingAudio { title }, Event::AudioReady { audio_path, cancelled }) => {
            if cancelled {
                quiet_stop(s2, a)
            } else {
                &&& (s2 matches Stage::AwaitingTranscript { title: t2, audio_path: p2 } && t2
                    == title && p2 == audio_path)
                &&& (a matches Action::RunTranscription { audio_path: p3, title: t3, source, model }
                    && p3 == audio_path && t3 == title && source@ == config.input_path@ && model@
                    == config.model@)
            }
        },
        (Stage::AwaitingTranscript { title, audio_path }, Event::TranscribeFailed { message }) => {
            &&& s2 is Done
            &&& (a matches Action::Finish {
                failure: Option::Some(Error::TranscriptionFailed(m)),
            } && m == message)
        },
        (
            Stage::AwaitingTranscript { title, audio_path },
            Event::TranscriptReady { transcript, cancelled },
        ) => {
            if cancelled {
                quiet_stop(s2, a)
            } else {
                enters_emission(config, audio_path, transcript, 0, s2, a)
            }
        },
        (
            Stage::Emitting { audio_path, transcript, index, phase: EmitPhase::Probe },
            Event::OutputProbed { exists },
        ) => {
            if exists && !config.overwrite_files {
                &&& (s2 matches Stage::Emitting { audio_path: a2, transcript: t2, index: i2, phase }
                    && a2 == audio_path && t2 == transcript && i2 == index && phase is Prompt)
                &&& (a matches Action::PromptOverwrite { path } && path@ == out_path_of(
                    config,
                    transcript,
                    index as int,
                ))
            } else {
                &&& (s2 matches Stage::Emitting { audio_path: a2, transcript: t2, index: i2, phase }
                    && a2 == audio_path && t2 == transcript && i2 == index && phase is Write)
                &&& (a matches Action::WriteFile { path, content } && path@ == out_path_of(
                    config,
                    transcript,
                    index as int,
                ) && content@ == render_spec(transcript, config.formats@[index as int]))
            }
        },
        (
            Stage::Emitting { audio_path, transcript, index, phase: EmitPhase::Prompt },
            Event::PromptAnswered { response },
        ) => {
            match response {
                Option::Some(r) => {
                    if affirmative(r@) {
                        &&& (s2 matches Stage::Emitting {
                            audio_path: a2,
                            transcript: t2,
                            index: i2,
                            phase,
                        } && a2 == audio_path && t2 == transcript && i2 == index && phase is Write)
                        &&& (a matches Action::WriteFile { path, content } && path@ == out_path_of(
                            config,
                            transcript,
                            index as int,
                        ) && content@ == render_spec(transcript, config.formats@[index as int]))
                    } else {
                        &&& s2 is Done
                        &&& (a matches Action::Finish {
                            failure: Option::Some(Error::UserAborted),
                        })
                    }
                },
                Option::None => {
                    &&& s2 is Done
                    &&& (a matches Action::Finish { failure: Option::Some(Error::UserAborted) })
                },
            }
        },
        (
            Stage::Emitting { audio_path, transcript, index, phase: EmitPhase::Write },
            Event::FileWritten { error },
        ) => {
            match error {
                Option::None => enters_emission(
                    config,
                    audio_path,
                    transcript,
                    index + 1,
                    s2,
                    a,
                ),
                Option::Some(m) => {
                    &&& s2 is Done
                    &&& (a matches Action::Finish { failure: Option::Some(Error::Io(m2)) } && m2
                        == m)
                },
            }
        },
        (Stage::AwaitingAudioCopy, Event::AudioCopied { error }) => {
            match error {
                Option::None => quiet_stop(s2, a),
                Option::Some(m) => {
                    &&& s2 is Done
                    &&& (a matches Action::Finish { failure: Option::Some(Error::Io(m2)) } && m2
                        == m)
                },
            }
        },
        (_, _) => {
            &&& s2 is Done
            &&& (a matches Action::Finish { failure: Option::Some(Error::Io(m)) } && m@
                == "unexpected event"@)
        },
    }
}

/// The first action of a run: fetch a URL, or probe a local path.
pub open spec fn start_action(config: Config, a: Action) -> bool {
    if is_url_spec(config.input_path@) {
        a matches Action::FetchRemote { url } && url@ == config.input_path@
    } else {
        a matches Action::ProbeLocal { path } && path@ == config.input_path@
    }
}

/// Renders a transcript in one format.
pub fn render_transcript(t: &Transcript, f: OutputFormat) -> (r: String)
    ensures
        r@ == render_spec(*t, f),
{
    match f {
        OutputFormat::Txt => t.to_txt(),
        OutputFormat::Json => t.to_json(),
        OutputFormat::Srt => t.to_srt(),
        OutputFormat::Vtt => t.to_vtt(),
    }
}

/// Whether a prompt response accepts the overwrite.
pub fn is_affirmative(response: &str) -> (r: bool)
    ensures
        r == affirmative(response@),
{
    ci_eq_str(trim_str(response), "y")
}

/// The output base name for this run.
fn base_name(config: &Config, t: &Transcript) -> (r: String)
    ensures
        r@ == base_name_of(*config, *t),
{
    let custom = match &config.custom_name {
        Option::Some(c) => Option::Some(c.as_str()),
        Option::None => Option::None,
    };
    crate::config::get_final_name(t.metadata.title.as_str(), custom)
}

/// The output path for format `index` of this run.
fn out_path(config: &Config, t: &Transcript, index: usize) -> (r: String)
    requires
        index < config.formats@.len(),
    ensures
        r@ == out_path_of(*config, *t, index as int),
{
    let base = base_name(config, t);
    let ext = config.formats[index].extension();
    output_file_path(config.output_dir.as_str(), base.as_str(), ext)
}

/// Emission entry for format `index`: the stage and action that follow.
fn begin_emission(config: &Config, audio_path: String, transcript: Transcript, index: usize) -> (r:
    (Stage, Action))
    requires
        index <= config.formats@.len(),
    ensures
        enters_emission(*config, audio_path, transcript, index as int, r.0, r.1),
{
    if index < config.formats.len() {
        if config.stdout_mode {
            let content = render_transcript(&transcript, config.formats[index]);
            (
                Stage::Emitting { audio_path, transcript, index, phase: EmitPhase::Write },
                Action::WriteStdout { content },
            )
        } else {
            let path = out_path(config, &transcript, index);
            (
                Stage::Emitting { audio_path, transcript, index, phase: EmitPhase::Probe },
                Action::ProbeOutput { path },
            )
        }
    } else if config.keep_audio {
        let base = base_name(config, &transcript);
        let dest = output_file_path(config.output_dir.as_str(), base.as_str(), "mp3");
        (Stage::AwaitingAudioCopy, Action::CopyAudio { source: audio_path, dest })
    } else {
        (Stage::Done, Action::Finish { failure: Option::None })
    }
}

impl Pipeline {
    /// A fresh run over a validated configuration.
    pub fn new(config: Config) -> (r: Pipeline)
        ensures
            r.config == config,
            r.stage is Acquiring,
            r.wf(),
    {
        Pipeline { config, stage: Stage::Acquiring }
    }

    /// The first action of the run.
    pub fn start(&self) -> (a: Action)
        ensures
            start_action(self.config, a),
    {
        if crate::config::is_url(self.config.input_path.as_str()) {
            Action::FetchRemote { url: self.config.input_path.clone() }
        } else {
            Action::ProbeLocal { path: self.config.input_path.clone() }
        }
    }

    /// One step of the run: consumes the caller's report of the last
    /// action's outcome and decides the next stage and action.
    pub fn step(self, event: Event) -> (r: (Pipeline, Action))
        requires
            self.wf(),
        ensures
            r.0.config == self.config,
            r.0.wf(),
            transition(self.config, self.stage, event, r.0.stage, r.1),
    {
        let Pipeline { config, stage } = self;
        let (stage2, action): (Stage, Action) = match (stage, event) {
            (Stage::Acquiring, Event::RemoteFetched { audio_path, title }) => (
                Stage::AwaitingAudio { title },
                Action::ConvertAudio { source: audio_path },
            ),
            (Stage::Acquiring, Event::RemoteFailed { message }) => (
                Stage::Done,
                Action::Finish { failure: Option::Some(Error::DownloadFailed(message)) },
            ),
            (Stage::Acquiring, Event::LocalProbed { exists }) => {
                if !exists {
                    (
                        Stage::Done,
                        Action::Finish {
                            failure: Option::Some(Error::FileNotFound(config.input_path.clone())),
                        },
                    )
                } else {
                    let title = file_title(config.input_path.as_str());
                    if has_mp3_extension(config.input_path.as_str()) {
                        (
                            Stage::AwaitingAudio { title },
                            Action::CopyLocalAudio { source: config.input_path.clone() },
                        )
                    } else {
                        (
                            Stage::AwaitingAudio { title },
                            Action::ConvertAudio { source: config.input_path.clone() },
                        )
                    }
                }
            },
            (Stage::AwaitingAudio { title: _ }, Event::ConvertFailed { message }) => (
                Stage::Done,
                Action::Finish { failure: Option::Some(Error::FfmpegError(message)) },
            ),
            (Stage::AwaitingAudio { title: _ }, Event::CopyFailed { message }) => (
                Stage::Done,
                Action::Finish { failure: Option::Some(Error::Io(message)) },
            ),
            (Stage::AwaitingAudio { title }, Event::AudioReady { audio_path, cancelled }) => {
                if cancelled {
                    (Stage::Done, Action::Finish { failure: Option::None })
                } else {
                    let action = Action::RunTranscription {
                        audio_path: audio_path.clone(),
                        title: title.clone(),
                        source: config.input_path.clone(),
                        model: config.model.clone(),
                    };
                    (Stage::AwaitingTranscript { title, audio_path }, action)
                }
            },
            (
                Stage::AwaitingTranscript { title: _, audio_path: _ },
                Event::TranscribeFailed { message },
            ) => (
                Stage::Done,
                Action::Finish { failure: Option::Some(Error::TranscriptionFailed(message)) },
            ),
            (
                Stage::AwaitingTranscript { title: _, audio_path },
                Event::TranscriptReady { transcript, cancelled },
            ) => {
                if cancelled {
                    (Stage::Done, Action::Finish { failure: Option::None })
                } else {
                    begin_emission(&config, audio_path, transcript, 0)
                }
            },
            (
                Stage::Emitting { audio_path, transcript, index, phase: EmitPhase::Probe },
                Event::OutputProbed { exists },
            ) => {
                if exists && !config.overwrite_files {
                    let path = out_path(&config, &transcript, index);
                    (
                        Stage::Emitting { audio_path, transcript, index, phase: EmitPhase::Prompt },
                        Action::PromptOverwrite { path },
                    )
                } else {
                    let path = out_path(&config, &transcript, index);
                    let content = render_transcript(&transcript, config.formats[index]);
                    (
                        Stage::Emitting { audio_path, transcript, index, phase: EmitPhase::Write },
                        Action::WriteFile { path, content },
                    )
                }
            },
            (
                Stage::Emitting { audio_path, transcript, index, phase: EmitPhase::Prompt },
                Event::PromptAnswered { response },
            ) => {
                let ok = match &response {
                    Option::Some(r) => is_affirmative(r.as_str()),
                    Option::None => false,
                };
                if ok {
                    let path = out_path(&config, &transcript, index);
                    let content = render_transcript(&transcript, config.formats[index]);
                    (
                        Stage::Emitting { audio_path, transcript, index, phase: EmitPhase::Write },
                        Action::WriteFile { path, content },
                    )
                } else {
                    (Stage::Done, Action::Finish { failure: Option::Some(Error::UserAborted) })
                }
            },
            (
                Stage::Emitting { audio_path, transcript, index, phase: EmitPhase::Write },
                Event::FileWritten { error },
            ) => {
                match error {
                    Option::None => {
                        // binds the vector length so the index increment is
                        // known to stay within usize
                        let n: usize = config.formats.len();
                        begin_emission(&config, audio_path, transcript, index + 1)
                    },
                    Option::Some(m) => (
                        Stage::Done,
                        Action::Finish { failure: Option::Some(Error::Io(m)) },
                    ),
                }
            },
            (Stage::AwaitingAudioCopy, Event::AudioCopied { error }) => {
                match error {
                    Option::None => (Stage::Done, Action::Finish { failure: Option::None }),
                    Option::Some(m) => (
                        Stage::Done,
                        Action::Finish { failure: Option::Some(Error::Io(m)) },
                    ),
                }
            },
            (_, _) => (
                Stage::Done,
                Action::Finish { failure: Option::Some(Error::Io("unexpected event".to_owned())) },
            ),
        };
        (Pipeline { config, stage: stage2 }, action)
    }
}

} // verus!
