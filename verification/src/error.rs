//! The error taxonomy of the pipeline. Every failure a run can surface is
//! one of these kinds; `message` renders the human-readable line printed to
//! standard error.

use vstd::prelude::*;

verus! {

/// All failures a run can surface.
#[derive(Debug, Clone)]
pub enum Error {
    /// An unrecognized output-format token, as written (after trimming).
    InvalidFormat(String),
    /// More than one output format was requested together with stdout mode.
    MultipleFormatsWithStdout,
    /// The local input file does not exist.
    FileNotFound(String),
    /// A malformed input URL.
    InvalidUrl(String),
    /// The acquisition collaborator failed.
    DownloadFailed(String),
    /// The transcription collaborator failed.
    TranscriptionFailed(String),
    /// The audio conversion collaborator failed.
    FfmpegError(String),
    /// The audio conversion tool is not installed.
    FfmpegNotFound,
    /// A model name outside the catalog.
    InvalidModel(String),
    /// The user declined an overwrite prompt (or the prompt could not be read).
    UserAborted,
    /// A filesystem failure, with its diagnostic text.
    Io(String),
}

/// The human-readable message for each error kind.
pub open spec fn message_spec(e: Error) -> Seq<char> {
    match e {
        Error::InvalidFormat(s) => "Invalid format: "@ + s@,
        Error::MultipleFormatsWithStdout => "Multiple formats not allowed with --stdout"@,
        Error::FileNotFound(s) => "File not found: "@ + s@,
        Error::InvalidUrl(s) => "Invalid URL: "@ + s@,
        Error::DownloadFailed(s) => "Download failed: "@ + s@,
        Error::TranscriptionFailed(s) => "Transcription failed: "@ + s@,
        Error::FfmpegError(s) => "FFmpeg error: "@ + s@,
        Error::FfmpegNotFound => "FFmpeg not found. Please install ffmpeg."@,
        Error::InvalidModel(s) => "Invalid model: "@ + s@,
        Error::UserAborted => "User aborted"@,
        Error::Io(s) => "IO error: "@ + s@,
    }
}

impl Error {
    /// The message for this error.
    pub fn message(&self) -> (r: String)
        ensures
            r@ == message_spec(*self),
    {
        let mut out = String::new();
        match self {
            Error::InvalidFormat(s) => {
                out.append("Invalid format: ");
                out.append(s.as_str());
            },
            Error::MultipleFormatsWithStdout => {
                out.append("Multiple formats not allowed with --stdout");
            },
            Error::FileNotFound(s) => {
                out.append("File not found: ");
                out.append(s.as_str());
            },
            Error::InvalidUrl(s) => {
                out.append("Invalid URL: ");
                out.append(s.as_str());
            },
            Error::DownloadFailed(s) => {
                out.append("Download failed: ");
                out.append(s.as_str());
            },
            Error::TranscriptionFailed(s) => {
                out.append("Transcription failed: ");
                out.append(s.as_str());
            },
            Error::FfmpegError(s) => {
                out.append("FFmpeg error: ");
                out.append(s.as_str());
            },
            Error::FfmpegNotFound => {
                out.append("FFmpeg not found. Please install ffmpeg.");
            },
            Error::InvalidModel(s) => {
                out.append("Invalid model: ");
                out.append(s.as_str());
            },
            Error::UserAborted => {
                out.append("User aborted");
            },
            Error::Io(s) => {
                out.append("IO error: ");
                out.append(s.as_str());
            },
        }
        proof {
            assert(out@ =~= message_spec(*self));
        }
        out
    }
}

} // verus!
