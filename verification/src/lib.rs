//! Voxtus: a media-transcription pipeline core.
//!
//! The crate holds the verified heart of a command-line transcription tool:
//! the transcript data model with its four text renderers (txt, json, srt,
//! vtt), the configuration resolver, the cooperative cancellation token, and
//! the pipeline orchestrator expressed as a state machine. Timestamps are
//! held as integer milliseconds throughout.

pub mod audio;
pub mod config;
pub mod error;
pub mod formats;
pub mod laws;
pub mod numfmt;
pub mod paths;
pub mod pipeline;
pub mod signals;
pub mod strutil;
pub mod transcribe;

pub use config::Args;
pub use config::Config;
pub use error::Error;
