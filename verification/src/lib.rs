//! Building blocks for driving the `ffmpeg` command-line tool: codec and
//! preset naming, encoding options, frame-sequence discovery, argument lists
//! and the step-by-step jobs that encode, merge and check media files.
pub mod codec;
pub mod config;
pub mod text;
pub mod options;
pub mod frames;
pub mod args;
pub mod job;
pub mod encode;

pub use codec::{EncoderPreset, HwAccel, VideoCodec};
pub use config::{DEFAULT_AUDIO_SAMPLING_RATE, GIF_MAX_FRAMES};
pub use encode::Ffmpeg;
pub use frames::{DirEntryInfo, FrameSequence};
pub use job::{Action, Cleanup, Event, Job, RunOutput, Step};
pub use options::{GifEncodeOptions, VideoEncodeOptions};
