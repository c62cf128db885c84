//! A safe access layer over a native streaming-audio engine.
//!
//! A host program opens media files, arranges them into a playlist, and
//! pulls decoded or encoded audio from the playlist through sinks and
//! encoders. The engine does the work on the audio; this library keeps
//! track of who owns which native object, says what to ask of the engine,
//! and reads its answers. Native objects are named by their handles, and
//! what the engine answers is handed in as plain values.

pub mod buffer;
pub mod encoder;
pub mod engine;
pub mod file;
pub mod format;
pub mod playlist;
pub mod registry;
pub mod sink;

pub use crate::buffer::{DecodedBuffer, EncodedBuffer, GrooveBuffer, SliceExtent, ViewError};
pub use crate::encoder::Encoder;
pub use crate::engine::{check_status, tag_match_flags, BufferStatus};
pub use crate::file::{version, File, InvalidUtf8, MetadataIterator, Tag, TagEdit, TagQuery};
pub use crate::format::{
    set_logging, AudioFormat, ChannelLayout, FillMode, GrooveAudioFormat, Log, SampleFormat,
    SampleType,
};
pub use crate::playlist::{Playlist, PlaylistItem, PlaylistIterator, UNIT_GAIN};
pub use crate::registry::PointerReferenceCounter;
pub use crate::sink::{Attachment, Sink};
