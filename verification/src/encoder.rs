//! Encoders: the consumers of a playlist that receive encoded audio.

use crate::buffer::{pulled, EncodedBuffer, GrooveBuffer};
use crate::engine::{check_status, status_outcome, BufferStatus};
use crate::format::{
    AudioFormat, ChannelLayout, GrooveAudioFormat, SampleFormat, SampleType,
};
use crate::playlist::Playlist;
use crate::sink::Attachment;
use vstd::prelude::*;

verus! {

/// The bit rate of a new encoder, in bits per second.
pub const DEFAULT_BIT_RATE: i32 = 256000;

/// The sample rate of the target format of a new encoder.
pub const DEFAULT_SAMPLE_RATE: i32 = 44100;

/// The target format of a new encoder: 44100 Hz, signed 16-bit samples,
/// interleaved, stereo.
pub open spec fn default_target() -> AudioFormat {
    AudioFormat {
        sample_rate: DEFAULT_SAMPLE_RATE,
        channel_layout: ChannelLayout::LayoutStereo,
        sample_fmt: SampleFormat { sample_type: SampleType::S16, planar: false },
    }
}

/// The text of a hint, if the hint was given.
pub open spec fn hint_text(hint: Option<String>) -> Option<Seq<char>> {
    match hint {
        Some(text) => Some(text@),
        None => None,
    }
}

/// Keeps a buffer of encoded audio full while it is attached to a playlist,
/// for example to implement an audio stream over a network.
pub struct Encoder {
    groove_encoder: usize,
    target_audio_format: AudioFormat,
    bit_rate: i32,
    format_short_name: Option<String>,
    codec_short_name: Option<String>,
    filename: Option<String>,
    mime_type: Option<String>,
    actual_audio_format: GrooveAudioFormat,
    state: Attachment,
}

/// What an encoder holds, as plain values.
pub struct EncoderView {
    pub handle: usize,
    pub target_audio_format: AudioFormat,
    pub bit_rate: i32,
    pub format_short_name: Option<Seq<char>>,
    pub codec_short_name: Option<Seq<char>>,
    pub filename: Option<Seq<char>>,
    pub mime_type: Option<Seq<char>>,
    /// The numbers of the format that the engine settled on when the
    /// encoder was attached last; all zero before.
    pub actual_audio_format: GrooveAudioFormat,
    pub state: Attachment,
}

impl View for Encoder {
    type V = EncoderView;

    closed spec fn view(&self) -> EncoderView {
        EncoderView {
            handle: self.groove_encoder,
            target_audio_format: self.target_audio_format,
            bit_rate: self.bit_rate,
            format_short_name: hint_text(self.format_short_name),
            codec_short_name: hint_text(self.codec_short_name),
            filename: hint_text(self.filename),
            mime_type: hint_text(self.mime_type),
            actual_audio_format: self.actual_audio_format,
            state: self.state,
        }
    }
}

impl Encoder {
    /// An encoder for the native encoder that the engine created: not
    /// attached, without hints, with the default target format and bit
    /// rate.
    pub fn new(groove_encoder: usize) -> (encoder: Self)
        ensures
            encoder@ == (EncoderView {
                handle: groove_encoder,
                target_audio_format: default_target(),
                bit_rate: DEFAULT_BIT_RATE,
                format_short_name: None,
                codec_short_name: None,
                filename: None,
                mime_type: None,
                actual_audio_format: GrooveAudioFormat {
                    sample_rate: 0,
                    channel_layout: 0,
                    sample_fmt: 0,
                },
                state: Attachment::Created,
            }),
    {
        Encoder {
            groove_encoder,
            target_audio_format: AudioFormat {
                sample_rate: DEFAULT_SAMPLE_RATE,
                channel_layout: ChannelLayout::LayoutStereo,
                sample_fmt: SampleFormat { sample_type: SampleType::S16, planar: false },
            },
            bit_rate: DEFAULT_BIT_RATE,
            format_short_name: None,
            codec_short_name: None,
            filename: None,
            mime_type: None,
            actual_audio_format: GrooveAudioFormat { sample_rate: 0, channel_layout: 0, sample_fmt: 0 },
            state: Attachment::Created,
        }
    }

    /// The native encoder that this one stands for.
    pub fn id(&self) -> (groove_encoder: usize)
        ensures
            groove_encoder == self@.handle,
    {
        self.groove_encoder
    }

    /// Where the encoder stands with respect to a playlist.
    pub fn attachment(&self) -> (state: Attachment)
        ensures
            state == self@.state,
    {
        self.state
    }

    /// Sets the desired audio format to encode. It is a preference: if it
    /// cannot be used, the engine uses a substitute, which
    /// `get_actual_audio_format` gives. Returns the numbers that tell the
    /// engine so.
    pub fn set_target_audio_format(&mut self, target_audio_format: AudioFormat) -> (raw:
        GrooveAudioFormat)
        ensures
            final(self)@ == (EncoderView { target_audio_format, ..old(self)@ }),
            raw.sample_rate == target_audio_format.sample_rate,
            raw.channel_layout == target_audio_format.channel_layout.mask(),
            raw.sample_fmt == target_audio_format.sample_fmt.code(),
    {
        self.target_audio_format = target_audio_format;
        target_audio_format.to_groove()
    }

    pub fn get_target_audio_format(&self) -> (target_audio_format: AudioFormat)
        ensures
            target_audio_format == self@.target_audio_format,
    {
        self.target_audio_format
    }

    /// Selects the encoding quality by a target bit rate in bits per second
    /// (1 kbps is 1000 bps).
    pub fn set_bit_rate(&mut self, rate: i32)
        ensures
            final(self)@ == (EncoderView { bit_rate: rate, ..old(self)@ }),
    {
        self.bit_rate = rate;
    }

    pub fn get_bit_rate(&self) -> (rate: i32)
        ensures
            rate == self@.bit_rate,
    {
        self.bit_rate
    }

    /// Optional: a short name for the format, to help the engine guess
    /// which format to use.
    pub fn set_format_short_name(&mut self, format: &str)
        ensures
            final(self)@ == (EncoderView { format_short_name: Some(format@), ..old(self)@ }),
    {
        self.format_short_name = Some(format.to_owned());
    }

    /// Optional: a short name for the codec, to help the engine guess which
    /// codec to use.
    pub fn set_codec_short_name(&mut self, codec: &str)
        ensures
            final(self)@ == (EncoderView { codec_short_name: Some(codec@), ..old(self)@ }),
    {
        self.codec_short_name = Some(codec.to_owned());
    }

    /// Optional: an example filename, to help the engine guess which format
    /// and codec to use.
    pub fn set_filename(&mut self, filename: &str)
        ensures
            final(self)@ == (EncoderView { filename: Some(filename@), ..old(self)@ }),
    {
        self.filename = Some(filename.to_owned());
    }

    /// Optional: a mime type, to help the engine guess which format and
    /// codec to use.
    pub fn set_mime_type(&mut self, mime_type: &str)
        ensures
            final(self)@ == (EncoderView { mime_type: Some(mime_type@), ..old(self)@ }),
    {
        self.mime_type = Some(mime_type.to_owned());
    }

    /// The short name of the format, if one was set.
    pub fn format_short_name(&self) -> (hint: &Option<String>)
        ensures
            hint_text(*hint) == self@.format_short_name,
    {
        &self.format_short_name
    }

    /// The short name of the codec, if one was set.
    pub fn codec_short_name(&self) -> (hint: &Option<String>)
        ensures
            hint_text(*hint) == self@.codec_short_name,
    {
        &self.codec_short_name
    }

    /// The example filename, if one was set.
    pub fn filename(&self) -> (hint: &Option<String>)
        ensures
            hint_text(*hint) == self@.filename,
    {
        &self.filename
    }

    /// The mime type, if one was set.
    pub fn mime_type(&self) -> (hint: &Option<String>)
        ensures
            hint_text(*hint) == self@.mime_type,
    {
        &self.mime_type
    }

    /// The format that the engine settled on when the encoder was attached:
    /// ideally the target format, but it might not be. There is none before
    /// the encoder was attached.
    pub fn get_actual_audio_format(&self) -> (actual_audio_format: AudioFormat)
        requires
            self@.actual_audio_format.is_known(),
        ensures
            actual_audio_format.sample_rate == self@.actual_audio_format.sample_rate,
            actual_audio_format.channel_layout == ChannelLayout::of_mask(
                self@.actual_audio_format.channel_layout,
            ),
            actual_audio_format.sample_fmt == SampleFormat::of_code(
                self@.actual_audio_format.sample_fmt as int,
            ),
    {
        AudioFormat::from_groove(&self.actual_audio_format)
    }

    /// The outcome of putting a tag on the encoder's output, from the
    /// engine's status. See `TagEdit::set` for what is asked of the engine.
    pub fn metadata_set(&self, status: i32) -> (outcome: Result<(), i32>)
        ensures
            outcome == status_outcome(status),
    {
        check_status(status)
    }

    /// Takes the engine's answer to attaching the encoder to `playlist`:
    /// its status and, where that is not negative, the numbers of the
    /// format that it settled on. With a negative status the encoder stays
    /// as it was, and the status is the error.
    pub fn attach(
        &mut self,
        playlist: &Playlist,
        status: i32,
        actual_audio_format: GrooveAudioFormat,
    ) -> (outcome: Result<(), i32>)
        requires
            !(old(self)@.state is Attached),
        ensures
            outcome == status_outcome(status),
            status >= 0 ==> final(self)@ == (EncoderView {
                state: Attachment::Attached(playlist.handle()),
                actual_audio_format,
                ..old(self)@
            }),
            status < 0 ==> final(self)@ == old(self)@,
    {
        if status >= 0 {
            self.actual_audio_format = actual_audio_format;
        }
        self.state = self.state.attach(playlist.id(), status);
        check_status(status)
    }

    /// Takes the encoder off its playlist.
    pub fn detach(&mut self)
        ensures
            final(self)@ == (EncoderView { state: old(self)@.state.after_detach(), ..old(self)@ }),
    {
        self.state = self.state.detach();
    }

    /// Takes the engine's answer to a request for a buffer that blocks
    /// until there is a buffer or the playlist has ended. Returns `None` on
    /// end of playlist, `Some` when there is a buffer.
    pub fn buffer_get_blocking(&self, status: BufferStatus, buffer: GrooveBuffer) -> (encoded:
        Option<EncodedBuffer>)
        requires
            status != BufferStatus::No,
        ensures
            match encoded {
                Some(encoded) => pulled(status, buffer) == Some(encoded@),
                None => pulled(status, buffer) is None,
            },
    {
        match status {
            BufferStatus::Yes => Some(EncodedBuffer::new(buffer)),
            _ => None,
        }
    }

    /// Ends the encoder. Returns whether it is attached still: the caller
    /// then detaches the native encoder before it destroys it.
    pub fn destroy(self) -> (detach_first: bool)
        ensures
            detach_first == (self@.state is Attached),
    {
        self.state.is_attached()
    }
}

} // verus!
