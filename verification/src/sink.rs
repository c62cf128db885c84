//! Sinks: the consumers of a playlist that receive decoded audio.

use crate::buffer::{pulled, DecodedBuffer, GrooveBuffer};
use crate::engine::{check_status, status_outcome, BufferStatus};
use crate::format::{AudioFormat, GrooveAudioFormat};
use crate::playlist::Playlist;
use vstd::prelude::*;

verus! {

/// Where a consumer stands with respect to a playlist.
#[derive(Clone, Copy, Debug, PartialEq, Eq, Structural)]
pub enum Attachment {
    /// Was never attached.
    Created,
    /// Is attached to the native playlist that is named.
    Attached(usize),
    /// Was attached, and is no longer.
    Detached,
}

impl Attachment {
    /// The state after an attempt to attach to `playlist` that the engine
    /// answered with `status`: a failed attempt changes nothing.
    pub open spec fn after_attach(self, playlist: usize, status: i32) -> Attachment {
        if status >= 0 {
            Attachment::Attached(playlist)
        } else {
            self
        }
    }

    /// The state after detaching: a consumer that was never attached stays
    /// so.
    pub open spec fn after_detach(self) -> Attachment {
        match self {
            Attachment::Attached(_) => Attachment::Detached,
            _ => self,
        }
    }

    pub(crate) fn attach(self, playlist: usize, status: i32) -> (next: Attachment)
        ensures
            next == self.after_attach(playlist, status),
    {
        if status >= 0 {
            Attachment::Attached(playlist)
        } else {
            self
        }
    }

    pub(crate) fn detach(self) -> (next: Attachment)
        ensures
            next == self.after_detach(),
    {
        match self {
            Attachment::Attached(_) => Attachment::Detached,
            _ => self,
        }
    }

    /// Whether the consumer is attached.
    pub fn is_attached(&self) -> (attached: bool)
        ensures
            attached == (self is Attached),
    {
        match self {
            Attachment::Attached(_) => true,
            _ => false,
        }
    }
}

/// Gives access to a realtime raw audio buffer, for example to draw a
/// waveform, or to play the audio.
pub struct Sink {
    groove_sink: usize,
    audio_format: Option<AudioFormat>,
    disable_resample: bool,
    state: Attachment,
}

impl Sink {
    /// The native sink that this one stands for.
    pub closed spec fn handle(&self) -> usize {
        self.groove_sink
    }

    /// The audio format that the sink is to output, if one was set.
    pub closed spec fn format(&self) -> Option<AudioFormat> {
        self.audio_format
    }

    /// Whether the sink is to ignore its audio format.
    pub closed spec fn resample_disabled(&self) -> bool {
        self.disable_resample
    }

    pub closed spec fn state(&self) -> Attachment {
        self.state
    }

    /// A sink for the native sink that the engine created: not attached,
    /// without an audio format, and resampling.
    pub fn new(groove_sink: usize) -> (sink: Self)
        ensures
            sink.handle() == groove_sink,
            sink.format() is None,
            !sink.resample_disabled(),
            sink.state() == Attachment::Created,
    {
        Sink { groove_sink, audio_format: None, disable_resample: false, state: Attachment::Created }
    }

    /// The native sink that this one stands for.
    pub fn id(&self) -> (groove_sink: usize)
        ensures
            groove_sink == self.handle(),
    {
        self.groove_sink
    }

    /// The audio format that the sink is to output, if one was set.
    pub fn audio_format(&self) -> (format: Option<AudioFormat>)
        ensures
            format == self.format(),
    {
        self.audio_format
    }

    /// Whether the sink is to ignore its audio format.
    pub fn is_resample_disabled(&self) -> (disabled: bool)
        ensures
            disabled == self.resample_disabled(),
    {
        self.disable_resample
    }

    /// Where the sink stands with respect to a playlist.
    pub fn attachment(&self) -> (state: Attachment)
        ensures
            state == self.state(),
    {
        self.state
    }

    /// Sets the audio format that the sink is to output. Returns the numbers
    /// that tell the engine so.
    pub fn set_audio_format(&mut self, format: AudioFormat) -> (groove_audio_format:
        GrooveAudioFormat)
        ensures
            final(self).format() == Some(format),
            groove_audio_format.sample_rate == format.sample_rate,
            groove_audio_format.channel_layout == format.channel_layout.mask(),
            groove_audio_format.sample_fmt == format.sample_fmt.code(),
            final(self).handle() == old(self).handle(),
            final(self).resample_disabled() == old(self).resample_disabled(),
            final(self).state() == old(self).state(),
    {
        self.audio_format = Some(format);
        format.to_groove()
    }

    /// Takes the engine's answer to attaching the sink to `playlist`. With a
    /// status that is not negative the sink is attached; with a negative
    /// one it stays as it was, and the status is the error.
    pub fn attach(&mut self, playlist: &Playlist, status: i32) -> (outcome: Result<(), i32>)
        requires
            !(old(self).state() is Attached),
        ensures
            outcome == status_outcome(status),
            final(self).state() == old(self).state().after_attach(playlist.handle(), status),
            final(self).handle() == old(self).handle(),
            final(self).format() == old(self).format(),
            final(self).resample_disabled() == old(self).resample_disabled(),
    {
        self.state = self.state.attach(playlist.id(), status);
        check_status(status)
    }

    /// Takes the sink off its playlist.
    pub fn detach(&mut self)
        ensures
            final(self).state() == old(self).state().after_detach(),
            final(self).handle() == old(self).handle(),
            final(self).format() == old(self).format(),
            final(self).resample_disabled() == old(self).resample_disabled(),
    {
        self.state = self.state.detach();
    }

    /// Takes the engine's answer to a request for a buffer that blocks
    /// until there is a buffer or the playlist has ended. Returns `None` on
    /// end of playlist, `Some` when there is a buffer.
    pub fn buffer_get_blocking(&self, status: BufferStatus, buffer: GrooveBuffer) -> (decoded:
        Option<DecodedBuffer>)
        requires
            status != BufferStatus::No,
        ensures
            match decoded {
                Some(decoded) => pulled(status, buffer) == Some(decoded@),
                None => pulled(status, buffer) is None,
            },
    {
        match status {
            BufferStatus::Yes => Some(DecodedBuffer::new(buffer)),
            _ => None,
        }
    }

    /// Sets the flag to ignore the audio format: with it, the buffers
    /// pulled from this sink could have any audio format. Returns the
    /// number that tells the engine so.
    pub fn disable_resample(&mut self, disabled: bool) -> (flag: i32)
        ensures
            final(self).resample_disabled() == disabled,
            flag == if disabled {
                1i32
            } else {
                0i32
            },
            final(self).handle() == old(self).handle(),
            final(self).format() == old(self).format(),
            final(self).state() == old(self).state(),
    {
        self.disable_resample = disabled;
        if disabled {
            1
        } else {
            0
        }
    }

    /// Ends the sink. Returns whether it is attached still: the caller then
    /// detaches the native sink before it destroys it.
    pub fn destroy(self) -> (detach_first: bool)
        ensures
            detach_first == (self.state() is Attached),
    {
        self.state.is_attached()
    }
}

} // verus!
