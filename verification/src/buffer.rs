//! Buffers of decoded and of encoded audio.
//!
//! The samples stay in the engine's memory. A buffer here holds what the
//! engine tells about them, and says which part of that memory a view of
//! the samples covers.

use crate::engine::{BufferStatus, NULL_HANDLE};
use crate::format::{GrooveAudioFormat, SampleFormat, SampleType};
use vstd::prelude::*;

verus! {

/// What the engine tells about one of its buffers.
#[derive(Clone, Copy, Debug, PartialEq, Eq, Structural)]
pub struct GrooveBuffer {
    /// The native buffer.
    pub handle: usize,
    pub format: GrooveAudioFormat,
    /// The number of channels of the format's channel layout.
    pub channel_count: u32,
    /// The number of audio frames in the buffer; 0 for encoded audio.
    pub frame_count: u32,
    /// The native playlist item that the audio belongs to. When encoding,
    /// null for a format header or trailer.
    pub item: usize,
    /// The total number of bytes in the buffer.
    pub size: u32,
    /// The presentation time stamp of the buffer.
    pub pts: u64,
}

/// A part of a buffer's memory: one of its planes, from the start, and a
/// number of elements of the type that was asked for.
#[derive(Clone, Copy, Debug, PartialEq, Eq, Structural)]
pub struct SliceExtent {
    /// For interleaved and for encoded audio there is one plane, 0. For
    /// planar audio each channel has its own.
    pub plane: u32,
    pub len: u64,
}

/// Why a buffer cannot be viewed as was asked.
#[derive(Clone, Copy, Debug, PartialEq, Eq, Structural)]
pub enum ViewError {
    /// The buffer's sample format is none that this library knows.
    InvalidSampleFormat,
    /// The samples are of another type than the one asked for.
    WrongSampleType,
    /// One channel was asked for, and the buffer is interleaved.
    ExpectedPlanar,
    /// All channels were asked for as one, and the buffer is planar.
    ExpectedInterleaved,
    /// The buffer has no channel with the index asked for.
    InvalidChannelIndex,
}

/// Whether samples of the format `format` can be read as `wanted`; every
/// format can be read as raw bytes, which `None` stands for.
pub open spec fn reads_as(format: SampleFormat, wanted: Option<SampleType>) -> bool {
    match wanted {
        Some(sample_type) => format.sample_type == sample_type,
        None => true,
    }
}

/// What comes of asking for one channel of `buffer` as samples of the type
/// `wanted`.
pub open spec fn channel_view(
    buffer: GrooveBuffer,
    wanted: Option<SampleType>,
    channel_index: u32,
) -> Result<SliceExtent, ViewError> {
    let format = SampleFormat::of_code(buffer.format.sample_fmt as int);
    if !SampleFormat::is_code(buffer.format.sample_fmt as int) {
        Err(ViewError::InvalidSampleFormat)
    } else if !reads_as(format, wanted) {
        Err(ViewError::WrongSampleType)
    } else if !format.planar {
        Err(ViewError::ExpectedPlanar)
    } else if channel_index >= buffer.channel_count {
        Err(ViewError::InvalidChannelIndex)
    } else {
        Ok(SliceExtent { plane: channel_index, len: buffer.frame_count as u64 })
    }
}

/// What comes of asking for all channels of `buffer`, interleaved, as
/// samples of the type `wanted`.
pub open spec fn interleaved_view(buffer: GrooveBuffer, wanted: Option<SampleType>) -> Result<
    SliceExtent,
    ViewError,
> {
    let format = SampleFormat::of_code(buffer.format.sample_fmt as int);
    if !SampleFormat::is_code(buffer.format.sample_fmt as int) {
        Err(ViewError::InvalidSampleFormat)
    } else if !reads_as(format, wanted) {
        Err(ViewError::WrongSampleType)
    } else if format.planar {
        Err(ViewError::ExpectedInterleaved)
    } else {
        Ok(SliceExtent { plane: 0, len: (buffer.channel_count * buffer.frame_count) as u64 })
    }
}

/// What a request for a buffer hands out, given the engine's answer: the
/// buffer, if there is one.
pub open spec fn pulled(status: BufferStatus, buffer: GrooveBuffer) -> Option<GrooveBuffer> {
    match status {
        BufferStatus::Yes => Some(buffer),
        _ => None,
    }
}

/// A buffer which contains raw samples. It holds one reference to the
/// native buffer, which `release` gives back.
pub struct DecodedBuffer {
    groove_buffer: GrooveBuffer,
}

impl View for DecodedBuffer {
    type V = GrooveBuffer;

    closed spec fn view(&self) -> GrooveBuffer {
        self.groove_buffer
    }
}

impl DecodedBuffer {
    /// The buffer that the engine handed out with the given record.
    pub(crate) fn new(groove_buffer: GrooveBuffer) -> (buffer: DecodedBuffer)
        ensures
            buffer@ == groove_buffer,
    {
        DecodedBuffer { groove_buffer }
    }

    /// What the engine tells about the buffer.
    pub fn record(&self) -> (groove_buffer: GrooveBuffer)
        ensures
            groove_buffer == self@,
    {
        self.groove_buffer
    }

    /// The number of audio frames in the buffer.
    pub fn frame_count(&self) -> (frame_count: u32)
        ensures
            frame_count == self@.frame_count,
    {
        self.groove_buffer.frame_count
    }

    /// The presentation time stamp of the buffer.
    pub fn pts(&self) -> (pts: u64)
        ensures
            pts == self@.pts,
    {
        self.groove_buffer.pts
    }

    pub fn sample_format(&self) -> (format: SampleFormat)
        requires
            SampleFormat::is_code(self@.format.sample_fmt as int),
        ensures
            format == SampleFormat::of_code(self@.format.sample_fmt as int),
    {
        SampleFormat::from_groove(self.groove_buffer.format.sample_fmt)
    }

    /// Says whether one channel can be viewed as samples of the type
    /// `wanted` (as raw bytes, if `None`), and if it cannot, why not.
    pub fn check_channel_view(&self, wanted: Option<SampleType>, channel_index: u32) -> (outcome:
        Result<SliceExtent, ViewError>)
        ensures
            outcome == channel_view(self@, wanted, channel_index),
    {
        if !SampleFormat::is_groove_code(self.groove_buffer.format.sample_fmt) {
            return Err(ViewError::InvalidSampleFormat);
        }
        let format = self.sample_format();
        if !matches_type(&format, &wanted) {
            Err(ViewError::WrongSampleType)
        } else if !format.planar {
            Err(ViewError::ExpectedPlanar)
        } else if channel_index >= self.groove_buffer.channel_count {
            Err(ViewError::InvalidChannelIndex)
        } else {
            Ok(self.channel_as_slice_generic(channel_index))
        }
    }

    /// Says whether all channels can be viewed as one interleaved run of
    /// samples of the type `wanted` (of raw bytes, if `None`), and if they
    /// cannot, why not.
    pub fn check_interleaved_view(&self, wanted: Option<SampleType>) -> (outcome: Result<
        SliceExtent,
        ViewError,
    >)
        ensures
            outcome == interleaved_view(self@, wanted),
    {
        if !SampleFormat::is_groove_code(self.groove_buffer.format.sample_fmt) {
            return Err(ViewError::InvalidSampleFormat);
        }
        let format = self.sample_format();
        if !matches_type(&format, &wanted) {
            Err(ViewError::WrongSampleType)
        } else if format.planar {
            Err(ViewError::ExpectedInterleaved)
        } else {
            Ok(self.as_slice_generic())
        }
    }

    /// One channel as 64-bit float samples. The buffer has to be planar, with
    /// samples of that type, and with a channel of that index.
    pub fn channel_as_slice_f64(&self, channel_index: u32) -> (extent: SliceExtent)
        requires
            channel_view(self@, Some(SampleType::Dbl), channel_index) is Ok,
        ensures
            extent == (SliceExtent { plane: channel_index, len: self@.frame_count as u64 }),
    {
        self.channel_as_slice_generic(channel_index)
    }

    /// One channel as 32-bit float samples. The buffer has to be planar, with
    /// samples of that type, and with a channel of that index.
    pub fn channel_as_slice_f32(&self, channel_index: u32) -> (extent: SliceExtent)
        requires
            channel_view(self@, Some(SampleType::Flt), channel_index) is Ok,
        ensures
            extent == (SliceExtent { plane: channel_index, len: self@.frame_count as u64 }),
    {
        self.channel_as_slice_generic(channel_index)
    }

    /// One channel as signed 32-bit samples. The buffer has to be planar, with
    /// samples of that type, and with a channel of that index.
    pub fn channel_as_slice_i32(&self, channel_index: u32) -> (extent: SliceExtent)
        requires
            channel_view(self@, Some(SampleType::S32), channel_index) is Ok,
        ensures
            extent == (SliceExtent { plane: channel_index, len: self@.frame_count as u64 }),
    {
        self.channel_as_slice_generic(channel_index)
    }

    /// One channel as signed 16-bit samples. The buffer has to be planar, with
    /// samples of that type, and with a channel of that index.
    pub fn channel_as_slice_i16(&self, channel_index: u32) -> (extent: SliceExtent)
        requires
            channel_view(self@, Some(SampleType::S16), channel_index) is Ok,
        ensures
            extent == (SliceExtent { plane: channel_index, len: self@.frame_count as u64 }),
    {
        self.channel_as_slice_generic(channel_index)
    }

    /// One channel as unsigned 8-bit samples. The buffer has to be planar, with
    /// samples of that type, and with a channel of that index.
    pub fn channel_as_slice_u8(&self, channel_index: u32) -> (extent: SliceExtent)
        requires
            channel_view(self@, Some(SampleType::U8), channel_index) is Ok,
        ensures
            extent == (SliceExtent { plane: channel_index, len: self@.frame_count as u64 }),
    {
        self.channel_as_slice_generic(channel_index)
    }

    /// One channel as raw bytes, whatever the type of the samples. The
    /// buffer has to be planar, with a channel of that index.
    pub fn channel_as_slice_raw(&self, channel_index: u32) -> (extent: SliceExtent)
        requires
            channel_view(self@, None, channel_index) is Ok,
        ensures
            extent == (SliceExtent { plane: channel_index, len: self@.frame_count as u64 }),
    {
        self.channel_as_slice_generic(channel_index)
    }

    /// All channels, interleaved, as 64-bit float samples. The buffer has to be
    /// interleaved, with samples of that type.
    pub fn as_slice_f64(&self) -> (extent: SliceExtent)
        requires
            interleaved_view(self@, Some(SampleType::Dbl)) is Ok,
        ensures
            extent == (SliceExtent {
                plane: 0,
                len: (self@.channel_count * self@.frame_count) as u64,
            }),
    {
        self.as_slice_generic()
    }

    /// All channels, interleaved, as 32-bit float samples. The buffer has to be
    /// interleaved, with samples of that type.
    pub fn as_slice_f32(&self) -> (extent: SliceExtent)
        requires
            interleaved_view(self@, Some(SampleType::Flt)) is Ok,
        ensures
            extent == (SliceExtent {
                plane: 0,
                len: (self@.channel_count * self@.frame_count) as u64,
            }),
    {
        self.as_slice_generic()
    }

    /// All channels, interleaved, as signed 32-bit samples. The buffer has to be
    /// interleaved, with samples of that type.
    pub fn as_slice_i32(&self) -> (extent: SliceExtent)
        requires
            interleaved_view(self@, Some(SampleType::S32)) is Ok,
        ensures
            extent == (SliceExtent {
                plane: 0,
                len: (self@.channel_count * self@.frame_count) as u64,
            }),
    {
        self.as_slice_generic()
    }

    /// All channels, interleaved, as signed 16-bit samples. The buffer has to be
    /// interleaved, with samples of that type.
    pub fn as_slice_i16(&self) -> (extent: SliceExtent)
        requires
            interleaved_view(self@, Some(SampleType::S16)) is Ok,
        ensures
            extent == (SliceExtent {
                plane: 0,
                len: (self@.channel_count * self@.frame_count) as u64,
            }),
    {
        self.as_slice_generic()
    }

    /// All channels, interleaved, as unsigned 8-bit samples. The buffer has to be
    /// interleaved, with samples of that type.
    pub fn as_slice_u8(&self) -> (extent: SliceExtent)
        requires
            interleaved_view(self@, Some(SampleType::U8)) is Ok,
        ensures
            extent == (SliceExtent {
                plane: 0,
                len: (self@.channel_count * self@.frame_count) as u64,
            }),
    {
        self.as_slice_generic()
    }

    /// All the buffer's data as raw bytes, whatever the type of the samples.
    /// The buffer has to be interleaved.
    pub fn as_slice_raw(&self) -> (extent: SliceExtent)
        requires
            interleaved_view(self@, None) is Ok,
        ensures
            extent == (SliceExtent {
                plane: 0,
                len: (self@.channel_count * self@.frame_count) as u64,
            }),
    {
        self.as_slice_generic()
    }

    fn channel_as_slice_generic(&self, channel_index: u32) -> (extent: SliceExtent)
        requires
            SampleFormat::is_code(self@.format.sample_fmt as int),
            SampleFormat::of_code(self@.format.sample_fmt as int).planar,
            channel_index < self@.channel_count,
        ensures
            extent == (SliceExtent { plane: channel_index, len: self@.frame_count as u64 }),
    {
        SliceExtent { plane: channel_index, len: self.groove_buffer.frame_count as u64 }
    }

    fn as_slice_generic(&self) -> (extent: SliceExtent)
        requires
            SampleFormat::is_code(self@.format.sample_fmt as int),
            !SampleFormat::of_code(self@.format.sample_fmt as int).planar,
        ensures
            extent == (SliceExtent {
                plane: 0,
                len: (self@.channel_count * self@.frame_count) as u64,
            }),
    {
        let channel_count = self.groove_buffer.channel_count as u64;
        let frame_count = self.groove_buffer.frame_count as u64;
        assert(channel_count * frame_count <= 0xFFFF_FFFF * 0xFFFF_FFFF) by (nonlinear_arith)
            requires
                channel_count <= 0xFFFF_FFFF,
                frame_count <= 0xFFFF_FFFF,
        ;
        SliceExtent { plane: 0, len: channel_count * frame_count }
    }

    /// Gives the reference to the native buffer back: returns the native
    /// buffer, which the caller hands to the engine.
    pub fn release(self) -> (groove_buffer: usize)
        ensures
            groove_buffer == self@.handle,
    {
        self.groove_buffer.handle
    }
}

/// A buffer which contains encoded audio data. It holds one reference to
/// the native buffer, which `release` gives back.
pub struct EncodedBuffer {
    groove_buffer: GrooveBuffer,
}

impl View for EncodedBuffer {
    type V = GrooveBuffer;

    closed spec fn view(&self) -> GrooveBuffer {
        self.groove_buffer
    }
}

/// The playlist item that a buffer belongs to: none where the engine names
/// none.
pub open spec fn item_of(groove_buffer: GrooveBuffer) -> Option<usize> {
    if groove_buffer.item == NULL_HANDLE {
        None
    } else {
        Some(groove_buffer.item)
    }
}

impl EncodedBuffer {
    /// The buffer that the engine handed out with the given record.
    pub(crate) fn new(groove_buffer: GrooveBuffer) -> (buffer: EncodedBuffer)
        ensures
            buffer@ == groove_buffer,
    {
        EncodedBuffer { groove_buffer }
    }

    /// What the engine tells about the buffer.
    pub fn record(&self) -> (groove_buffer: GrooveBuffer)
        ensures
            groove_buffer == self@,
    {
        self.groove_buffer
    }

    /// The encoded bytes: all bytes of the buffer's one plane.
    pub fn as_vec(&self) -> (extent: SliceExtent)
        ensures
            extent == (SliceExtent { plane: 0, len: self@.size as u64 }),
    {
        SliceExtent { plane: 0, len: self.groove_buffer.size as u64 }
    }

    /// The native playlist item whose audio the buffer holds; `None` for a
    /// format header or trailer.
    pub fn item(&self) -> (item: Option<usize>)
        ensures
            item == item_of(self@),
    {
        if self.groove_buffer.item == NULL_HANDLE {
            None
        } else {
            Some(self.groove_buffer.item)
        }
    }

    /// Gives the reference to the native buffer back: returns the native
    /// buffer, which the caller hands to the engine.
    pub fn release(self) -> (groove_buffer: usize)
        ensures
            groove_buffer == self@.handle,
    {
        self.groove_buffer.handle
    }
}

/// A view of one channel is had of planar buffers only, and a view of all
/// channels as one of interleaved buffers only: whatever the sample type
/// and the channel asked for, no buffer gives both.
pub proof fn lemma_views_exclude_each_other(
    buffer: GrooveBuffer,
    wanted_channel: Option<SampleType>,
    channel_index: u32,
    wanted_interleaved: Option<SampleType>,
)
    ensures
        channel_view(buffer, wanted_channel, channel_index) is Ok ==> SampleFormat::of_code(
            buffer.format.sample_fmt as int,
        ).planar,
        interleaved_view(buffer, wanted_interleaved) is Ok ==> !SampleFormat::of_code(
            buffer.format.sample_fmt as int,
        ).planar,
        !(channel_view(buffer, wanted_channel, channel_index) is Ok && interleaved_view(
            buffer,
            wanted_interleaved,
        ) is Ok),
{
}

/// Whether samples of the format `format` can be read as `wanted`.
fn matches_type(format: &SampleFormat, wanted: &Option<SampleType>) -> (same: bool)
    ensures
        same == reads_as(*format, *wanted),
{
    match wanted {
        Some(sample_type) => format.sample_type == *sample_type,
        None => true,
    }
}

} // verus!
