//! Sample formats, channel layouts and the audio format built from them,
//! each with the number that the native engine knows it by.

use vstd::prelude::*;

verus! {

/// The engine's number for "no sample format".
pub const SAMPLE_FMT_NONE: i32 = -1;

pub const SAMPLE_FMT_U8: i32 = 0;

pub const SAMPLE_FMT_S16: i32 = 1;

pub const SAMPLE_FMT_S32: i32 = 2;

pub const SAMPLE_FMT_FLT: i32 = 3;

pub const SAMPLE_FMT_DBL: i32 = 4;

pub const SAMPLE_FMT_U8P: i32 = 5;

pub const SAMPLE_FMT_S16P: i32 = 6;

pub const SAMPLE_FMT_S32P: i32 = 7;

pub const SAMPLE_FMT_FLTP: i32 = 8;

pub const SAMPLE_FMT_DBLP: i32 = 9;

pub const CH_FRONT_LEFT: u64 = 0x1;

pub const CH_FRONT_RIGHT: u64 = 0x2;

pub const CH_FRONT_CENTER: u64 = 0x4;

pub const CH_LAYOUT_MONO: u64 = 0x4;

pub const CH_LAYOUT_STEREO: u64 = 0x3;

/// The numeric type of one sample.
#[derive(Clone, Copy, Debug, PartialEq, Eq, Structural)]
pub enum SampleType {
    NoType,
    /// unsigned 8 bits
    U8,
    /// signed 16 bits
    S16,
    /// signed 32 bits
    S32,
    /// float (32 bits)
    Flt,
    /// double (64 bits)
    Dbl,
}

impl SampleType {
    /// The place of the type among the engine's sample formats, counted
    /// from `U8`; `NoType` has none and gets -1.
    pub open spec fn rank(self) -> int {
        match self {
            SampleType::NoType => -1,
            SampleType::U8 => 0,
            SampleType::S16 => 1,
            SampleType::S32 => 2,
            SampleType::Flt => 3,
            SampleType::Dbl => 4,
        }
    }

    /// The type with the given rank.
    pub open spec fn of_rank(rank: int) -> SampleType {
        if rank == 0 {
            SampleType::U8
        } else if rank == 1 {
            SampleType::S16
        } else if rank == 2 {
            SampleType::S32
        } else if rank == 3 {
            SampleType::Flt
        } else if rank == 4 {
            SampleType::Dbl
        } else {
            SampleType::NoType
        }
    }
}

/// How the bits that represent audio samples are organised.
#[derive(Clone, Copy, Debug, PartialEq, Eq, Structural)]
pub struct SampleFormat {
    pub sample_type: SampleType,
    /// planar means non-interleaved
    pub planar: bool,
}

impl SampleFormat {
    /// The engine's number for the format: the interleaved formats come
    /// first, in the order of their types, then the planar ones in the same
    /// order. Without a sample type there is one number only.
    pub open spec fn code(self) -> int {
        if self.sample_type == SampleType::NoType {
            -1
        } else if self.planar {
            self.sample_type.rank() + 5
        } else {
            self.sample_type.rank()
        }
    }

    /// Whether the engine knows a sample format by `code`.
    pub open spec fn is_code(code: int) -> bool {
        -1 <= code <= 9
    }

    /// The format that the engine knows by `code`.
    pub open spec fn of_code(code: int) -> SampleFormat {
        if 5 <= code {
            SampleFormat { sample_type: SampleType::of_rank(code - 5), planar: true }
        } else {
            SampleFormat { sample_type: SampleType::of_rank(code), planar: false }
        }
    }

    /// Whether `from_groove` accepts `code`.
    pub fn is_groove_code(code: i32) -> (known: bool)
        ensures
            known == Self::is_code(code as int),
    {
        SAMPLE_FMT_NONE <= code && code <= SAMPLE_FMT_DBLP
    }

    pub fn to_groove(&self) -> (code: i32)
        ensures
            code == self.code(),
            Self::is_code(code as int),
    {
        match (self.sample_type, self.planar) {
            (SampleType::NoType, false) => SAMPLE_FMT_NONE,
            (SampleType::U8, false) => SAMPLE_FMT_U8,
            (SampleType::S16, false) => SAMPLE_FMT_S16,
            (SampleType::S32, false) => SAMPLE_FMT_S32,
            (SampleType::Flt, false) => SAMPLE_FMT_FLT,
            (SampleType::Dbl, false) => SAMPLE_FMT_DBL,
            (SampleType::NoType, true) => SAMPLE_FMT_NONE,
            (SampleType::U8, true) => SAMPLE_FMT_U8P,
            (SampleType::S16, true) => SAMPLE_FMT_S16P,
            (SampleType::S32, true) => SAMPLE_FMT_S32P,
            (SampleType::Flt, true) => SAMPLE_FMT_FLTP,
            (SampleType::Dbl, true) => SAMPLE_FMT_DBLP,
        }
    }

    pub fn from_groove(groove_sample_format: i32) -> (format: SampleFormat)
        requires
            Self::is_code(groove_sample_format as int),
        ensures
            format == Self::of_code(groove_sample_format as int),
            format.code() == groove_sample_format,
    {
        if groove_sample_format == SAMPLE_FMT_NONE {
            SampleFormat { sample_type: SampleType::NoType, planar: false }
        } else if groove_sample_format == SAMPLE_FMT_U8 {
            SampleFormat { sample_type: SampleType::U8, planar: false }
        } else if groove_sample_format == SAMPLE_FMT_S16 {
            SampleFormat { sample_type: SampleType::S16, planar: false }
        } else if groove_sample_format == SAMPLE_FMT_S32 {
            SampleFormat { sample_type: SampleType::S32, planar: false }
        } else if groove_sample_format == SAMPLE_FMT_FLT {
            SampleFormat { sample_type: SampleType::Flt, planar: false }
        } else if groove_sample_format == SAMPLE_FMT_DBL {
            SampleFormat { sample_type: SampleType::Dbl, planar: false }
        } else if groove_sample_format == SAMPLE_FMT_U8P {
            SampleFormat { sample_type: SampleType::U8, planar: true }
        } else if groove_sample_format == SAMPLE_FMT_S16P {
            SampleFormat { sample_type: SampleType::S16, planar: true }
        } else if groove_sample_format == SAMPLE_FMT_S32P {
            SampleFormat { sample_type: SampleType::S32, planar: true }
        } else if groove_sample_format == SAMPLE_FMT_FLTP {
            SampleFormat { sample_type: SampleType::Flt, planar: true }
        } else {
            SampleFormat { sample_type: SampleType::Dbl, planar: true }
        }
    }
}

/// Every number of the engine comes back from the format it stands for.
pub proof fn lemma_sample_format_code_round_trip(code: int)
    requires
        SampleFormat::is_code(code),
    ensures
        SampleFormat::of_code(code).code() == code,
{
}

/// A format comes back from its number, but for a planar format without a
/// sample type, which shares its number with the interleaved one.
pub proof fn lemma_sample_format_round_trip(format: SampleFormat)
    ensures
        SampleFormat::is_code(format.code()),
        format.sample_type != SampleType::NoType ==> SampleFormat::of_code(format.code()) == format,
        format.sample_type == SampleType::NoType ==> SampleFormat::of_code(format.code()) == (
        SampleFormat { sample_type: SampleType::NoType, planar: false }),
{
}

/// The speakers that a stream has a channel for.
#[derive(Clone, Copy, Debug, PartialEq, Eq, Structural)]
pub enum ChannelLayout {
    FrontLeft,
    FrontRight,
    FrontCenter,
    LayoutMono,
    LayoutStereo,
}

impl ChannelLayout {
    /// The engine's mask for the layout, one bit for each speaker. A mono
    /// layout is the front centre speaker alone.
    pub open spec fn mask(self) -> u64 {
        match self {
            ChannelLayout::FrontLeft => 0x1,
            ChannelLayout::FrontRight => 0x2,
            ChannelLayout::FrontCenter => 0x4,
            ChannelLayout::LayoutMono => 0x4,
            ChannelLayout::LayoutStereo => 0x3,
        }
    }

    /// Whether `mask` is the mask of a layout.
    pub open spec fn is_mask(mask: u64) -> bool {
        1 <= mask <= 4
    }

    /// The layout with the given mask; for the one mask that two layouts
    /// share, the front centre speaker.
    pub open spec fn of_mask(mask: u64) -> ChannelLayout {
        if mask == 0x1 {
            ChannelLayout::FrontLeft
        } else if mask == 0x2 {
            ChannelLayout::FrontRight
        } else if mask == 0x3 {
            ChannelLayout::LayoutStereo
        } else {
            ChannelLayout::FrontCenter
        }
    }

    /// Whether `from_groove` accepts `mask`.
    pub fn is_groove_mask(mask: u64) -> (known: bool)
        ensures
            known == Self::is_mask(mask),
    {
        1 <= mask && mask <= 4
    }

    pub fn to_groove(&self) -> (mask: u64)
        ensures
            mask == self.mask(),
            Self::is_mask(mask),
    {
        match *self {
            ChannelLayout::FrontLeft => CH_FRONT_LEFT,
            ChannelLayout::FrontRight => CH_FRONT_RIGHT,
            ChannelLayout::FrontCenter => CH_FRONT_CENTER,
            ChannelLayout::LayoutMono => CH_LAYOUT_MONO,
            ChannelLayout::LayoutStereo => CH_LAYOUT_STEREO,
        }
    }

    pub fn from_groove(x: u64) -> (layout: ChannelLayout)
        requires
            Self::is_mask(x),
        ensures
            layout == Self::of_mask(x),
            layout.mask() == x,
    {
        if x == CH_FRONT_LEFT {
            ChannelLayout::FrontLeft
        } else if x == CH_FRONT_RIGHT {
            ChannelLayout::FrontRight
        } else if x == CH_FRONT_CENTER {
            ChannelLayout::FrontCenter
        } else {
            ChannelLayout::LayoutStereo
        }
    }
}

/// An audio format as the engine holds it: three numbers.
#[derive(Clone, Copy, Debug, PartialEq, Eq, Structural)]
pub struct GrooveAudioFormat {
    pub sample_rate: i32,
    pub channel_layout: u64,
    pub sample_fmt: i32,
}

impl GrooveAudioFormat {
    /// Whether the layout and the sample format are ones that this library
    /// has a name for.
    pub open spec fn is_known(self) -> bool {
        ChannelLayout::is_mask(self.channel_layout) && SampleFormat::is_code(self.sample_fmt as int)
    }
}

#[derive(Clone, Copy, Debug, PartialEq, Eq, Structural)]
pub struct AudioFormat {
    pub sample_rate: i32,
    pub channel_layout: ChannelLayout,
    pub sample_fmt: SampleFormat,
}

impl AudioFormat {
    /// Whether `from_groove` accepts `groove_audio_format`.
    pub fn is_groove_format(groove_audio_format: &GrooveAudioFormat) -> (known: bool)
        ensures
            known == groove_audio_format.is_known(),
    {
        ChannelLayout::is_groove_mask(groove_audio_format.channel_layout)
            && SampleFormat::is_groove_code(groove_audio_format.sample_fmt)
    }

    pub fn from_groove(groove_audio_format: &GrooveAudioFormat) -> (format: Self)
        requires
            groove_audio_format.is_known(),
        ensures
            format.sample_rate == groove_audio_format.sample_rate,
            format.channel_layout == ChannelLayout::of_mask(groove_audio_format.channel_layout),
            format.sample_fmt == SampleFormat::of_code(groove_audio_format.sample_fmt as int),
    {
        AudioFormat {
            sample_rate: groove_audio_format.sample_rate,
            channel_layout: ChannelLayout::from_groove(groove_audio_format.channel_layout),
            sample_fmt: SampleFormat::from_groove(groove_audio_format.sample_fmt),
        }
    }

    pub fn to_groove(&self) -> (groove_audio_format: GrooveAudioFormat)
        ensures
            groove_audio_format.sample_rate == self.sample_rate,
            groove_audio_format.channel_layout == self.channel_layout.mask(),
            groove_audio_format.sample_fmt == self.sample_fmt.code(),
            groove_audio_format.is_known(),
    {
        GrooveAudioFormat {
            sample_rate: self.sample_rate,
            channel_layout: self.channel_layout.to_groove(),
            sample_fmt: self.sample_fmt.to_groove(),
        }
    }
}

/// When a playlist decodes, by how full its sinks are.
#[derive(Clone, Copy, Debug, PartialEq, Eq, Structural)]
pub enum FillMode {
    /// This is the default behavior. The playlist will decode audio if any sinks
    /// are not full. If any sinks do not drain fast enough the data will buffer up
    /// in the playlist.
    EverySinkFull,
    /// With this behavior, the playlist will stop decoding audio when any attached
    /// sink is full, and then resume decoding audio every sink is not full.
    AnySinkFull,
}

pub const EVERY_SINK_FULL: i32 = 0;

pub const ANY_SINK_FULL: i32 = 1;

#[derive(Clone, Copy, Debug, PartialEq, Eq, Structural)]
pub enum Log {
    Quiet,
    Error,
    Warning,
    Info,
}

impl Log {
    /// The engine's number for the level.
    pub open spec fn level(self) -> int {
        match self {
            Log::Quiet => -8,
            Log::Error => 16,
            Log::Warning => 24,
            Log::Info => 32,
        }
    }
}

/// The number by which the engine is told to log at `level`.
pub fn set_logging(level: Log) -> (c_level: i32)
    ensures
        c_level == level.level(),
{
    match level {
        Log::Quiet => -8,
        Log::Error => 16,
        Log::Warning => 24,
        Log::Info => 32,
    }
}

} // verus!
