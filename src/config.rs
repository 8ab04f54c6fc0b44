//! The generic stream configuration types and their error taxonomy.
use vstd::prelude::*;

verus! {

pub type ChannelCount = u16;

/// The largest value a signed 32-bit platform integer can take, as a frame or
/// rate bound.
pub const PLATFORM_INT_MAX: u32 = 0x7fff_ffff;

#[derive(Clone, Copy, Debug, PartialEq, Eq, Structural)]
pub enum SampleFormat {
    I16,
    U16,
    F32,
}

impl SampleFormat {
    pub open spec fn sample_size_spec(self) -> usize {
        match self {
            SampleFormat::I16 => 2,
            SampleFormat::U16 => 2,
            SampleFormat::F32 => 4,
        }
    }

    /// Size in bytes of one sample of this format.
    pub fn sample_size(&self) -> (r: usize)
        ensures
            r == self.sample_size_spec(),
    {
        match self {
            SampleFormat::I16 => 2,
            SampleFormat::U16 => 2,
            SampleFormat::F32 => 4,
        }
    }
}

#[derive(Clone, Copy, Debug, PartialEq, Eq, Structural)]
pub struct SampleRate(pub u32);

#[derive(Clone, Copy, Debug, PartialEq, Eq, Structural)]
pub enum SupportedBufferSize {
    Range { min: u32, max: u32 },
    Unknown,
}

#[derive(Clone, Copy, Debug, PartialEq, Eq, Structural)]
pub enum BufferSize {
    Default,
    Fixed(u32),
}

#[derive(Clone, Copy, Debug, PartialEq, Eq, Structural)]
pub struct StreamConfig {
    pub channels: ChannelCount,
    pub sample_rate: SampleRate,
    pub buffer_size: BufferSize,
}

#[derive(Clone, Copy, Debug, PartialEq, Eq, Structural)]
pub struct SupportedStreamConfig {
    pub channels: ChannelCount,
    pub sample_rate: SampleRate,
    pub buffer_size: SupportedBufferSize,
    pub sample_format: SampleFormat,
}

#[derive(Clone, Copy, Debug, PartialEq, Eq, Structural)]
pub struct SupportedStreamConfigRange {
    pub channels: ChannelCount,
    pub min_sample_rate: SampleRate,
    pub max_sample_rate: SampleRate,
    pub buffer_size: SupportedBufferSize,
    pub sample_format: SampleFormat,
}

/// Lexicographic comparison of two booleans, `false` before `true`.
pub open spec fn cmp_bool(a: bool, b: bool) -> std::cmp::Ordering {
    if a == b {
        std::cmp::Ordering::Equal
    } else if b {
        std::cmp::Ordering::Less
    } else {
        std::cmp::Ordering::Greater
    }
}

pub open spec fn cmp_int(a: int, b: int) -> std::cmp::Ordering {
    if a == b {
        std::cmp::Ordering::Equal
    } else if a < b {
        std::cmp::Ordering::Less
    } else {
        std::cmp::Ordering::Greater
    }
}

/// The sample rate that the default heuristics favour.
pub const NOMINAL_SAMPLE_RATE: u32 = 44_100;

impl SupportedStreamConfigRange {
    pub open spec fn covers_nominal_rate(self) -> bool {
        self.min_sample_rate.0 <= NOMINAL_SAMPLE_RATE && NOMINAL_SAMPLE_RATE
            <= self.max_sample_rate.0
    }

    /// The default-selection order: stereo first, then mono, then more
    /// channels; then `F32`, `I16`, `U16`; then ranges that cover the nominal
    /// rate; then the higher maximum rate.
    pub open spec fn heuristic_cmp(self, other: Self) -> std::cmp::Ordering {
        let stereo = cmp_bool(self.channels == 2, other.channels == 2);
        let mono = cmp_bool(self.channels == 1, other.channels == 1);
        let chans = cmp_int(self.channels as int, other.channels as int);
        let float = cmp_bool(self.sample_format == SampleFormat::F32, other.sample_format == SampleFormat::F32);
        let int16 = cmp_bool(self.sample_format == SampleFormat::I16, other.sample_format == SampleFormat::I16);
        let uint16 = cmp_bool(self.sample_format == SampleFormat::U16, other.sample_format == SampleFormat::U16);
        let nominal = cmp_bool(self.covers_nominal_rate(), other.covers_nominal_rate());
        let rate = cmp_int(self.max_sample_rate.0 as int, other.max_sample_rate.0 as int);
        if stereo != std::cmp::Ordering::Equal {
            stereo
        } else if mono != std::cmp::Ordering::Equal {
            mono
        } else if chans != std::cmp::Ordering::Equal {
            chans
        } else if float != std::cmp::Ordering::Equal {
            float
        } else if int16 != std::cmp::Ordering::Equal {
            int16
        } else if uint16 != std::cmp::Ordering::Equal {
            uint16
        } else if nominal != std::cmp::Ordering::Equal {
            nominal
        } else {
            rate
        }
    }

    pub open spec fn with_max_sample_rate_spec(self) -> SupportedStreamConfig {
        SupportedStreamConfig {
            channels: self.channels,
            sample_rate: self.max_sample_rate,
            buffer_size: self.buffer_size,
            sample_format: self.sample_format,
        }
    }

    /// Resolves the range to a concrete configuration at its maximum rate.
    pub fn with_max_sample_rate(&self) -> (r: SupportedStreamConfig)
        ensures
            r == self.with_max_sample_rate_spec(),
    {
        SupportedStreamConfig {
            channels: self.channels,
            sample_rate: self.max_sample_rate,
            buffer_size: self.buffer_size,
            sample_format: self.sample_format,
        }
    }

    /// Compares two ranges by the default-selection order.
    pub fn cmp_default_heuristics(&self, other: &Self) -> (r: std::cmp::Ordering)
        ensures
            r == self.heuristic_cmp(*other),
    {
        let stereo = cmp_flags(self.channels == 2, other.channels == 2);
        if !is_equal(stereo) {
            return stereo;
        }
        let mono = cmp_flags(self.channels == 1, other.channels == 1);
        if !is_equal(mono) {
            return mono;
        }
        let chans = cmp_u32(self.channels as u32, other.channels as u32);
        if !is_equal(chans) {
            return chans;
        }
        let float = cmp_flags(self.sample_format == SampleFormat::F32, other.sample_format == SampleFormat::F32);
        if !is_equal(float) {
            return float;
        }
        let int16 = cmp_flags(self.sample_format == SampleFormat::I16, other.sample_format == SampleFormat::I16);
        if !is_equal(int16) {
            return int16;
        }
        let uint16 = cmp_flags(self.sample_format == SampleFormat::U16, other.sample_format == SampleFormat::U16);
        if !is_equal(uint16) {
            return uint16;
        }
        let self_nominal = self.min_sample_rate.0 <= NOMINAL_SAMPLE_RATE && NOMINAL_SAMPLE_RATE
            <= self.max_sample_rate.0;
        let other_nominal = other.min_sample_rate.0 <= NOMINAL_SAMPLE_RATE && NOMINAL_SAMPLE_RATE
            <= other.max_sample_rate.0;
        let nominal = cmp_flags(self_nominal, other_nominal);
        if !is_equal(nominal) {
            return nominal;
        }
        cmp_u32(self.max_sample_rate.0, other.max_sample_rate.0)
    }
}

fn is_equal(o: std::cmp::Ordering) -> (r: bool)
    ensures
        r == (o == std::cmp::Ordering::Equal),
{
    match o {
        std::cmp::Ordering::Equal => true,
        _ => false,
    }
}

fn cmp_flags(a: bool, b: bool) -> (r: std::cmp::Ordering)
    ensures
        r == cmp_bool(a, b),
{
    if a == b {
        std::cmp::Ordering::Equal
    } else if b {
        std::cmp::Ordering::Less
    } else {
        std::cmp::Ordering::Greater
    }
}

fn cmp_u32(a: u32, b: u32) -> (r: std::cmp::Ordering)
    ensures
        r == cmp_int(a as int, b as int),
{
    if a == b {
        std::cmp::Ordering::Equal
    } else if a < b {
        std::cmp::Ordering::Less
    } else {
        std::cmp::Ordering::Greater
    }
}

/// A failure of the native layer that it describes only in text.
#[derive(Clone, Debug, PartialEq, Eq)]
pub struct BackendSpecificError {
    pub description: String,
}

#[derive(Clone, Debug, PartialEq, Eq)]
pub enum StreamError {
    DeviceNotAvailable,
    BackendSpecific { err: BackendSpecificError },
}

#[derive(Clone, Debug, PartialEq, Eq)]
pub enum PlayStreamError {
    DeviceNotAvailable,
    BackendSpecific { err: BackendSpecificError },
}

#[derive(Clone, Debug, PartialEq, Eq)]
pub enum PauseStreamError {
    DeviceNotAvailable,
    BackendSpecific { err: BackendSpecificError },
}

#[derive(Clone, Debug, PartialEq, Eq)]
pub enum BuildStreamError {
    DeviceNotAvailable,
    StreamConfigNotSupported,
    InvalidArgument,
    StreamIdOverflow,
    BackendSpecific { err: BackendSpecificError },
}

#[derive(Clone, Debug, PartialEq, Eq)]
pub enum DefaultStreamConfigError {
    DeviceNotAvailable,
    StreamTypeNotSupported,
    BackendSpecific { err: BackendSpecificError },
}

#[derive(Clone, Copy, Debug, PartialEq, Eq, Structural)]
pub struct HostUnavailable;

} // verus!
