//! Native stream building parameters and the data callback's bookkeeping.
use vstd::prelude::*;
use crate::config::{
    BackendSpecificError, BufferSize, BuildStreamError, SampleFormat, StreamConfig,
};
use crate::convert::{to_stream_instant, StreamInstant};
use crate::host::Device;
use crate::probe::NUM_CHANNEL_MASKS;

verus! {

/// The direction of a native stream.
#[derive(Clone, Copy, Debug, PartialEq, Eq, Structural)]
pub enum Direction {
    Input,
    Output,
}

/// The sample formats of the native layer.
#[derive(Clone, Copy, Debug, PartialEq, Eq, Structural)]
pub enum AAudioFormat {
    PcmI16,
    PcmFloat,
    Invalid,
    Unspecified,
}

/// What the native data callback tells the native layer.
#[derive(Clone, Copy, Debug, PartialEq, Eq, Structural)]
pub enum CallbackResult {
    Continue,
    Stop,
}

/// The settings to apply to a native stream builder. `None` leaves a setting
/// to the platform.
#[derive(Clone, Copy, Debug, PartialEq, Eq, Structural)]
pub struct StreamBuilderParams {
    pub direction: Direction,
    pub format: AAudioFormat,
    pub channel_count: i32,
    pub device_id: Option<i32>,
    pub sample_rate: i32,
    pub buffer_capacity_in_frames: Option<i32>,
}

pub open spec fn native_format_of(f: SampleFormat) -> Option<AAudioFormat> {
    match f {
        SampleFormat::I16 => Some(AAudioFormat::PcmI16),
        SampleFormat::F32 => Some(AAudioFormat::PcmFloat),
        SampleFormat::U16 => None,
    }
}

/// The description of the error for a format the native layer lacks.
pub open spec fn unsupported_format_text() -> Seq<char> {
    "U16 format is not supported on Android."@
}

pub open spec fn capacity_of(b: BufferSize) -> Option<i32> {
    match b {
        BufferSize::Default => None,
        BufferSize::Fixed(n) => Some(n as i32),
    }
}

/// The builder settings for a stream on `device`; the errors come, in this
/// order, for a format the native layer lacks and for a channel count outside
/// the mask table.
pub open spec fn builder_spec(
    device: Device,
    config: StreamConfig,
    sample_format: SampleFormat,
    direction: Direction,
    r: Result<StreamBuilderParams, BuildStreamError>,
) -> bool {
    match native_format_of(sample_format) {
        None => r matches Err(BuildStreamError::BackendSpecific { err }) && err.description@
            == unsupported_format_text(),
        Some(format) => if config.channels < 1 || config.channels > NUM_CHANNEL_MASKS {
            r matches Err(BuildStreamError::StreamConfigNotSupported)
        } else {
            r == Ok::<StreamBuilderParams, BuildStreamError>(
                StreamBuilderParams {
                    direction,
                    format,
                    channel_count: config.channels as i32,
                    device_id: match device.0 {
                        Some(info) => Some(info.id),
                        None => None,
                    },
                    sample_rate: config.sample_rate.0 as i32,
                    buffer_capacity_in_frames: capacity_of(config.buffer_size),
                },
            )
        },
    }
}

/// The native builder settings for a stream of `config` in `sample_format`
/// on `device`. A format the native layer lacks fails before anything else.
pub fn builder_for_device(
    device: &Device,
    config: &StreamConfig,
    sample_format: SampleFormat,
    direction: Direction,
) -> (r: Result<StreamBuilderParams, BuildStreamError>)
    requires
        native_format_of(sample_format).is_some() && 1 <= config.channels <= NUM_CHANNEL_MASKS
            ==> config.sample_rate.0 <= i32::MAX,
    ensures
        builder_spec(*device, *config, sample_format, direction, r),
{
    let format = match sample_format {
        SampleFormat::I16 => AAudioFormat::PcmI16,
        SampleFormat::F32 => AAudioFormat::PcmFloat,
        SampleFormat::U16 => {
            return Err(
                BuildStreamError::BackendSpecific {
                    err: BackendSpecificError {
                        description: "U16 format is not supported on Android.".to_owned(),
                    },
                },
            );
        },
    };
    if config.channels < 1 || config.channels > NUM_CHANNEL_MASKS as u16 {
        return Err(BuildStreamError::StreamConfigNotSupported);
    }
    let device_id = match &device.0 {
        Some(info) => Some(info.id),
        None => None,
    };
    let buffer_capacity_in_frames = match config.buffer_size {
        BufferSize::Default => None,
        BufferSize::Fixed(size) => Some(size as i32),
    };
    Ok(
        StreamBuilderParams {
            direction,
            format,
            channel_count: config.channels as i32,
            device_id,
            sample_rate: config.sample_rate.0 as i32,
            buffer_capacity_in_frames,
        },
    )
}

pub open spec fn sample_format_of_native(f: AAudioFormat) -> SampleFormat {
    match f {
        AAudioFormat::PcmI16 => SampleFormat::I16,
        _ => SampleFormat::F32,
    }
}

pub open spec fn is_concrete_format(f: AAudioFormat) -> bool {
    f == AAudioFormat::PcmI16 || f == AAudioFormat::PcmFloat
}

/// The sample format of a stream whose native format is settled.
pub fn to_sample_format(format: AAudioFormat) -> (r: SampleFormat)
    requires
        is_concrete_format(format),
    ensures
        r == sample_format_of_native(format),
{
    match format {
        AAudioFormat::PcmI16 => SampleFormat::I16,
        _ => SampleFormat::F32,
    }
}

/// How the data callback views a buffer of `byte_len` bytes whose native
/// format is `format`: the sample format and the number of samples.
pub fn callback_buffer_layout(format: AAudioFormat, byte_len: usize) -> (r: (SampleFormat, usize))
    requires
        is_concrete_format(format),
    ensures
        r.0 == sample_format_of_native(format),
        r.1 == byte_len / r.0.sample_size_spec(),
{
    let sample_format = to_sample_format(format);
    (sample_format, byte_len / sample_format.sample_size())
}

pub open spec fn clamp_count(n: i32) -> int {
    if n < 0 {
        0
    } else {
        n as int
    }
}

/// The byte length of a native buffer of `num_frames` frames of
/// `channel_count` samples in `format` (a negative count reads as 0); `None`
/// when it does not fit in memory.
pub fn callback_byte_len(format: AAudioFormat, num_frames: i32, channel_count: i32) -> (r: Option<usize>)
    requires
        is_concrete_format(format),
    ensures
        r matches Some(n) ==> n == clamp_count(num_frames) * clamp_count(channel_count)
            * sample_format_of_native(format).sample_size_spec(),
        r is None ==> clamp_count(num_frames) * clamp_count(channel_count)
            * sample_format_of_native(format).sample_size_spec() > usize::MAX,
{
    let frames: usize = if num_frames < 0 {
        0
    } else {
        num_frames as usize
    };
    let channels: usize = if channel_count < 0 {
        0
    } else {
        channel_count as usize
    };
    let size = to_sample_format(format).sample_size();
    match frames.checked_mul(channels) {
        Some(samples) => samples.checked_mul(size),
        None => {
            assert(frames * channels * size > usize::MAX) by (nonlinear_arith)
                requires
                    frames * channels > usize::MAX,
                    size >= 2,
            ;
            None
        },
    }
}

/// The data callback never asks the native layer to stop the stream.
pub fn data_callback_result() -> (r: CallbackResult)
    ensures
        r == CallbackResult::Continue,
{
    CallbackResult::Continue
}

/// A native hardware timestamp: a frame position and the monotonic time in
/// nanoseconds at which it was reached.
#[derive(Clone, Copy, Debug, PartialEq, Eq, Structural)]
pub struct Timestamp {
    pub frame_position: i64,
    pub time_nanos: i64,
}

#[derive(Clone, Copy, Debug, PartialEq, Eq, Structural)]
pub struct InputStreamTimestamp {
    pub callback: StreamInstant,
    pub capture: StreamInstant,
}

#[derive(Clone, Copy, Debug, PartialEq, Eq, Structural)]
pub struct OutputStreamTimestamp {
    pub callback: StreamInstant,
    pub playback: StreamInstant,
}

#[derive(Clone, Copy, Debug, PartialEq, Eq, Structural)]
pub struct InputCallbackInfo {
    pub timestamp: InputStreamTimestamp,
}

#[derive(Clone, Copy, Debug, PartialEq, Eq, Structural)]
pub struct OutputCallbackInfo {
    pub timestamp: OutputStreamTimestamp,
}

pub const NANOS_PER_SEC: u64 = 1_000_000_000;

/// The instant of a native timestamp's time, read as unsigned nanoseconds;
/// the zero instant when the native layer gave no timestamp.
pub open spec fn hardware_instant(timestamp: Option<Timestamp>) -> StreamInstant {
    let n: u64 = match timestamp {
        Some(t) => t.time_nanos as u64,
        None => 0,
    };
    StreamInstant { secs: (n / NANOS_PER_SEC) as i64, nanos: (n % NANOS_PER_SEC) as u32 }
}

pub open spec fn elapsed_instant(secs: u64, subsec_nanos: u32) -> StreamInstant {
    StreamInstant { secs: secs as i64, nanos: subsec_nanos }
}

fn hardware_instant_of(timestamp: Option<Timestamp>) -> (r: StreamInstant)
    ensures
        r == hardware_instant(timestamp),
{
    let n: u64 = match timestamp {
        Some(t) => t.time_nanos as u64,
        None => 0,
    };
    to_stream_instant(n / NANOS_PER_SEC, (n % NANOS_PER_SEC) as u32)
}

/// The timing record of an input callback: the callback instant is the time
/// elapsed since the stream was built, the capture instant that of the native
/// timestamp (zero when the native layer could not give one).
pub fn get_input_callback_info(
    timestamp: Option<Timestamp>,
    elapsed_secs: u64,
    elapsed_subsec_nanos: u32,
) -> (r: InputCallbackInfo)
    requires
        elapsed_secs <= i64::MAX,
    ensures
        r.timestamp.callback == elapsed_instant(elapsed_secs, elapsed_subsec_nanos),
        r.timestamp.capture == hardware_instant(timestamp),
{
    InputCallbackInfo {
        timestamp: InputStreamTimestamp {
            callback: to_stream_instant(elapsed_secs, elapsed_subsec_nanos),
            capture: hardware_instant_of(timestamp),
        },
    }
}

/// The timing record of an output callback, as for input with the playback
/// instant in place of the capture instant.
pub fn get_output_callback_info(
    timestamp: Option<Timestamp>,
    elapsed_secs: u64,
    elapsed_subsec_nanos: u32,
) -> (r: OutputCallbackInfo)
    requires
        elapsed_secs <= i64::MAX,
    ensures
        r.timestamp.callback == elapsed_instant(elapsed_secs, elapsed_subsec_nanos),
        r.timestamp.playback == hardware_instant(timestamp),
{
    OutputCallbackInfo {
        timestamp: OutputStreamTimestamp {
            callback: to_stream_instant(elapsed_secs, elapsed_subsec_nanos),
            playback: hardware_instant_of(timestamp),
        },
    }
}

} // verus!
