//! Capability probing: which (rate, channels, format) combinations a device
//! supports, judged by the platform's minimum buffer size for each.
//!
//! Probing runs in two steps around the platform: the probe plan lists the
//! buffer-size queries to make, and the assembly turns the platform's answers
//! (one per query, in order) into configuration ranges.
use vstd::prelude::*;
use vstd::arithmetic::div_mod::lemma_fundamental_div_mod_converse;
use crate::audio_manager::{AudioDeviceInfo, AudioFormat, ENCODING_PCM_16BIT, ENCODING_PCM_FLOAT};
use crate::config::{
    SampleFormat, SampleRate, SupportedBufferSize, SupportedStreamConfigRange, PLATFORM_INT_MAX,
};

verus! {

/// Number of entries of the channel-mask table (channel counts 1 to 8).
pub const NUM_CHANNEL_MASKS: usize = 8;

/// Number of standard sample rates tried when a device reports none.
pub const NUM_STANDARD_SAMPLE_RATES: usize = 13;

/// Number of sample formats tried when a device reports none.
pub const NUM_DEFAULT_FORMATS: usize = 2;

/// Number of queries of the fallback grid.
pub const DEFAULT_GRID_LEN: usize = 208;

/// The platform's channel mask for `count` channels.
pub open spec fn channel_mask_spec(count: int) -> i32 {
    if count == 1 {
        4
    } else if count == 2 {
        12
    } else if count == 3 {
        28
    } else if count == 4 {
        204
    } else if count == 5 {
        220
    } else if count == 6 {
        252
    } else if count == 7 {
        1276
    } else {
        6396
    }
}

/// Looks up the channel-mask table.
pub fn channel_mask(count: usize) -> (r: i32)
    requires
        1 <= count <= NUM_CHANNEL_MASKS,
    ensures
        r == channel_mask_spec(count as int),
{
    match count {
        1 => 4,
        2 => 12,
        3 => 28,
        4 => 204,
        5 => 220,
        6 => 252,
        7 => 1276,
        _ => 6396,
    }
}

/// The `i`-th standard sample rate, ascending from 5512 Hz to 192000 Hz.
pub open spec fn standard_sample_rate_spec(i: int) -> i32 {
    if i == 0 {
        5512
    } else if i == 1 {
        8000
    } else if i == 2 {
        11025
    } else if i == 3 {
        16000
    } else if i == 4 {
        22050
    } else if i == 5 {
        32000
    } else if i == 6 {
        44100
    } else if i == 7 {
        48000
    } else if i == 8 {
        64000
    } else if i == 9 {
        88200
    } else if i == 10 {
        96000
    } else if i == 11 {
        176400
    } else {
        192000
    }
}

pub fn standard_sample_rate(i: usize) -> (r: i32)
    requires
        i < NUM_STANDARD_SAMPLE_RATES,
    ensures
        r == standard_sample_rate_spec(i as int),
{
    match i {
        0 => 5512,
        1 => 8000,
        2 => 11025,
        3 => 16000,
        4 => 22050,
        5 => 32000,
        6 => 44100,
        7 => 48000,
        8 => 64000,
        9 => 88200,
        10 => 96000,
        11 => 176400,
        _ => 192000,
    }
}

/// One call of the platform's minimum-buffer-size function.
#[derive(Clone, Copy, Debug, PartialEq, Eq, Structural)]
pub struct BufferSizeQuery {
    pub is_output: bool,
    pub sample_rate: i32,
    pub channel_mask: i32,
    pub android_format: i32,
}

pub open spec fn buffer_size_range_spec(min_buffer_size: i32) -> SupportedBufferSize {
    if min_buffer_size > 0 {
        SupportedBufferSize::Range { min: min_buffer_size as u32, max: PLATFORM_INT_MAX }
    } else {
        SupportedBufferSize::Unknown
    }
}

/// The buffer-size range that a minimum buffer size reported by the platform
/// stands for: from that size to the platform's integer maximum when it is
/// positive, unknown otherwise.
pub fn buffer_size_range_for_params(min_buffer_size: i32) -> (r: SupportedBufferSize)
    ensures
        r == buffer_size_range_spec(min_buffer_size),
{
    if min_buffer_size > 0 {
        SupportedBufferSize::Range { min: min_buffer_size as u32, max: PLATFORM_INT_MAX }
    } else {
        SupportedBufferSize::Unknown
    }
}

// ---------------------------------------------------------------------------
// The fallback grid: every standard rate, channel counts 1 to 8 and both
// formats, for a device that reports nothing. Position `k` of the grid is
// format `k / 104`, channel count `(k % 104) / 13 + 1` and rate `k % 13`.

pub open spec fn grid_format(k: int) -> SampleFormat {
    if k / 104 == 0 {
        SampleFormat::I16
    } else {
        SampleFormat::F32
    }
}

pub open spec fn grid_encoding(k: int) -> i32 {
    if k / 104 == 0 {
        ENCODING_PCM_16BIT
    } else {
        ENCODING_PCM_FLOAT
    }
}

pub open spec fn grid_channels(k: int) -> int {
    (k % 104) / 13 + 1
}

pub open spec fn grid_rate(k: int) -> i32 {
    standard_sample_rate_spec(k % 13)
}

pub open spec fn default_query(is_output: bool, k: int) -> BufferSizeQuery {
    BufferSizeQuery {
        is_output,
        sample_rate: grid_rate(k),
        channel_mask: channel_mask_spec(grid_channels(k)),
        android_format: grid_encoding(k),
    }
}

pub open spec fn default_range(k: int, min_buffer_size: i32) -> SupportedStreamConfigRange {
    SupportedStreamConfigRange {
        channels: grid_channels(k) as u16,
        min_sample_rate: SampleRate(grid_rate(k) as u32),
        max_sample_rate: SampleRate(grid_rate(k) as u32),
        buffer_size: buffer_size_range_spec(min_buffer_size),
        sample_format: grid_format(k),
    }
}

/// The ranges of the first `n` grid positions whose reported minimum buffer
/// size is positive, in grid order.
pub open spec fn default_configs_upto(min_sizes: Seq<i32>, n: nat) -> Seq<SupportedStreamConfigRange>
    decreases n,
{
    if n == 0 {
        Seq::empty()
    } else {
        let prev = default_configs_upto(min_sizes, (n - 1) as nat);
        if min_sizes[n - 1] > 0 {
            prev.push(default_range(n - 1, min_sizes[n - 1]))
        } else {
            prev
        }
    }
}

pub open spec fn default_configs_spec(min_sizes: Seq<i32>) -> Seq<SupportedStreamConfigRange> {
    default_configs_upto(min_sizes, DEFAULT_GRID_LEN as nat)
}

/// The queries of the fallback grid, in grid order.
pub fn default_probe_queries(is_output: bool) -> (r: Vec<BufferSizeQuery>)
    ensures
        r@.len() == DEFAULT_GRID_LEN,
        forall|k: int| 0 <= k < DEFAULT_GRID_LEN ==> r@[k] == default_query(is_output, k),
{
    let mut out: Vec<BufferSizeQuery> = Vec::new();
    let mut k: usize = 0;
    while k < DEFAULT_GRID_LEN
        invariant
            k <= DEFAULT_GRID_LEN,
            out@.len() == k,
            forall|j: int| 0 <= j < k ==> out@[j] == default_query(is_output, j),
        decreases DEFAULT_GRID_LEN - k,
    {
        let format = if k / 104 == 0 {
            ENCODING_PCM_16BIT
        } else {
            ENCODING_PCM_FLOAT
        };
        let mask = channel_mask((k % 104) / 13 + 1);
        let rate = standard_sample_rate(k % 13);
        out.push(
            BufferSizeQuery { is_output, sample_rate: rate, channel_mask: mask, android_format: format },
        );
        k = k + 1;
    }
    out
}

/// The supported ranges of a device that reports no capabilities, from the
/// platform's answers to the fallback grid's queries (`min_buffer_sizes[k]`
/// answers query `k`). A position whose answer is not positive is left out.
pub fn default_supported_configs(min_buffer_sizes: &Vec<i32>) -> (r: Vec<SupportedStreamConfigRange>)
    requires
        min_buffer_sizes@.len() == DEFAULT_GRID_LEN,
    ensures
        r@ == default_configs_spec(min_buffer_sizes@),
{
    let mut out: Vec<SupportedStreamConfigRange> = Vec::new();
    let mut k: usize = 0;
    while k < DEFAULT_GRID_LEN
        invariant
            k <= DEFAULT_GRID_LEN,
            min_buffer_sizes@.len() == DEFAULT_GRID_LEN,
            out@ == default_configs_upto(min_buffer_sizes@, k as nat),
        decreases DEFAULT_GRID_LEN - k,
    {
        let min_size = min_buffer_sizes[k];
        let buffer_size = buffer_size_range_for_params(min_size);
        if let SupportedBufferSize::Range { min, max } = buffer_size {
            let sample_format = if k / 104 == 0 {
                SampleFormat::I16
            } else {
                SampleFormat::F32
            };
            let channels = ((k % 104) / 13 + 1) as u16;
            let rate = standard_sample_rate(k % 13) as u32;
            out.push(
                SupportedStreamConfigRange {
                    channels,
                    min_sample_rate: SampleRate(rate),
                    max_sample_rate: SampleRate(rate),
                    buffer_size: SupportedBufferSize::Range { min, max },
                    sample_format,
                },
            );
        }
        k = k + 1;
    }
    out
}

// ---------------------------------------------------------------------------
// The device grid: the device's own rates, channel counts and formats (each
// replaced by the fallback set when the device reports none), rate-major.
// Position `k` is rate `k / (C * F)`, channel count `(k / F) % C` and format
// `k % F`, for `C` channel counts and `F` formats. A position whose channel
// count exceeds the mask table is not probed.

pub open spec fn rates_of(d: AudioDeviceInfo) -> Seq<i32> {
    if d.sample_rates@.len() > 0 {
        d.sample_rates@
    } else {
        Seq::new(NUM_STANDARD_SAMPLE_RATES as nat, |i: int| standard_sample_rate_spec(i))
    }
}

pub open spec fn channels_of(d: AudioDeviceInfo) -> Seq<i32> {
    if d.channel_counts@.len() > 0 {
        d.channel_counts@
    } else {
        Seq::new(NUM_CHANNEL_MASKS as nat, |i: int| (i + 1) as i32)
    }
}

pub open spec fn formats_of(d: AudioDeviceInfo) -> Seq<AudioFormat> {
    if d.formats@.len() > 0 {
        d.formats@
    } else {
        seq![AudioFormat::I16, AudioFormat::F32]
    }
}

pub open spec fn device_grid_len(d: AudioDeviceInfo) -> int {
    (rates_of(d).len() * (channels_of(d).len() * formats_of(d).len())) as int
}

/// The device data that probing can take: channel counts are positive and
/// the grid's size fits in memory.
pub open spec fn probe_input_ok(d: AudioDeviceInfo) -> bool {
    &&& forall|i: int| 0 <= i < d.channel_counts@.len() ==> d.channel_counts@[i] > 0
    &&& device_grid_len(d) <= usize::MAX
}

pub open spec fn pos_rate(d: AudioDeviceInfo, k: int) -> i32 {
    rates_of(d)[k / (channels_of(d).len() * formats_of(d).len()) as int]
}

pub open spec fn pos_channels(d: AudioDeviceInfo, k: int) -> i32 {
    channels_of(d)[(k / formats_of(d).len() as int) % channels_of(d).len() as int]
}

pub open spec fn pos_format(d: AudioDeviceInfo, k: int) -> AudioFormat {
    formats_of(d)[k % formats_of(d).len() as int]
}

pub open spec fn pos_probed(d: AudioDeviceInfo, k: int) -> bool {
    pos_channels(d, k) <= NUM_CHANNEL_MASKS
}

pub open spec fn sample_format_of(f: AudioFormat) -> SampleFormat {
    match f {
        AudioFormat::I16 => SampleFormat::I16,
        AudioFormat::F32 => SampleFormat::F32,
    }
}

pub open spec fn device_query(d: AudioDeviceInfo, is_output: bool, k: int) -> BufferSizeQuery {
    BufferSizeQuery {
        is_output,
        sample_rate: pos_rate(d, k),
        channel_mask: channel_mask_spec(pos_channels(d, k) as int),
        android_format: pos_format(d, k).encoding_spec(),
    }
}

/// The range emitted for grid position `k`: channels clamped to 2, a rate of
/// 0 widened to every rate, and the buffer-size range of the answer.
pub open spec fn device_range(d: AudioDeviceInfo, k: int, min_buffer_size: i32) -> SupportedStreamConfigRange {
    let rate = pos_rate(d, k);
    let ch = pos_channels(d, k);
    SupportedStreamConfigRange {
        channels: (if ch < 2 { ch } else { 2 }) as u16,
        min_sample_rate: SampleRate(if rate == 0 { 0 } else { rate as u32 }),
        max_sample_rate: SampleRate(if rate == 0 { PLATFORM_INT_MAX } else { rate as u32 }),
        buffer_size: buffer_size_range_spec(min_buffer_size),
        sample_format: sample_format_of(pos_format(d, k)),
    }
}

/// How many of the first `n` grid positions are probed.
pub open spec fn probed_count(d: AudioDeviceInfo, n: nat) -> nat
    decreases n,
{
    if n == 0 {
        0
    } else {
        probed_count(d, (n - 1) as nat) + if pos_probed(d, n - 1) {
            1nat
        } else {
            0nat
        }
    }
}

pub open spec fn device_queries_upto(d: AudioDeviceInfo, is_output: bool, n: nat) -> Seq<BufferSizeQuery>
    decreases n,
{
    if n == 0 {
        Seq::empty()
    } else {
        let prev = device_queries_upto(d, is_output, (n - 1) as nat);
        if pos_probed(d, n - 1) {
            prev.push(device_query(d, is_output, n - 1))
        } else {
            prev
        }
    }
}

/// The ranges of the probed positions among the first `n`, in grid order;
/// the answer to the `j`-th probed position is `min_sizes[j]`.
pub open spec fn device_configs_upto(d: AudioDeviceInfo, min_sizes: Seq<i32>, n: nat) -> Seq<SupportedStreamConfigRange>
    decreases n,
{
    if n == 0 {
        Seq::empty()
    } else {
        let prev = device_configs_upto(d, min_sizes, (n - 1) as nat);
        if pos_probed(d, n - 1) {
            prev.push(device_range(d, n - 1, min_sizes[probed_count(d, (n - 1) as nat) as int]))
        } else {
            prev
        }
    }
}

pub open spec fn device_queries_spec(d: AudioDeviceInfo, is_output: bool) -> Seq<BufferSizeQuery> {
    device_queries_upto(d, is_output, device_grid_len(d) as nat)
}

pub open spec fn device_configs_spec(d: AudioDeviceInfo, min_sizes: Seq<i32>) -> Seq<SupportedStreamConfigRange> {
    device_configs_upto(d, min_sizes, device_grid_len(d) as nat)
}

pub open spec fn device_probe_count(d: AudioDeviceInfo) -> nat {
    probed_count(d, device_grid_len(d) as nat)
}

proof fn lemma_probed_count_monotonic(d: AudioDeviceInfo, a: nat, b: nat)
    requires
        a <= b,
    ensures
        probed_count(d, a) <= probed_count(d, b),
    decreases b,
{
    if a < b {
        lemma_probed_count_monotonic(d, a, (b - 1) as nat);
    }
}

fn rates_len(d: &AudioDeviceInfo) -> (r: usize)
    ensures
        r == rates_of(*d).len(),
{
    if d.sample_rates.len() > 0 {
        d.sample_rates.len()
    } else {
        NUM_STANDARD_SAMPLE_RATES
    }
}

fn channels_len(d: &AudioDeviceInfo) -> (r: usize)
    ensures
        r == channels_of(*d).len(),
{
    if d.channel_counts.len() > 0 {
        d.channel_counts.len()
    } else {
        NUM_CHANNEL_MASKS
    }
}

fn formats_len(d: &AudioDeviceInfo) -> (r: usize)
    ensures
        r == formats_of(*d).len(),
{
    if d.formats.len() > 0 {
        d.formats.len()
    } else {
        NUM_DEFAULT_FORMATS
    }
}

fn rate_at(d: &AudioDeviceInfo, i: usize) -> (r: i32)
    requires
        i < rates_of(*d).len(),
    ensures
        r == rates_of(*d)[i as int],
{
    if d.sample_rates.len() > 0 {
        d.sample_rates[i]
    } else {
        standard_sample_rate(i)
    }
}

fn channels_at(d: &AudioDeviceInfo, i: usize) -> (r: i32)
    requires
        i < channels_of(*d).len(),
    ensures
        r == channels_of(*d)[i as int],
{
    if d.channel_counts.len() > 0 {
        d.channel_counts[i]
    } else {
        (i + 1) as i32
    }
}

fn format_at(d: &AudioDeviceInfo, i: usize) -> (r: AudioFormat)
    requires
        i < formats_of(*d).len(),
    ensures
        r == formats_of(*d)[i as int],
{
    if d.formats.len() > 0 {
        d.formats[i]
    } else if i == 0 {
        AudioFormat::I16
    } else {
        AudioFormat::F32
    }
}

/// The grid's dimensions: formats, channel counts times formats, and the
/// number of positions.
fn grid_dims(d: &AudioDeviceInfo) -> (r: (usize, usize, usize))
    requires
        probe_input_ok(*d),
    ensures
        r.0 == formats_of(*d).len(),
        r.1 == channels_of(*d).len() * formats_of(*d).len(),
        r.2 == device_grid_len(*d),
        r.0 > 0,
        r.1 > 0,
{
    let r_len = rates_len(d);
    let c_len = channels_len(d);
    let f_len = formats_len(d);
    assert(c_len * f_len <= r_len * (c_len * f_len)) by (nonlinear_arith)
        requires
            r_len >= 1,
            c_len >= 1,
            f_len >= 1,
    ;
    assert(c_len * f_len > 0) by (nonlinear_arith)
        requires
            c_len >= 1,
            f_len >= 1,
    ;
    let cf = c_len * f_len;
    (f_len, cf, r_len * cf)
}

/// Position `k` of the grid: indices of its rate, channel count and format.
fn grid_pos(d: &AudioDeviceInfo, k: usize, f_len: usize, cf: usize) -> (r: (usize, usize, usize))
    requires
        f_len == formats_of(*d).len(),
        cf == channels_of(*d).len() * formats_of(*d).len(),
        f_len > 0,
        cf > 0,
        k < device_grid_len(*d),
    ensures
        r.0 == k as int / cf as int,
        r.1 == (k as int / f_len as int) % channels_of(*d).len() as int,
        r.2 == k as int % f_len as int,
        r.0 < rates_of(*d).len(),
        r.1 < channels_of(*d).len(),
        r.2 < formats_of(*d).len(),
{
    let c_len = channels_len(d);
    let r_len = rates_len(d);
    assert(k / cf < r_len) by (nonlinear_arith)
        requires
            k < r_len * cf,
            cf > 0,
    ;
    (k / cf, (k / f_len) % c_len, k % f_len)
}

/// Whether the device data can be probed: its channel counts are positive
/// and its grid fits in memory.
pub fn can_probe(device: &AudioDeviceInfo) -> (r: bool)
    ensures
        r == probe_input_ok(*device),
{
    let mut i: usize = 0;
    while i < device.channel_counts.len()
        invariant
            i <= device.channel_counts@.len(),
            forall|j: int| 0 <= j < i ==> device.channel_counts@[j] > 0,
        decreases device.channel_counts@.len() - i,
    {
        if device.channel_counts[i] <= 0 {
            return false;
        }
        i = i + 1;
    }
    let r_len = rates_len(device);
    let c_len = channels_len(device);
    let f_len = formats_len(device);
    let cf = match c_len.checked_mul(f_len) {
        Some(n) => n,
        None => {
            assert(r_len * (c_len * f_len) > usize::MAX) by (nonlinear_arith)
                requires
                    r_len >= 1,
                    c_len * f_len > usize::MAX,
            ;
            return false;
        },
    };
    r_len.checked_mul(cf).is_some()
}

/// The buffer-size queries that probing the device takes, in grid order.
pub fn device_probe_queries(device: &AudioDeviceInfo, is_output: bool) -> (r: Vec<BufferSizeQuery>)
    requires
        probe_input_ok(*device),
    ensures
        r@ == device_queries_spec(*device, is_output),
        r@.len() == device_probe_count(*device),
{
    let (f_len, cf, total) = grid_dims(device);
    let mut out: Vec<BufferSizeQuery> = Vec::new();
    let mut k: usize = 0;
    while k < total
        invariant
            probe_input_ok(*device),
            f_len == formats_of(*device).len(),
            cf == channels_of(*device).len() * formats_of(*device).len(),
            total == device_grid_len(*device),
            f_len > 0,
            cf > 0,
            k <= total,
            out@ == device_queries_upto(*device, is_output, k as nat),
            out@.len() == probed_count(*device, k as nat),
        decreases total - k,
    {
        let (ri, ci, fi) = grid_pos(device, k, f_len, cf);
        let ch = channels_at(device, ci);
        if ch <= NUM_CHANNEL_MASKS as i32 {
            assert(device.channel_counts@.len() > 0 ==> device.channel_counts@[ci as int] > 0);
            let mask = channel_mask(ch as usize);
            let rate = rate_at(device, ri);
            let format = format_at(device, fi).encoding();
            out.push(
                BufferSizeQuery { is_output, sample_rate: rate, channel_mask: mask, android_format: format },
            );
        }
        k = k + 1;
    }
    out
}

/// The supported ranges of a device, from its reported capabilities and the
/// platform's answers to its probe queries (`min_buffer_sizes[j]` answers
/// query `j` of `device_probe_queries`). Every probed position yields one
/// range; positions with more channels than the mask table holds are skipped.
pub fn device_supported_configs(device: &AudioDeviceInfo, min_buffer_sizes: &Vec<i32>) -> (r: Vec<SupportedStreamConfigRange>)
    requires
        probe_input_ok(*device),
        min_buffer_sizes@.len() == device_probe_count(*device),
    ensures
        r@ == device_configs_spec(*device, min_buffer_sizes@),
        r@.len() == device_probe_count(*device),
{
    let (f_len, cf, total) = grid_dims(device);
    let mut out: Vec<SupportedStreamConfigRange> = Vec::new();
    let mut k: usize = 0;
    while k < total
        invariant
            probe_input_ok(*device),
            f_len == formats_of(*device).len(),
            cf == channels_of(*device).len() * formats_of(*device).len(),
            total == device_grid_len(*device),
            f_len > 0,
            cf > 0,
            k <= total,
            min_buffer_sizes@.len() == probed_count(*device, total as nat),
            out@ == device_configs_upto(*device, min_buffer_sizes@, k as nat),
            out@.len() == probed_count(*device, k as nat),
        decreases total - k,
    {
        let (ri, ci, fi) = grid_pos(device, k, f_len, cf);
        let ch = channels_at(device, ci);
        if ch <= NUM_CHANNEL_MASKS as i32 {
            proof {
                lemma_probed_count_monotonic(*device, (k + 1) as nat, total as nat);
            }
            let j = out.len();
            let min_size = min_buffer_sizes[j];
            let rate = rate_at(device, ri);
            let sample_format = match format_at(device, fi) {
                AudioFormat::I16 => SampleFormat::I16,
                AudioFormat::F32 => SampleFormat::F32,
            };
            let channels: u16 = if ch < 2 {
                ch as u16
            } else {
                2
            };
            let min_rate: u32 = if rate == 0 {
                0
            } else {
                rate as u32
            };
            let max_rate: u32 = if rate == 0 {
                PLATFORM_INT_MAX
            } else {
                rate as u32
            };
            out.push(
                SupportedStreamConfigRange {
                    channels,
                    min_sample_rate: SampleRate(min_rate),
                    max_sample_rate: SampleRate(max_rate),
                    buffer_size: buffer_size_range_for_params(min_size),
                    sample_format,
                },
            );
        }
        k = k + 1;
    }
    out
}

// ---------------------------------------------------------------------------
// Properties of probing.

proof fn lemma_device_configs_len(d: AudioDeviceInfo, min_sizes: Seq<i32>, n: nat)
    ensures
        device_configs_upto(d, min_sizes, n).len() == probed_count(d, n),
    decreases n,
{
    if n > 0 {
        lemma_device_configs_len(d, min_sizes, (n - 1) as nat);
    }
}

proof fn lemma_device_configs_index(d: AudioDeviceInfo, min_sizes: Seq<i32>, n: nat, k: int)
    requires
        0 <= k < n,
        pos_probed(d, k),
    ensures
        probed_count(d, k as nat) < device_configs_upto(d, min_sizes, n).len(),
        device_configs_upto(d, min_sizes, n)[probed_count(d, k as nat) as int] == device_range(
            d,
            k,
            min_sizes[probed_count(d, k as nat) as int],
        ),
    decreases n,
{
    lemma_device_configs_len(d, min_sizes, n);
    lemma_device_configs_len(d, min_sizes, (n - 1) as nat);
    if k < n - 1 {
        lemma_device_configs_index(d, min_sizes, (n - 1) as nat, k);
    }
}

proof fn lemma_device_configs_source(d: AudioDeviceInfo, min_sizes: Seq<i32>, n: nat, j: int)
    requires
        0 <= j < device_configs_upto(d, min_sizes, n).len(),
    ensures
        exists|k: int|
            0 <= k < n && pos_probed(d, k) && probed_count(d, k as nat) == j
                && device_configs_upto(d, min_sizes, n)[j] == device_range(d, k, min_sizes[j]),
    decreases n,
{
    lemma_device_configs_len(d, min_sizes, (n - 1) as nat);
    if j < device_configs_upto(d, min_sizes, (n - 1) as nat).len() {
        lemma_device_configs_source(d, min_sizes, (n - 1) as nat, j);
        let k = choose|k: int|
            0 <= k < n - 1 && pos_probed(d, k) && probed_count(d, k as nat) == j
                && device_configs_upto(d, min_sizes, (n - 1) as nat)[j] == device_range(d, k, min_sizes[j]);
        assert(0 <= k < n && pos_probed(d, k) && probed_count(d, k as nat) == j
            && device_configs_upto(d, min_sizes, n)[j] == device_range(d, k, min_sizes[j]));
    } else {
        let k = n - 1;
        assert(0 <= k < n && pos_probed(d, k) && probed_count(d, k as nat) == j
            && device_configs_upto(d, min_sizes, n)[j] == device_range(d, k, min_sizes[j]));
    }
}

/// Probing a device leaves out every combination whose channel count exceeds
/// the mask table, and nothing else: each emitted range comes from a probed
/// position, whose channel count is at most the table's size, and there is
/// one range per probed position.
pub proof fn lemma_oversized_channel_counts_skipped(d: AudioDeviceInfo, min_sizes: Seq<i32>, j: int)
    requires
        min_sizes.len() == device_probe_count(d),
        0 <= j < device_configs_spec(d, min_sizes).len(),
    ensures
        device_configs_spec(d, min_sizes).len() == device_probe_count(d),
        exists|k: int|
            0 <= k < device_grid_len(d) && pos_channels(d, k) <= NUM_CHANNEL_MASKS
                && probed_count(d, k as nat) == j && device_configs_spec(d, min_sizes)[j]
                == device_range(d, k, min_sizes[j]),
{
    lemma_device_configs_len(d, min_sizes, device_grid_len(d) as nat);
    lemma_device_configs_source(d, min_sizes, device_grid_len(d) as nat, j);
}

/// A probed combination whose reported minimum buffer size is positive gets
/// the buffer-size range from that minimum to the platform's integer maximum.
pub proof fn lemma_positive_min_buffer_size(d: AudioDeviceInfo, min_sizes: Seq<i32>, k: int)
    requires
        min_sizes.len() == device_probe_count(d),
        0 <= k < device_grid_len(d),
        pos_probed(d, k),
        min_sizes[probed_count(d, k as nat) as int] > 0,
    ensures
        device_configs_spec(d, min_sizes)[probed_count(d, k as nat) as int].buffer_size
            == (SupportedBufferSize::Range {
            min: min_sizes[probed_count(d, k as nat) as int] as u32,
            max: PLATFORM_INT_MAX,
        }),
{
    lemma_device_configs_index(d, min_sizes, device_grid_len(d) as nat, k);
}

/// A probed combination whose sample rate is the "any rate" value 0 gets the
/// rate range from 0 to the platform's integer maximum.
pub proof fn lemma_zero_rate_widens(d: AudioDeviceInfo, min_sizes: Seq<i32>, k: int)
    requires
        min_sizes.len() == device_probe_count(d),
        0 <= k < device_grid_len(d),
        pos_probed(d, k),
        pos_rate(d, k) == 0,
    ensures
        device_configs_spec(d, min_sizes)[probed_count(d, k as nat) as int].min_sample_rate == SampleRate(0),
        device_configs_spec(d, min_sizes)[probed_count(d, k as nat) as int].max_sample_rate == SampleRate(PLATFORM_INT_MAX),
{
    lemma_device_configs_index(d, min_sizes, device_grid_len(d) as nat, k);
}

proof fn lemma_default_configs_source(min_sizes: Seq<i32>, n: nat, j: int)
    requires
        n <= min_sizes.len(),
        0 <= j < default_configs_upto(min_sizes, n).len(),
    ensures
        exists|k: int|
            0 <= k < n && min_sizes[k] > 0 && default_configs_upto(min_sizes, n)[j] == default_range(
                k,
                min_sizes[k],
            ),
    decreases n,
{
    if j < default_configs_upto(min_sizes, (n - 1) as nat).len() {
        lemma_default_configs_source(min_sizes, (n - 1) as nat, j);
        let k = choose|k: int|
            0 <= k < n - 1 && min_sizes[k] > 0 && default_configs_upto(min_sizes, (n - 1) as nat)[j]
                == default_range(k, min_sizes[k]);
        assert(0 <= k < n && min_sizes[k] > 0 && default_configs_upto(min_sizes, n)[j] == default_range(
            k,
            min_sizes[k],
        ));
    } else {
        let k = n - 1;
        assert(0 <= k < n && min_sizes[k] > 0 && default_configs_upto(min_sizes, n)[j] == default_range(
            k,
            min_sizes[k],
        ));
    }
}

/// Every range of the fallback grid comes from a position whose reported
/// minimum buffer size is positive, and its buffer-size range runs from that
/// minimum to the platform's integer maximum.
pub proof fn lemma_default_ranges_from_positive_min(min_sizes: Seq<i32>, j: int)
    requires
        min_sizes.len() == DEFAULT_GRID_LEN,
        0 <= j < default_configs_spec(min_sizes).len(),
    ensures
        exists|k: int|
            0 <= k < DEFAULT_GRID_LEN && min_sizes[k] > 0 && default_configs_spec(min_sizes)[j]
                == default_range(k, min_sizes[k]) && default_configs_spec(min_sizes)[j].buffer_size
                == (SupportedBufferSize::Range { min: min_sizes[k] as u32, max: PLATFORM_INT_MAX }),
{
    lemma_default_configs_source(min_sizes, DEFAULT_GRID_LEN as nat, j);
}

/// How many of the first `j` channel counts fit the mask table.
pub open spec fn usable_channel_count(d: AudioDeviceInfo, j: nat) -> nat
    decreases j,
{
    if j == 0 {
        0
    } else {
        usable_channel_count(d, (j - 1) as nat) + if channels_of(d)[j - 1] <= NUM_CHANNEL_MASKS {
            1nat
        } else {
            0nat
        }
    }
}

proof fn lemma_position_channel(d: AudioDeviceInfo, q: int, j: int, t: int)
    requires
        channels_of(d).len() > 0,
        formats_of(d).len() > 0,
        0 <= q,
        0 <= j < channels_of(d).len(),
        0 <= t < formats_of(d).len(),
    ensures
        pos_channels(d, q * (channels_of(d).len() * formats_of(d).len()) + j * formats_of(d).len() + t)
            == channels_of(d)[j],
{
    let c = channels_of(d).len() as int;
    let f = formats_of(d).len() as int;
    let k = q * (c * f) + j * f + t;
    assert(k == (q * c + j) * f + t) by (nonlinear_arith)
        requires
            k == q * (c * f) + j * f + t,
    ;
    lemma_fundamental_div_mod_converse(k, f, q * c + j, t);
    lemma_fundamental_div_mod_converse(q * c + j, c, q, j);
}

proof fn lemma_count_within_channel(d: AudioDeviceInfo, q: int, j: int, t: int)
    requires
        channels_of(d).len() > 0,
        formats_of(d).len() > 0,
        0 <= q,
        0 <= j < channels_of(d).len(),
        0 <= t <= formats_of(d).len(),
    ensures
        ({
            let b = q * (channels_of(d).len() * formats_of(d).len()) + j * formats_of(d).len();
            probed_count(d, (b + t) as nat) == probed_count(d, b as nat) + if channels_of(d)[j]
                <= NUM_CHANNEL_MASKS {
                t
            } else {
                0
            }
        }),
    decreases t,
{
    let b = q * (channels_of(d).len() * formats_of(d).len()) + j * formats_of(d).len();
    assert(b >= 0) by (nonlinear_arith)
        requires
            b == q * (channels_of(d).len() * formats_of(d).len()) + j * formats_of(d).len(),
            q >= 0,
            j >= 0,
    ;
    if t > 0 {
        lemma_count_within_channel(d, q, j, t - 1);
        lemma_position_channel(d, q, j, t - 1);
    }
}

proof fn lemma_count_within_rate(d: AudioDeviceInfo, q: int, j: int)
    requires
        channels_of(d).len() > 0,
        formats_of(d).len() > 0,
        0 <= q,
        0 <= j <= channels_of(d).len(),
    ensures
        ({
            let b = q * (channels_of(d).len() * formats_of(d).len());
            probed_count(d, (b + j * formats_of(d).len()) as nat) == probed_count(d, b as nat)
                + usable_channel_count(d, j as nat) * formats_of(d).len()
        }),
    decreases j,
{
    let c = channels_of(d).len() as int;
    let f = formats_of(d).len() as int;
    let b = q * (c * f);
    assert(b >= 0) by (nonlinear_arith)
        requires
            b == q * (c * f),
            q >= 0,
            c > 0,
            f > 0,
    ;
    if j > 0 {
        lemma_count_within_rate(d, q, j - 1);
        lemma_count_within_channel(d, q, j - 1, f);
        assert(b + (j - 1) * f + f == b + j * f) by (nonlinear_arith);
        assert((j - 1) * f >= 0) by (nonlinear_arith)
            requires
                j >= 1,
                f > 0,
        ;
        let u = usable_channel_count(d, (j - 1) as nat) as int;
        assert(u * f + f == (u + 1) * f) by (nonlinear_arith);
        let lo = probed_count(d, (b + (j - 1) * f) as nat) as int;
        assert(lo == probed_count(d, b as nat) + u * f);
        if channels_of(d)[j - 1] <= NUM_CHANNEL_MASKS {
            assert(usable_channel_count(d, j as nat) == u + 1);
            assert(probed_count(d, (b + j * f) as nat) == lo + f);
        } else {
            assert(usable_channel_count(d, j as nat) == u);
            assert(probed_count(d, (b + j * f) as nat) == lo);
        }
    } else {
        assert(j * f == 0) by (nonlinear_arith)
            requires
                j == 0,
        ;
    }
}

proof fn lemma_count_rates(d: AudioDeviceInfo, q: int)
    requires
        channels_of(d).len() > 0,
        formats_of(d).len() > 0,
        0 <= q,
    ensures
        probed_count(d, (q * (channels_of(d).len() * formats_of(d).len())) as nat) == q * (
        usable_channel_count(d, channels_of(d).len()) * formats_of(d).len()),
    decreases q,
{
    let c = channels_of(d).len() as int;
    let f = formats_of(d).len() as int;
    let v = usable_channel_count(d, c as nat) as int;
    if q == 0 {
        assert(q * (c * f) == 0 && q * (v * f) == 0) by (nonlinear_arith)
            requires
                q == 0,
        ;
    } else {
        lemma_count_rates(d, q - 1);
        lemma_count_within_rate(d, q - 1, c);
        assert((q - 1) * (c * f) + c * f == q * (c * f)) by (nonlinear_arith);
        assert((q - 1) * (v * f) + v * f == q * (v * f)) by (nonlinear_arith);
        assert((q - 1) * (c * f) >= 0) by (nonlinear_arith)
            requires
                q >= 1,
                c > 0,
                f > 0,
        ;
    }
}

/// The number of ranges that probing a device yields is the number of its
/// rates, times the number of its channel counts that fit the mask table,
/// times the number of its formats.
pub proof fn lemma_probe_count_product(d: AudioDeviceInfo, min_sizes: Seq<i32>)
    requires
        min_sizes.len() == device_probe_count(d),
    ensures
        device_configs_spec(d, min_sizes).len() == rates_of(d).len() * (usable_channel_count(
            d,
            channels_of(d).len(),
        ) * formats_of(d).len()),
{
    lemma_device_configs_len(d, min_sizes, device_grid_len(d) as nat);
    lemma_count_rates(d, rates_of(d).len() as int);
}

proof fn lemma_device_queries_index(d: AudioDeviceInfo, is_output: bool, n: nat, k: int)
    requires
        0 <= k < n,
        pos_probed(d, k),
    ensures
        probed_count(d, k as nat) < device_queries_upto(d, is_output, n).len(),
        device_queries_upto(d, is_output, n)[probed_count(d, k as nat) as int] == device_query(
            d,
            is_output,
            k,
        ),
    decreases n,
{
    lemma_device_queries_len(d, is_output, n);
    lemma_device_queries_len(d, is_output, (n - 1) as nat);
    if k < n - 1 {
        lemma_device_queries_index(d, is_output, (n - 1) as nat, k);
    }
}

proof fn lemma_device_queries_len(d: AudioDeviceInfo, is_output: bool, n: nat)
    ensures
        device_queries_upto(d, is_output, n).len() == probed_count(d, n),
    decreases n,
{
    if n > 0 {
        lemma_device_queries_len(d, is_output, (n - 1) as nat);
    }
}

/// Query `j` of a device's probe plan and range `j` of its probing result
/// stand for the same grid position: the range carries that position's rate,
/// channel count and format, and the buffer-size range of the answer to
/// query `j`.
pub proof fn lemma_query_and_range_share_position(
    d: AudioDeviceInfo,
    is_output: bool,
    min_sizes: Seq<i32>,
    j: int,
)
    requires
        min_sizes.len() == device_probe_count(d),
        0 <= j < min_sizes.len(),
    ensures
        device_queries_spec(d, is_output).len() == device_configs_spec(d, min_sizes).len(),
        exists|k: int|
            0 <= k < device_grid_len(d) && pos_probed(d, k) && probed_count(d, k as nat) == j
                && device_queries_spec(d, is_output)[j] == device_query(d, is_output, k)
                && #[trigger] device_configs_spec(d, min_sizes)[j] == device_range(d, k, min_sizes[j]),
{
    let n = device_grid_len(d) as nat;
    lemma_device_configs_len(d, min_sizes, n);
    lemma_device_queries_len(d, is_output, n);
    lemma_device_configs_source(d, min_sizes, n, j);
    let k = choose|k: int|
        0 <= k < n && pos_probed(d, k) && probed_count(d, k as nat) == j
            && device_configs_upto(d, min_sizes, n)[j] == device_range(d, k, min_sizes[j]);
    lemma_device_queries_index(d, is_output, n, k);
}

} // verus!
