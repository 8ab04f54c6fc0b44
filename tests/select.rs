use aaudio_host::config::{
    DefaultStreamConfigError, SampleFormat, SampleRate, SupportedBufferSize, SupportedStreamConfigRange,
};
use aaudio_host::host::{select_default, Device};
use std::cmp::Ordering;

fn range(channels: u16, min: u32, max: u32, format: SampleFormat) -> SupportedStreamConfigRange {
    SupportedStreamConfigRange {
        channels,
        min_sample_rate: SampleRate(min),
        max_sample_rate: SampleRate(max),
        buffer_size: SupportedBufferSize::Unknown,
        sample_format: format,
    }
}

#[test]
fn select_default_empty_fails() {
    assert_eq!(select_default(&vec![]), Err(DefaultStreamConfigError::StreamTypeNotSupported));
}

#[test]
fn select_default_prefers_stereo_then_float() {
    let ranges = vec![
        range(1, 48000, 48000, SampleFormat::F32),
        range(2, 44100, 44100, SampleFormat::I16),
        range(2, 22050, 48000, SampleFormat::F32),
        range(8, 48000, 48000, SampleFormat::F32),
    ];
    let chosen = select_default(&ranges).unwrap();
    assert_eq!(chosen.channels, 2);
    assert_eq!(chosen.sample_format, SampleFormat::F32);
    assert_eq!(chosen.sample_rate, SampleRate(48000));
}

#[test]
fn select_default_uses_maximum_rate_of_winner() {
    let ranges = vec![range(2, 0, i32::MAX as u32, SampleFormat::I16)];
    let chosen = select_default(&ranges).unwrap();
    assert_eq!(chosen.sample_rate, SampleRate(i32::MAX as u32));
    assert_eq!(chosen.buffer_size, SupportedBufferSize::Unknown);
}

#[test]
fn select_default_is_idempotent() {
    let ranges = vec![
        range(2, 44100, 44100, SampleFormat::I16),
        range(2, 48000, 48000, SampleFormat::I16),
        range(1, 44100, 44100, SampleFormat::F32),
    ];
    let first = select_default(&ranges).unwrap();
    let second = select_default(&ranges).unwrap();
    assert_eq!(first, second);
    // Covering 44100 Hz beats a higher rate.
    assert_eq!(first.sample_rate, SampleRate(44100));
}

#[test]
fn select_default_ties_take_first() {
    let mut a = range(2, 44100, 48000, SampleFormat::F32);
    a.buffer_size = SupportedBufferSize::Range { min: 10, max: 20 };
    let b = range(2, 8000, 48000, SampleFormat::F32);
    let chosen = select_default(&vec![a, b]).unwrap();
    assert_eq!(chosen.buffer_size, SupportedBufferSize::Range { min: 10, max: 20 });
}

#[test]
fn heuristics_order() {
    let stereo = range(2, 8000, 8000, SampleFormat::U16);
    let mono = range(1, 48000, 48000, SampleFormat::F32);
    assert_eq!(stereo.cmp_default_heuristics(&mono), Ordering::Greater);
    assert_eq!(mono.cmp_default_heuristics(&stereo), Ordering::Less);
    assert_eq!(mono.cmp_default_heuristics(&mono), Ordering::Equal);
}

#[test]
fn default_config_of_default_device() {
    let d = Device(None);
    let mins = vec![480; 208];
    let chosen = d.default_output_config(&mins).unwrap();
    assert_eq!(chosen.channels, 2);
    assert_eq!(chosen.sample_format, SampleFormat::F32);
    // Only the 44100 Hz point covers the nominal rate.
    assert_eq!(chosen.sample_rate, SampleRate(44100));
}

#[test]
fn default_config_without_ranges_fails() {
    let d = Device(None);
    let mins = vec![0; 208];
    assert_eq!(d.default_input_config(&mins), Err(DefaultStreamConfigError::StreamTypeNotSupported));
}
