use aaudio_host::audio_manager::{AudioDeviceDirection, AudioDeviceInfo, AudioDeviceType};
use aaudio_host::config::{BufferSize, BuildStreamError, SampleFormat, SampleRate, StreamConfig};
use aaudio_host::host::Device;
use aaudio_host::stream::{builder_for_device, AAudioFormat, Direction};

fn config(channels: u16, rate: u32, buffer_size: BufferSize) -> StreamConfig {
    StreamConfig { channels, sample_rate: SampleRate(rate), buffer_size }
}

fn known_device(id: i32) -> Device {
    Device(Some(AudioDeviceInfo {
        id,
        device_type: AudioDeviceType::UsbHeadset,
        direction: AudioDeviceDirection::InputOutput,
        address: "card=1".to_string(),
        product_name: "headset".to_string(),
        channel_counts: vec![2],
        sample_rates: vec![48000],
        formats: vec![],
    }))
}

#[test]
fn fixed_buffer_size_sets_capacity() {
    let p = builder_for_device(&Device(None), &config(2, 48000, BufferSize::Fixed(256)), SampleFormat::F32, Direction::Output)
        .unwrap();
    assert_eq!(p.buffer_capacity_in_frames, Some(256));
    assert_eq!(p.direction, Direction::Output);
    assert_eq!(p.format, AAudioFormat::PcmFloat);
    assert_eq!(p.channel_count, 2);
    assert_eq!(p.sample_rate, 48000);
    assert_eq!(p.device_id, None);
}

#[test]
fn default_buffer_size_leaves_capacity_unset() {
    let p = builder_for_device(&Device(None), &config(1, 44100, BufferSize::Default), SampleFormat::I16, Direction::Input)
        .unwrap();
    assert_eq!(p.buffer_capacity_in_frames, None);
    assert_eq!(p.format, AAudioFormat::PcmI16);
    assert_eq!(p.direction, Direction::Input);
}

#[test]
fn known_device_binds_device_id() {
    let p = builder_for_device(&known_device(42), &config(2, 48000, BufferSize::Default), SampleFormat::I16, Direction::Output)
        .unwrap();
    assert_eq!(p.device_id, Some(42));
}

#[test]
fn unsigned_format_fails_first() {
    // The format is rejected even though the channel count is invalid too.
    let r = builder_for_device(&Device(None), &config(0, 48000, BufferSize::Default), SampleFormat::U16, Direction::Output);
    match r {
        Err(BuildStreamError::BackendSpecific { err }) => {
            assert_eq!(err.description, "U16 format is not supported on Android.")
        }
        other => panic!("unexpected {:?}", other),
    }
}

#[test]
fn channel_count_outside_mask_table_rejected() {
    for channels in [0u16, 9, 64] {
        let r = builder_for_device(&Device(None), &config(channels, 48000, BufferSize::Default), SampleFormat::F32, Direction::Output);
        assert_eq!(r, Err(BuildStreamError::StreamConfigNotSupported));
    }
    let r = builder_for_device(&Device(None), &config(8, 48000, BufferSize::Default), SampleFormat::F32, Direction::Output);
    assert_eq!(r.unwrap().channel_count, 8);
}

#[test]
fn unsigned_format_error_comes_before_rate_bound() {
    let r = builder_for_device(&Device(None), &config(2, u32::MAX, BufferSize::Default), SampleFormat::U16, Direction::Output);
    assert!(matches!(r, Err(BuildStreamError::BackendSpecific { .. })));
    let r = builder_for_device(&Device(None), &config(9, u32::MAX, BufferSize::Default), SampleFormat::I16, Direction::Input);
    assert_eq!(r, Err(BuildStreamError::StreamConfigNotSupported));
}
