use aaudio_host::audio_manager::{AudioDeviceDirection, AudioDeviceInfo, AudioDeviceType, AudioFormat};
use aaudio_host::config::{SampleFormat, SampleRate, SupportedBufferSize, PLATFORM_INT_MAX};
use aaudio_host::probe::{
    buffer_size_range_for_params, can_probe, channel_mask, default_probe_queries, default_supported_configs,
    device_probe_queries, device_supported_configs, standard_sample_rate, DEFAULT_GRID_LEN,
};

fn device(rates: Vec<i32>, channels: Vec<i32>, formats: Vec<AudioFormat>) -> AudioDeviceInfo {
    AudioDeviceInfo {
        id: 7,
        device_type: AudioDeviceType::BuiltinSpeaker,
        direction: AudioDeviceDirection::Output,
        address: String::new(),
        product_name: "speaker".to_string(),
        channel_counts: channels,
        sample_rates: rates,
        formats,
    }
}

#[test]
fn buffer_size_range_positive_min() {
    assert_eq!(
        buffer_size_range_for_params(480),
        SupportedBufferSize::Range { min: 480, max: i32::MAX as u32 }
    );
}

#[test]
fn buffer_size_range_non_positive_is_unknown() {
    assert_eq!(buffer_size_range_for_params(0), SupportedBufferSize::Unknown);
    assert_eq!(buffer_size_range_for_params(-3), SupportedBufferSize::Unknown);
}

#[test]
fn channel_mask_table() {
    let masks: Vec<i32> = (1..=8).map(channel_mask).collect();
    assert_eq!(masks, vec![4, 12, 28, 204, 220, 252, 1276, 6396]);
}

#[test]
fn standard_rates_table() {
    let rates: Vec<i32> = (0..13).map(standard_sample_rate).collect();
    assert_eq!(
        rates,
        vec![5512, 8000, 11025, 16000, 22050, 32000, 44100, 48000, 64000, 88200, 96000, 176400, 192000]
    );
}

#[test]
fn default_grid_queries_cover_every_combination() {
    let queries = default_probe_queries(false);
    assert_eq!(queries.len(), 13 * 8 * 2);
    assert_eq!(queries[0].sample_rate, 5512);
    assert_eq!(queries[0].channel_mask, 4);
    assert_eq!(queries[0].android_format, 2);
    assert!(!queries[0].is_output);
    let last = queries[207];
    assert_eq!(last.sample_rate, 192000);
    assert_eq!(last.channel_mask, 6396);
    assert_eq!(last.android_format, 4);
    assert_eq!(queries[13].channel_mask, 12);
    assert_eq!(queries[104].android_format, 4);
    assert_eq!(queries[104].channel_mask, 4);
    assert!(default_probe_queries(true).iter().all(|q| q.is_output));
}

#[test]
fn default_grid_keeps_positive_answers_only() {
    // Every third answer is non-positive.
    let mins: Vec<i32> = (0..DEFAULT_GRID_LEN as i32).map(|k| if k % 3 == 0 { 0 } else { 100 + k }).collect();
    let configs = default_supported_configs(&mins);
    let expected_len = mins.iter().filter(|m| **m > 0).count();
    assert_eq!(configs.len(), expected_len);
    // Position 1: I16, one channel, 8000 Hz, answered 101.
    assert_eq!(configs[0].channels, 1);
    assert_eq!(configs[0].min_sample_rate, SampleRate(8000));
    assert_eq!(configs[0].max_sample_rate, SampleRate(8000));
    assert_eq!(configs[0].sample_format, SampleFormat::I16);
    assert_eq!(configs[0].buffer_size, SupportedBufferSize::Range { min: 101, max: PLATFORM_INT_MAX });
    for c in &configs {
        match c.buffer_size {
            SupportedBufferSize::Range { min, max } => {
                assert!(min >= 100);
                assert_eq!(max, i32::MAX as u32);
            }
            SupportedBufferSize::Unknown => panic!("unknown buffer size emitted"),
        }
    }
    // Position 207 is answered 0, so the last range is position 206.
    let last = configs.last().unwrap();
    assert_eq!(last.channels, 8);
    assert_eq!(last.sample_format, SampleFormat::F32);
    assert_eq!(last.min_sample_rate, SampleRate(176400));
    assert_eq!(last.buffer_size, SupportedBufferSize::Range { min: 306, max: PLATFORM_INT_MAX });
}

#[test]
fn default_grid_all_positive_gives_full_grid() {
    let mins = vec![256; DEFAULT_GRID_LEN];
    let configs = default_supported_configs(&mins);
    assert_eq!(configs.len(), 208);
    assert!(configs.iter().all(|c| c.channels >= 1 && c.channels <= 8));
    assert_eq!(configs.iter().filter(|c| c.sample_format == SampleFormat::F32).count(), 104);
}

#[test]
fn default_grid_all_failed_gives_nothing() {
    let mins = vec![-1; DEFAULT_GRID_LEN];
    assert!(default_supported_configs(&mins).is_empty());
}

#[test]
fn device_channel_counts_over_eight_are_skipped() {
    let d = device(vec![48000], vec![2, 10, 1], vec![AudioFormat::I16]);
    let queries = device_probe_queries(&d, true);
    assert_eq!(queries.len(), 2);
    assert_eq!(queries[0].channel_mask, 12);
    assert_eq!(queries[1].channel_mask, 4);
    assert!(queries.iter().all(|q| q.is_output && q.sample_rate == 48000 && q.android_format == 2));
    let configs = device_supported_configs(&d, &vec![192, 96]);
    assert_eq!(configs.len(), 2);
    assert_eq!(configs[0].channels, 2);
    assert_eq!(configs[0].buffer_size, SupportedBufferSize::Range { min: 192, max: PLATFORM_INT_MAX });
    assert_eq!(configs[1].channels, 1);
    assert_eq!(configs[1].buffer_size, SupportedBufferSize::Range { min: 96, max: PLATFORM_INT_MAX });
}

#[test]
fn device_non_positive_answer_is_unknown_not_dropped() {
    let d = device(vec![44100], vec![2], vec![AudioFormat::F32]);
    let configs = device_supported_configs(&d, &vec![0]);
    assert_eq!(configs.len(), 1);
    assert_eq!(configs[0].buffer_size, SupportedBufferSize::Unknown);
    assert_eq!(configs[0].sample_format, SampleFormat::F32);
}

#[test]
fn device_zero_rate_widens_to_every_rate() {
    let d = device(vec![0], vec![1], vec![AudioFormat::I16]);
    let configs = device_supported_configs(&d, &vec![64]);
    assert_eq!(configs[0].min_sample_rate, SampleRate(0));
    assert_eq!(configs[0].max_sample_rate, SampleRate(i32::MAX as u32));
}

#[test]
fn device_channels_clamped_to_two() {
    let d = device(vec![48000], vec![6], vec![AudioFormat::I16]);
    let queries = device_probe_queries(&d, false);
    assert_eq!(queries[0].channel_mask, 252);
    let configs = device_supported_configs(&d, &vec![512]);
    assert_eq!(configs[0].channels, 2);
}

#[test]
fn device_grid_order_is_rate_channel_format() {
    let d = device(vec![8000, 16000], vec![1, 2], vec![AudioFormat::I16, AudioFormat::F32]);
    let queries = device_probe_queries(&d, true);
    assert_eq!(queries.len(), 8);
    let seen: Vec<(i32, i32, i32)> =
        queries.iter().map(|q| (q.sample_rate, q.channel_mask, q.android_format)).collect();
    assert_eq!(
        seen,
        vec![
            (8000, 4, 2),
            (8000, 4, 4),
            (8000, 12, 2),
            (8000, 12, 4),
            (16000, 4, 2),
            (16000, 4, 4),
            (16000, 12, 2),
            (16000, 12, 4),
        ]
    );
}

#[test]
fn device_reporting_nothing_uses_fallback_sets() {
    let d = device(vec![], vec![], vec![]);
    let queries = device_probe_queries(&d, false);
    assert_eq!(queries.len(), 13 * 8 * 2);
    let configs = device_supported_configs(&d, &vec![10; 208]);
    assert_eq!(configs.len(), 208);
    assert!(configs.iter().all(|c| c.channels <= 2));
    assert_eq!(configs[0].min_sample_rate, SampleRate(5512));
    assert_eq!(configs[0].sample_format, SampleFormat::I16);
    assert_eq!(configs[1].sample_format, SampleFormat::F32);
}

#[test]
fn probing_needs_positive_channel_counts() {
    assert!(can_probe(&device(vec![48000], vec![1, 2, 12], vec![])));
    assert!(can_probe(&device(vec![], vec![], vec![])));
    assert!(!can_probe(&device(vec![48000], vec![2, 0], vec![])));
    assert!(!can_probe(&device(vec![48000], vec![-1], vec![])));
}

#[test]
fn device_range_count_is_rates_times_usable_channels_times_formats() {
    let d = device(vec![8000, 16000, 0], vec![1, 12, 2, 9], vec![AudioFormat::I16, AudioFormat::F32]);
    let queries = device_probe_queries(&d, false);
    assert_eq!(queries.len(), 3 * 2 * 2);
    let configs = device_supported_configs(&d, &vec![32; 12]);
    assert_eq!(configs.len(), 12);
    assert!(configs.iter().all(|c| c.channels >= 1 && c.channels <= 2));
    let widened = configs.iter().filter(|c| c.min_sample_rate == SampleRate(0)).count();
    assert_eq!(widened, 4);
    assert!(configs.iter().all(|c| c.max_sample_rate != SampleRate(0)));
}
