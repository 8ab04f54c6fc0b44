use aaudio_host::config::SampleFormat;
use aaudio_host::convert::{to_stream_instant, StreamInstant};
use aaudio_host::stream::{
    callback_buffer_layout, callback_byte_len, data_callback_result, get_input_callback_info, get_output_callback_info,
    to_sample_format, AAudioFormat, CallbackResult, Timestamp,
};

#[test]
fn missing_timestamp_gives_zero_capture() {
    let info = get_input_callback_info(None, 3, 250_000_000);
    assert_eq!(info.timestamp.capture, StreamInstant { secs: 0, nanos: 0 });
    assert_eq!(info.timestamp.callback, StreamInstant { secs: 3, nanos: 250_000_000 });
}

#[test]
fn missing_timestamp_gives_zero_playback() {
    let info = get_output_callback_info(None, 0, 17);
    assert_eq!(info.timestamp.playback, StreamInstant { secs: 0, nanos: 0 });
    assert_eq!(info.timestamp.callback, StreamInstant { secs: 0, nanos: 17 });
}

#[test]
fn hardware_timestamp_splits_nanoseconds() {
    let ts = Timestamp { frame_position: 4800, time_nanos: 12_345_678_901 };
    let info = get_input_callback_info(Some(ts), 1, 0);
    assert_eq!(info.timestamp.capture, StreamInstant { secs: 12, nanos: 345_678_901 });
    let out = get_output_callback_info(Some(ts), 1, 0);
    assert_eq!(out.timestamp.playback, StreamInstant { secs: 12, nanos: 345_678_901 });
}

#[test]
fn negative_hardware_time_reads_as_unsigned() {
    let ts = Timestamp { frame_position: 0, time_nanos: -1 };
    let info = get_input_callback_info(Some(ts), 0, 0);
    let n = u64::MAX;
    assert_eq!(
        info.timestamp.capture,
        StreamInstant { secs: (n / 1_000_000_000) as i64, nanos: (n % 1_000_000_000) as u32 }
    );
}

#[test]
fn stream_instant_from_duration_parts() {
    assert_eq!(to_stream_instant(5, 6), StreamInstant { secs: 5, nanos: 6 });
    assert_eq!(StreamInstant::new(-2, 9), StreamInstant { secs: -2, nanos: 9 });
}

#[test]
fn buffer_layout_divides_by_sample_size() {
    assert_eq!(callback_buffer_layout(AAudioFormat::PcmI16, 512), (SampleFormat::I16, 256));
    assert_eq!(callback_buffer_layout(AAudioFormat::PcmFloat, 512), (SampleFormat::F32, 128));
    assert_eq!(callback_buffer_layout(AAudioFormat::PcmFloat, 7), (SampleFormat::F32, 1));
}

#[test]
fn native_format_to_sample_format() {
    assert_eq!(to_sample_format(AAudioFormat::PcmI16), SampleFormat::I16);
    assert_eq!(to_sample_format(AAudioFormat::PcmFloat), SampleFormat::F32);
    assert_eq!(SampleFormat::U16.sample_size(), 2);
}

#[test]
fn callback_always_continues() {
    assert_eq!(data_callback_result(), CallbackResult::Continue);
}

#[test]
fn buffer_byte_length() {
    assert_eq!(callback_byte_len(AAudioFormat::PcmI16, 256, 2), Some(1024));
    assert_eq!(callback_byte_len(AAudioFormat::PcmFloat, 256, 2), Some(2048));
    assert_eq!(callback_byte_len(AAudioFormat::PcmFloat, -5, 2), Some(0));
    assert_eq!(callback_byte_len(AAudioFormat::PcmFloat, 10, -1), Some(0));
}
