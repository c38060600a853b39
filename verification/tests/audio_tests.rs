use cyb_ffmpeg_core::audio::AudioFrame;
use cyb_ffmpeg_core::audio::SampleFormat;

#[test]
fn audio_frame_test_frame_creation() {
    let frame = AudioFrame::test_frame(0, 1024, 2, 48000);
    assert_eq!(frame.sample_count, 1024);
    assert_eq!(frame.channels, 2);
    assert_eq!(frame.sample_rate, 48000);
    assert_eq!(frame.total_samples(), 2048); // 1024 * 2 channels
}

#[test]
fn test_duration_calculation() {
    // 1024 samples at 48000 Hz = 21.333... ms
    let duration = AudioFrame::calculate_duration_us(1024, 48000);
    assert_eq!(duration, 21333); // 21.333 ms
}

#[test]
fn test_data_size() {
    let frame = AudioFrame::test_frame(0, 1024, 2, 48000);
    // 2048 samples * 4 bytes per sample = 8192 bytes
    assert_eq!(frame.data_size(), 8192);
}

#[test]
fn duration_is_zero_for_zero_rate() {
    assert_eq!(AudioFrame::calculate_duration_us(1024, 0), 0);
}

#[test]
fn sample_format_default_is_float32() {
    assert_eq!(SampleFormat::default(), SampleFormat::Float32);
}
