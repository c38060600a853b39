use cyb_ffmpeg_core::frame::PixelFormat;
use cyb_ffmpeg_core::frame::VideoFrame;

#[test]
fn frame_test_frame_creation() {
    let frame = VideoFrame::test_frame(0, 1920, 1080);
    assert_eq!(frame.width, 1920);
    assert_eq!(frame.height, 1080);
    assert!(frame.is_keyframe);
}

#[test]
fn test_expected_size() {
    // 1080p BGRA = 1920 * 1080 * 4 = 8,294,400 bytes
    let size = VideoFrame::expected_size(1920, 1080, PixelFormat::Bgra);
    assert_eq!(size, 8_294_400);

    // 1080p NV12 = 1920 * 1080 * 1.5 = 3,110,400 bytes
    let size = VideoFrame::expected_size(1920, 1080, PixelFormat::Nv12);
    assert_eq!(size, 3_110_400);
}

#[test]
fn frame_data_size_matches_buffer() {
    let frame = VideoFrame::test_frame(16666, 100, 50);
    assert_eq!(frame.data_size(), 100 * 50 * 4);
    assert!(!frame.is_keyframe);
    assert_eq!(frame.frame_number, 1);
    assert_eq!(frame.stride, 400);
}

#[test]
fn pixel_format_default_is_bgra() {
    assert_eq!(PixelFormat::default(), PixelFormat::Bgra);
}
