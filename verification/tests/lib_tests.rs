#[test]
fn lib_test_version() {
    assert!(!cyb_ffmpeg_core::VERSION.is_empty());
}
