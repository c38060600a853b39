use cyb_ffmpeg_core::error::Error;

#[test]
fn test_error_codes() {
    assert_eq!(Error::FileNotFound(String::new()).to_ffi_code(), 1);
    assert_eq!(Error::Memory.to_ffi_code(), 6);
    assert_eq!(Error::NotPrepared.to_ffi_code(), 8);
}

#[test]
fn test_ffmpeg_error() {
    let err = Error::from_ffmpeg(-2);
    assert!(matches!(err, Error::FFmpeg { code: -2, .. }));
}

#[test]
fn every_variant_has_its_code() {
    assert_eq!(Error::InvalidFormat(String::new()).to_ffi_code(), 2);
    assert_eq!(Error::CodecNotSupported(String::new()).to_ffi_code(), 3);
    assert_eq!(Error::DecodeFailed(String::new()).to_ffi_code(), 4);
    assert_eq!(Error::SeekFailed(1000).to_ffi_code(), 5);
    assert_eq!(Error::InvalidHandle.to_ffi_code(), 7);
    assert_eq!(Error::FFmpeg { code: -22, message: String::new() }.to_ffi_code(), -22);
    assert_eq!(Error::Io(String::new()).to_ffi_code(), 1);
    assert_eq!(Error::LockPoisoned.to_ffi_code(), 6);
    assert_eq!(Error::Channel(String::new()).to_ffi_code(), 99);
    assert_eq!(Error::Unknown(String::new()).to_ffi_code(), 99);
}

#[test]
fn ffmpeg_error_messages_follow_the_code() {
    match Error::from_ffmpeg(-2) {
        Error::FFmpeg { code, message } => {
            assert_eq!(code, -2);
            assert_eq!(message, "No such file or directory");
        },
        _ => panic!("expected an FFmpeg error"),
    }
    match Error::from_ffmpeg(12345) {
        Error::FFmpeg { code, message } => {
            assert_eq!(code, 12345);
            assert_eq!(message, "Unknown FFmpeg error");
        },
        _ => panic!("expected an FFmpeg error"),
    }
}
