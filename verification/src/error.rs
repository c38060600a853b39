//! Error taxonomy of the decoding core.

use vstd::prelude::*;

verus! {

/// Errors of the decoding core. Resource errors are terminal for a decoder
/// instance; transient decode errors are retried or skipped by the caller.
#[derive(Debug)]
pub enum Error {
    /// File not found (the offending path)
    FileNotFound(String),
    /// Invalid or unsupported format
    InvalidFormat(String),
    /// Codec not supported
    CodecNotSupported(String),
    /// Decode error
    DecodeFailed(String),
    /// Seek error at the given position in microseconds
    SeekFailed(i64),
    /// Memory allocation error
    Memory,
    /// Invalid handle
    InvalidHandle,
    /// Decoder not prepared
    NotPrepared,
    /// Decode-engine error with its native code
    FFmpeg { code: i32, message: String },
    /// IO error
    Io(String),
    /// Lock poisoned
    LockPoisoned,
    /// Channel error
    Channel(String),
    /// Unknown error
    Unknown(String),
}

/// The stable result code each error maps to at the native boundary.
pub open spec fn spec_ffi_code(e: Error) -> i32 {
    match e {
        Error::FileNotFound(_) => 1,
        Error::InvalidFormat(_) => 2,
        Error::CodecNotSupported(_) => 3,
        Error::DecodeFailed(_) => 4,
        Error::SeekFailed(_) => 5,
        Error::Memory => 6,
        Error::InvalidHandle => 7,
        Error::NotPrepared => 8,
        Error::FFmpeg { code, .. } => code,
        Error::Io(_) => 1,
        Error::LockPoisoned => 6,
        Error::Channel(_) => 99,
        Error::Unknown(_) => 99,
    }
}

/// The message that `from_ffmpeg` attaches to each native error code.
pub open spec fn spec_ffmpeg_message(code: i32) -> Seq<char> {
    if code == -2 {
        "No such file or directory"@
    } else if code == -5 {
        "Input/output error"@
    } else if code == -12 {
        "Cannot allocate memory"@
    } else if code == -22 {
        "Invalid argument"@
    } else if code == -32 {
        "Broken pipe"@
    } else if code == -38 {
        "Function not implemented"@
    } else if code == -1094995529 {
        "Invalid data found"@
    } else if code == -1414092869 {
        "End of file"@
    } else {
        "Unknown FFmpeg error"@
    }
}

impl Error {
    /// Convert to the stable result code used at the native boundary.
    pub fn to_ffi_code(&self) -> (r: i32)
        ensures
            r == spec_ffi_code(*self),
    {
        match self {
            Error::FileNotFound(_) => 1,
            Error::InvalidFormat(_) => 2,
            Error::CodecNotSupported(_) => 3,
            Error::DecodeFailed(_) => 4,
            Error::SeekFailed(_) => 5,
            Error::Memory => 6,
            Error::InvalidHandle => 7,
            Error::NotPrepared => 8,
            Error::FFmpeg { code, .. } => *code,
            Error::Io(_) => 1,
            Error::LockPoisoned => 6,
            Error::Channel(_) => 99,
            Error::Unknown(_) => 99,
        }
    }

    /// Create an error from a native decode-engine error code.
    pub fn from_ffmpeg(code: i32) -> (r: Self)
        ensures
            r matches Error::FFmpeg { code: c, message } && c == code && message@
                == spec_ffmpeg_message(code),
    {
        let message: &str = if code == -2 {
            "No such file or directory"
        } else if code == -5 {
            "Input/output error"
        } else if code == -12 {
            "Cannot allocate memory"
        } else if code == -22 {
            "Invalid argument"
        } else if code == -32 {
            "Broken pipe"
        } else if code == -38 {
            "Function not implemented"
        } else if code == -1094995529 {
            "Invalid data found"
        } else if code == -1414092869 {
            "End of file"
        } else {
            "Unknown FFmpeg error"
        };
        Error::FFmpeg { code, message: message.to_owned() }
    }
}

} // verus!
