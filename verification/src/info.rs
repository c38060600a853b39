//! Media information types.

use vstd::prelude::*;

verus! {

/// Codec information.
#[derive(Debug, Clone)]
pub struct CodecInfo {
    /// Short name (e.g., "vp9")
    pub name: String,

    /// Long name (e.g., "Google VP9")
    pub long_name: String,

    /// FourCC code (e.g., "vp09")
    pub four_cc: Option<String>,
}

impl CodecInfo {
    /// Create unknown codec info.
    pub fn unknown() -> (r: Self)
        ensures
            r.name@ == "unknown"@,
            r.long_name@ == "Unknown Codec"@,
            r.four_cc is None,
    {
        CodecInfo {
            name: "unknown".to_owned(),
            long_name: "Unknown Codec".to_owned(),
            four_cc: None,
        }
    }
}

/// Video track information. The frame rate is carried in millihertz so that
/// fractional rates stay exact integers.
#[derive(Debug, Clone)]
pub struct VideoTrack {
    /// Track index
    pub index: i32,

    /// Codec info
    pub codec: CodecInfo,

    /// Width in pixels
    pub width: i32,

    /// Height in pixels
    pub height: i32,

    /// Frame rate in millihertz (frames per 1000 seconds)
    pub frame_rate_millihz: u64,

    /// Bit rate in bps
    pub bit_rate: i64,

    /// Pixel format string
    pub pixel_format: String,

    /// Whether the platform video decoder can decode this in hardware
    pub is_hardware_decodable: bool,

    /// Color space
    pub color_space: Option<String>,

    /// Color primaries
    pub color_primaries: Option<String>,

    /// Color transfer function
    pub color_transfer: Option<String>,

    /// Color range
    pub color_range: String,
}

impl VideoTrack {
    /// Create a placeholder track.
    pub fn placeholder() -> (r: Self)
        ensures
            r.index == 0,
            r.width == 1920,
            r.height == 1080,
            r.frame_rate_millihz == 24000,
            r.bit_rate == 0,
            r.pixel_format@ == "yuv420p"@,
            !r.is_hardware_decodable,
            r.color_space is None,
            r.color_primaries is None,
            r.color_transfer is None,
            r.color_range@ == "unknown"@,
    {
        VideoTrack {
            index: 0,
            codec: CodecInfo::unknown(),
            width: 1920,
            height: 1080,
            frame_rate_millihz: 24000,
            bit_rate: 0,
            pixel_format: "yuv420p".to_owned(),
            is_hardware_decodable: false,
            color_space: None,
            color_primaries: None,
            color_transfer: None,
            color_range: "unknown".to_owned(),
        }
    }
}

/// Audio track information.
#[derive(Debug, Clone)]
pub struct AudioTrack {
    /// Track index
    pub index: i32,

    /// Codec info
    pub codec: CodecInfo,

    /// Sample rate in Hz
    pub sample_rate: i32,

    /// Number of channels
    pub channels: i32,

    /// Channel layout string
    pub channel_layout: Option<String>,

    /// Bit rate in bps
    pub bit_rate: i64,

    /// Language code
    pub language_code: Option<String>,
}

impl AudioTrack {
    /// Create a placeholder track.
    pub fn placeholder() -> (r: Self)
        ensures
            r.index == 0,
            r.sample_rate == 48000,
            r.channels == 2,
            r.channel_layout matches Some(l) && l@ == "stereo"@,
            r.bit_rate == 0,
            r.language_code is None,
    {
        AudioTrack {
            index: 0,
            codec: CodecInfo::unknown(),
            sample_rate: 48000,
            channels: 2,
            channel_layout: Some("stereo".to_owned()),
            bit_rate: 0,
            language_code: None,
        }
    }
}

/// Complete media information. The duration is carried in microseconds.
#[derive(Debug, Clone)]
pub struct MediaInfo {
    /// Duration in microseconds
    pub duration_us: i64,

    /// Container format
    pub container_format: String,

    /// Video tracks
    pub video_tracks: Vec<VideoTrack>,

    /// Audio tracks
    pub audio_tracks: Vec<AudioTrack>,

    /// Metadata key/value pairs
    pub metadata: Vec<(String, String)>,
}

impl MediaInfo {
    /// Create placeholder media info for a media path (the path itself plays
    /// no part in the placeholder).
    pub fn placeholder(path: &str) -> (r: Self)
        ensures
            r.duration_us == 0,
            r.container_format@ == "unknown"@,
            r.video_tracks@.len() == 1,
            r.audio_tracks@.len() == 1,
            r.metadata@.len() == 0,
    {
        let _ = path;
        MediaInfo {
            duration_us: 0,
            container_format: "unknown".to_owned(),
            video_tracks: vec![VideoTrack::placeholder()],
            audio_tracks: vec![AudioTrack::placeholder()],
            metadata: Vec::new(),
        }
    }

    /// Check if media has video.
    pub fn has_video(&self) -> (r: bool)
        ensures
            r == (self.video_tracks@.len() > 0),
    {
        self.video_tracks.len() > 0
    }

    /// Check if media has audio.
    pub fn has_audio(&self) -> (r: bool)
        ensures
            r == (self.audio_tracks@.len() > 0),
    {
        self.audio_tracks.len() > 0
    }

    /// Get the primary video track.
    pub fn primary_video(&self) -> (r: Option<&VideoTrack>)
        ensures
            r matches Some(t) ==> self.video_tracks@.len() > 0 && *t == self.video_tracks@[0],
            r is None <==> self.video_tracks@.len() == 0,
    {
        if self.video_tracks.len() > 0 {
            Some(&self.video_tracks[0])
        } else {
            None
        }
    }

    /// Get the primary audio track.
    pub fn primary_audio(&self) -> (r: Option<&AudioTrack>)
        ensures
            r matches Some(t) ==> self.audio_tracks@.len() > 0 && *t == self.audio_tracks@[0],
            r is None <==> self.audio_tracks@.len() == 0,
    {
        if self.audio_tracks.len() > 0 {
            Some(&self.audio_tracks[0])
        } else {
            None
        }
    }
}

} // verus!
