//! Audio frame metadata.
//!
//! The verified core works on the metadata of a decoded audio frame — sample
//! count, channel count, rate and timing. The interleaved sample buffer itself
//! (floating-point data) lives with the unverified decode-engine glue, which
//! keeps it alongside a value of this type; its length is
//! `sample_count * channels`.

use vstd::prelude::*;

verus! {

/// Sample format for audio data.
#[derive(Debug, Clone, Copy, PartialEq, Eq, Structural)]
pub enum SampleFormat {
    /// 32-bit float (most common for audio processing)
    Float32,
    /// 16-bit signed integer
    Int16,
    /// 32-bit signed integer
    Int32,
}

impl Default for SampleFormat {
    fn default() -> (r: Self)
        ensures
            r == SampleFormat::Float32,
    {
        SampleFormat::Float32
    }
}

/// Decoded audio frame metadata.
#[derive(Debug, Clone, Copy, PartialEq, Eq, Structural)]
pub struct AudioFrame {
    /// Number of samples per channel
    pub sample_count: u32,

    /// Number of audio channels
    pub channels: u32,

    /// Sample rate in Hz
    pub sample_rate: u32,

    /// Presentation timestamp in microseconds
    pub pts_us: i64,

    /// Frame duration in microseconds
    pub duration_us: i64,

    /// Sequential frame number
    pub frame_number: i64,
}

/// Duration in microseconds of `sample_count` samples at `sample_rate` Hz.
pub open spec fn spec_duration_us(sample_count: u32, sample_rate: u32) -> int {
    if sample_rate == 0 {
        0
    } else {
        (sample_count * 1_000_000) / (sample_rate as int)
    }
}

impl AudioFrame {
    /// Create a new audio frame from its metadata.
    pub fn new(
        sample_count: u32,
        channels: u32,
        sample_rate: u32,
        pts_us: i64,
        duration_us: i64,
        frame_number: i64,
    ) -> (r: Self)
        ensures
            r == (AudioFrame { sample_count, channels, sample_rate, pts_us, duration_us, frame_number }),
    {
        AudioFrame { sample_count, channels, sample_rate, pts_us, duration_us, frame_number }
    }

    /// The number of total samples across channels.
    pub fn total_samples(&self) -> (r: usize)
        requires
            self.sample_count * self.channels <= usize::MAX,
        ensures
            r == self.sample_count * self.channels,
    {
        self.sample_count as usize * self.channels as usize
    }

    /// Size of the sample buffer in bytes (4 bytes per 32-bit sample).
    pub fn data_size(&self) -> (r: usize)
        requires
            self.sample_count * self.channels * 4 <= usize::MAX,
        ensures
            r == self.sample_count * self.channels * 4,
    {
        self.sample_count as usize * self.channels as usize * 4
    }

    /// Calculate expected duration from sample count and rate.
    pub fn calculate_duration_us(sample_count: u32, sample_rate: u32) -> (r: i64)
        ensures
            r == spec_duration_us(sample_count, sample_rate),
    {
        if sample_rate == 0 {
            return 0;
        }
        (sample_count as i64 * 1_000_000) / (sample_rate as i64)
    }

    /// Create a test frame.
    pub fn test_frame(pts_us: i64, sample_count: u32, channels: u32, sample_rate: u32) -> (r: Self)
        ensures
            r == (AudioFrame {
                sample_count,
                channels,
                sample_rate,
                pts_us,
                duration_us: spec_duration_us(sample_count, sample_rate) as i64,
                frame_number: 0i64,
            }),
    {
        let duration_us = Self::calculate_duration_us(sample_count, sample_rate);
        AudioFrame { sample_count, channels, sample_rate, pts_us, duration_us, frame_number: 0 }
    }
}

} // verus!
