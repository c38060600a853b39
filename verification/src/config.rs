//! Decoder configuration and presets.

use vstd::prelude::*;

use crate::frame::PixelFormat;

verus! {

/// Decoder configuration.
#[derive(Debug, Clone, Copy, PartialEq, Eq, Structural)]
pub struct DecoderConfig {
    /// Prefer hardware decoding
    pub prefer_hardware_decoding: bool,

    /// L1 cache capacity (hot frames)
    pub l1_cache_capacity: u32,

    /// L2 cache capacity (keyframes)
    pub l2_cache_capacity: u32,

    /// L3 cache capacity (cold frames)
    pub l3_cache_capacity: u32,

    /// Enable background prefetching
    pub enable_prefetch: bool,

    /// Number of decoding threads (0 = auto)
    pub thread_count: u32,

    /// Output pixel format
    pub output_pixel_format: PixelFormat,
}

impl Default for DecoderConfig {
    fn default() -> (r: Self)
        ensures
            r == (DecoderConfig {
                prefer_hardware_decoding: true,
                l1_cache_capacity: 30u32,
                l2_cache_capacity: 100u32,
                l3_cache_capacity: 500u32,
                enable_prefetch: true,
                thread_count: 0u32,
                output_pixel_format: PixelFormat::Bgra,
            }),
    {
        DecoderConfig {
            prefer_hardware_decoding: true,
            l1_cache_capacity: 30,
            l2_cache_capacity: 100,
            l3_cache_capacity: 500,
            enable_prefetch: true,
            thread_count: 0,
            output_pixel_format: PixelFormat::Bgra,
        }
    }
}

impl DecoderConfig {
    /// Performance preset with larger caches.
    pub fn performance() -> (r: Self)
        ensures
            r == (DecoderConfig {
                prefer_hardware_decoding: true,
                l1_cache_capacity: 60u32,
                l2_cache_capacity: 200u32,
                l3_cache_capacity: 1000u32,
                enable_prefetch: true,
                thread_count: 0u32,
                output_pixel_format: PixelFormat::Bgra,
            }),
    {
        DecoderConfig {
            prefer_hardware_decoding: true,
            l1_cache_capacity: 60,
            l2_cache_capacity: 200,
            l3_cache_capacity: 1000,
            enable_prefetch: true,
            thread_count: 0,
            output_pixel_format: PixelFormat::Bgra,
        }
    }

    /// Low memory preset.
    pub fn low_memory() -> (r: Self)
        ensures
            r == (DecoderConfig {
                prefer_hardware_decoding: true,
                l1_cache_capacity: 15u32,
                l2_cache_capacity: 50u32,
                l3_cache_capacity: 100u32,
                enable_prefetch: false,
                thread_count: 2u32,
                output_pixel_format: PixelFormat::Nv12,
            }),
    {
        DecoderConfig {
            prefer_hardware_decoding: true,
            l1_cache_capacity: 15,
            l2_cache_capacity: 50,
            l3_cache_capacity: 100,
            enable_prefetch: false,
            thread_count: 2,
            output_pixel_format: PixelFormat::Nv12,
        }
    }

    /// Scrubbing-optimized preset.
    pub fn scrubbing() -> (r: Self)
        ensures
            r == (DecoderConfig {
                prefer_hardware_decoding: true,
                l1_cache_capacity: 45u32,
                l2_cache_capacity: 200u32,
                l3_cache_capacity: 800u32,
                enable_prefetch: true,
                thread_count: 0u32,
                output_pixel_format: PixelFormat::Bgra,
            }),
    {
        DecoderConfig {
            prefer_hardware_decoding: true,
            l1_cache_capacity: 45,
            l2_cache_capacity: 200,
            l3_cache_capacity: 800,
            enable_prefetch: true,
            thread_count: 0,
            output_pixel_format: PixelFormat::Bgra,
        }
    }
}

} // verus!
