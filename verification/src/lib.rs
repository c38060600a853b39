//! Core of a media-decoding engine for video scrubbing: a three-tier frame
//! cache with tolerance-based lookup, promotion and insertion-order eviction,
//! together with the decision logic of a concurrent prefetch subsystem that
//! populates the cache ahead of a moving playhead.

use vstd::prelude::*;

pub mod audio;
pub mod cache;
pub mod config;
pub mod decoder;
pub mod error;
pub mod frame;
pub mod info;
pub mod prefetch;

pub use frame::PixelFormat;
pub use frame::VideoFrame;

verus! {

/// Library version.
pub const VERSION: &'static str = "0.1.0";

} // verus!
