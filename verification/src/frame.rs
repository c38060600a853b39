//! Decoded video frame type and its mathematical view.

use vstd::prelude::*;

verus! {

/// Pixel format for output frames.
#[derive(Debug, Clone, Copy, PartialEq, Eq, Structural)]
pub enum PixelFormat {
    /// BGRA (32-bit)
    Bgra,
    /// NV12 (12-bit, Y plane + interleaved UV plane)
    Nv12,
    /// YUV420P (12-bit, planar)
    Yuv420p,
}

impl Default for PixelFormat {
    fn default() -> (r: Self)
        ensures
            r == PixelFormat::Bgra,
    {
        PixelFormat::Bgra
    }
}

/// Decoded video frame: an owned pixel buffer plus presentation metadata.
#[derive(Debug, PartialEq)]
pub struct VideoFrame {
    /// Raw pixel data
    pub data: Vec<u8>,

    /// Frame width
    pub width: u32,

    /// Frame height
    pub height: u32,

    /// Bytes per row (stride)
    pub stride: u32,

    /// Presentation timestamp in microseconds
    pub pts_us: i64,

    /// Frame duration in microseconds
    pub duration_us: i64,

    /// Whether this is a keyframe
    pub is_keyframe: bool,

    /// Sequential frame number
    pub frame_number: i64,

    /// Pixel format
    pub pixel_format: PixelFormat,
}

/// Mathematical view of a frame: the pixel buffer as a sequence of bytes,
/// the metadata as plain values.
pub struct FrameView {
    pub data: Seq<u8>,
    pub width: u32,
    pub height: u32,
    pub stride: u32,
    pub pts_us: i64,
    pub duration_us: i64,
    pub is_keyframe: bool,
    pub frame_number: i64,
    pub pixel_format: PixelFormat,
}

impl View for VideoFrame {
    type V = FrameView;

    open spec fn view(&self) -> FrameView {
        FrameView {
            data: self.data@,
            width: self.width,
            height: self.height,
            stride: self.stride,
            pts_us: self.pts_us,
            duration_us: self.duration_us,
            is_keyframe: self.is_keyframe,
            frame_number: self.frame_number,
            pixel_format: self.pixel_format,
        }
    }
}

impl Clone for VideoFrame {
    /// A cloned frame has the same view: same bytes, same metadata.
    fn clone(&self) -> (res: Self)
        ensures
            res@ == self@,
    {
        let data = self.data.clone();
        assert(data@ =~= self.data@);
        VideoFrame {
            data,
            width: self.width,
            height: self.height,
            stride: self.stride,
            pts_us: self.pts_us,
            duration_us: self.duration_us,
            is_keyframe: self.is_keyframe,
            frame_number: self.frame_number,
            pixel_format: self.pixel_format,
        }
    }
}

/// Size in bytes of one decoded frame of the given dimensions and format.
pub open spec fn spec_expected_size(width: u32, height: u32, format: PixelFormat) -> int {
    match format {
        PixelFormat::Bgra => width * height * 4,
        PixelFormat::Nv12 => (width * height * 3) / 2,
        PixelFormat::Yuv420p => (width * height * 3) / 2,
    }
}

impl VideoFrame {
    /// Create a new video frame from its parts.
    pub fn new(
        data: Vec<u8>,
        width: u32,
        height: u32,
        stride: u32,
        pts_us: i64,
        duration_us: i64,
        is_keyframe: bool,
        frame_number: i64,
        pixel_format: PixelFormat,
    ) -> (r: Self)
        ensures
            r@ == (FrameView {
                data: data@,
                width,
                height,
                stride,
                pts_us,
                duration_us,
                is_keyframe,
                frame_number,
                pixel_format,
            }),
    {
        VideoFrame {
            data,
            width,
            height,
            stride,
            pts_us,
            duration_us,
            is_keyframe,
            frame_number,
            pixel_format,
        }
    }

    /// Get data size in bytes.
    pub fn data_size(&self) -> (r: usize)
        ensures
            r == self@.data.len(),
    {
        self.data.len()
    }

    /// Calculate expected data size for the given dimensions and format.
    pub fn expected_size(width: u32, height: u32, format: PixelFormat) -> (r: usize)
        requires
            width * height * 4 <= usize::MAX,
        ensures
            r == spec_expected_size(width, height, format),
    {
        let w = width as usize;
        let h = height as usize;
        match format {
            PixelFormat::Bgra => w * h * 4,
            PixelFormat::Nv12 => w * h * 3 / 2,
            PixelFormat::Yuv420p => w * h * 3 / 2,
        }
    }

    /// Create a test frame with a zeroed BGRA buffer.
    pub fn test_frame(pts_us: i64, width: u32, height: u32) -> (r: Self)
        requires
            width * height * 4 <= usize::MAX,
            width * 4 <= u32::MAX,
        ensures
            r@.data.len() == spec_expected_size(width, height, PixelFormat::Bgra),
            r@.data =~= Seq::new(r@.data.len(), |i: int| 0u8),
            r@.width == width,
            r@.height == height,
            r@.stride == width * 4,
            r@.pts_us == pts_us,
            r@.duration_us == 16666,
            r@.is_keyframe == (pts_us == 0),
            pts_us >= 0 ==> r@.frame_number == pts_us / 16666,
            r@.pixel_format == PixelFormat::Bgra,
    {
        let size = Self::expected_size(width, height, PixelFormat::Bgra);
        VideoFrame {
            data: vec![0u8; size],
            width,
            height,
            stride: width * 4,
            pts_us,
            duration_us: 16666,
            is_keyframe: pts_us == 0,
            frame_number: pts_us / 16666,
            pixel_format: PixelFormat::Bgra,
        }
    }
}

} // verus!
