use vstd::prelude::*;

verus! {

/// Width and height of a picture or a window.
#[derive(Debug, Default, Clone, Copy, PartialEq, Eq, Structural)]
pub struct Size {
    pub width: u32,
    pub height: u32,
}

/// Pixel layout of a video frame.
#[derive(Debug, Clone, Copy, PartialEq, Eq, Structural)]
pub enum VideoFormat {
    BGRA,
    RGBA,
    NV12,
    I420,
}

/// Where the pixels of a video frame live.
#[derive(Debug, Clone, Copy, PartialEq, Eq, Structural)]
pub enum VideoSubFormat {
    /// A hardware texture of Direct3D 11.
    D3D11,
    /// A CoreVideo pixel buffer.
    CvPixelBufferRef,
    /// Plain memory planes.
    SW,
}

#[derive(Debug, Clone, Copy, PartialEq, Eq, Structural)]
pub struct MediaVideoStreamDescription {
    pub format: VideoFormat,
    pub size: Size,
    pub fps: u8,
    pub bit_rate: u64,
}

#[derive(Debug, Clone, Copy, PartialEq, Eq, Structural)]
pub struct MediaAudioStreamDescription {
    pub sample_rate: u64,
    pub channels: u8,
    pub bit_rate: u64,
}

#[derive(Debug, Clone, Copy, PartialEq, Eq, Structural)]
pub struct MediaStreamDescription {
    pub video: Option<MediaVideoStreamDescription>,
    pub audio: Option<MediaAudioStreamDescription>,
}

} // verus!
