use vstd::prelude::*;

use crate::media::{Size, VideoFormat, VideoSubFormat};
use crate::platform::Platform;

verus! {

/// The byte length of each plane of a frame in memory, for a renderer:
/// packed RGB formats have one plane, NV12 two planes of full height, I420
/// a full-height luma plane and two chroma planes of half height. The NV12
/// chroma plane holds only half as many rows as the picture; its length is
/// nevertheless counted over the full height, so the span handed to the
/// renderer reaches past that plane's rows.
pub open spec fn plane_lengths_spec(format: VideoFormat, linesize: [u32; 3], height: u32) -> Seq<int> {
    let h = height as int;
    match format {
        VideoFormat::BGRA | VideoFormat::RGBA => seq![linesize[0] * h, 0, 0],
        VideoFormat::NV12 => seq![linesize[0] * h, linesize[1] * h, 0],
        VideoFormat::I420 => seq![linesize[0] * h, linesize[1] * (h / 2), linesize[2] * (h / 2)],
    }
}

/// Whether every plane length of the frame fits in `usize`.
pub open spec fn plane_lengths_fit(format: VideoFormat, linesize: [u32; 3], height: u32) -> bool {
    forall|i: int| 0 <= i < 3 ==> #[trigger] plane_lengths_spec(format, linesize, height)[i] <= usize::MAX
}

/// The plane lengths of a software frame handed to a renderer.
pub fn plane_lengths(format: VideoFormat, linesize: [u32; 3], height: u32) -> (r: [usize; 3])
    requires
        plane_lengths_fit(format, linesize, height),
    ensures
        forall|i: int| 0 <= i < 3 ==> r[i] as int == #[trigger] plane_lengths_spec(format, linesize, height)[i],
{
    let h = height as usize;
    assert(plane_lengths_spec(format, linesize, height)[0] <= usize::MAX);
    assert(plane_lengths_spec(format, linesize, height)[1] <= usize::MAX);
    assert(plane_lengths_spec(format, linesize, height)[2] <= usize::MAX);
    match format {
        VideoFormat::BGRA | VideoFormat::RGBA => [linesize[0] as usize * h, 0, 0],
        VideoFormat::NV12 => [linesize[0] as usize * h, linesize[1] as usize * h, 0],
        VideoFormat::I420 => [
            linesize[0] as usize * h,
            linesize[1] as usize * (h / 2),
            linesize[2] as usize * (h / 2),
        ],
    }
}

/// The byte length of each plane of a locked pixel buffer: a plane with
/// no bytes per row is empty; I420 planes span half the rows, the planes of
/// other formats all the rows. This counts every plane of I420 over half
/// the rows, the luma plane among them, and the NV12 chroma plane over all
/// of them, though that plane holds half as many: the spans read are the
/// ones these lengths give, not the planes' true sizes.
pub open spec fn pixel_buffer_plane_len(format: VideoFormat, bytes_per_row: usize, height: u32) -> int {
    if bytes_per_row > 0 {
        bytes_per_row * (if format == VideoFormat::I420 {
            (height / 2) as int
        } else {
            height as int
        })
    } else {
        0
    }
}

pub fn pixel_buffer_plane_lengths(format: VideoFormat, bytes_per_row: [usize; 3], size: Size) -> (r: [usize; 3])
    requires
        forall|i: int| 0 <= i < 3 ==> pixel_buffer_plane_len(format, #[trigger] bytes_per_row[i], size.height) <= usize::MAX,
    ensures
        forall|i: int| 0 <= i < 3 ==> r[i] as int == pixel_buffer_plane_len(format, #[trigger] bytes_per_row[i], size.height),
{
    let rows: usize = if format == VideoFormat::I420 {
        (size.height / 2) as usize
    } else {
        size.height as usize
    };
    let mut r: [usize; 3] = [0, 0, 0];
    let mut i: usize = 0;
    while i < 3
        invariant
            i <= 3,
            rows == (if format == VideoFormat::I420 { (size.height / 2) as int } else { size.height as int }),
            forall|i: int| 0 <= i < 3 ==> pixel_buffer_plane_len(format, #[trigger] bytes_per_row[i], size.height) <= usize::MAX,
            forall|j: int| 0 <= j < i ==> r[j] as int == pixel_buffer_plane_len(format, #[trigger] bytes_per_row[j], size.height),
        decreases 3 - i,
    {
        let b = bytes_per_row[i];
        assert(pixel_buffer_plane_len(format, bytes_per_row[i as int], size.height) <= usize::MAX);
        if b > 0 {
            r[i] = b * rows;
        } else {
            r[i] = 0;
        }
        i = i + 1;
    }
    r
}

/// Texture formats of the GPU planes a frame is uploaded to.
#[derive(Debug, Clone, Copy, PartialEq, Eq, Structural)]
pub enum TextureFormat {
    Bgra8Unorm,
    Rgba8Unorm,
    R8Unorm,
}

/// Texture formats with one upload path each.
#[derive(Debug, Clone, Copy, PartialEq, Eq, Structural)]
pub enum TextureKind {
    Bgra,
    Rgba,
    I420,
}

/// The textures a frame of `size` needs: one packed texture for BGRA and
/// RGBA; one full and two half-size single-channel textures for I420.
pub fn create_texture_descriptor(kind: TextureKind, size: Size) -> (r: Vec<(Size, TextureFormat)>)
    ensures
        match kind {
            TextureKind::Bgra => r@ == seq![(size, TextureFormat::Bgra8Unorm)],
            TextureKind::Rgba => r@ == seq![(size, TextureFormat::Rgba8Unorm)],
            TextureKind::I420 => r@ == seq![
                (size, TextureFormat::R8Unorm),
                (Size { width: size.width / 2, height: size.height / 2 }, TextureFormat::R8Unorm),
                (Size { width: size.width / 2, height: size.height / 2 }, TextureFormat::R8Unorm),
            ],
        },
{
    let mut r: Vec<(Size, TextureFormat)> = Vec::new();
    match kind {
        TextureKind::Bgra => r.push((size, TextureFormat::Bgra8Unorm)),
        TextureKind::Rgba => r.push((size, TextureFormat::Rgba8Unorm)),
        TextureKind::I420 => {
            let half = Size { width: size.width / 2, height: size.height / 2 };
            r.push((size, TextureFormat::R8Unorm));
            r.push((half, TextureFormat::R8Unorm));
            r.push((half, TextureFormat::R8Unorm));
        },
    }
    assert(r@ =~= match kind {
        TextureKind::Bgra => seq![(size, TextureFormat::Bgra8Unorm)],
        TextureKind::Rgba => seq![(size, TextureFormat::Rgba8Unorm)],
        TextureKind::I420 => seq![
            (size, TextureFormat::R8Unorm),
            (Size { width: size.width / 2, height: size.height / 2 }, TextureFormat::R8Unorm),
            (Size { width: size.width / 2, height: size.height / 2 }, TextureFormat::R8Unorm),
        ],
    });
    r
}

/// The formats of the views a shader samples: the packed texture itself
/// (or the frame's own texture when it has one), or the three planes of I420.
pub fn view_formats(kind: TextureKind) -> (r: Vec<TextureFormat>)
    ensures
        match kind {
            TextureKind::Bgra => r@ == seq![TextureFormat::Bgra8Unorm],
            TextureKind::Rgba => r@ == seq![TextureFormat::Rgba8Unorm],
            TextureKind::I420 => r@ == seq![TextureFormat::R8Unorm, TextureFormat::R8Unorm, TextureFormat::R8Unorm],
        },
{
    let mut r: Vec<TextureFormat> = Vec::new();
    match kind {
        TextureKind::Bgra => r.push(TextureFormat::Bgra8Unorm),
        TextureKind::Rgba => r.push(TextureFormat::Rgba8Unorm),
        TextureKind::I420 => {
            r.push(TextureFormat::R8Unorm);
            r.push(TextureFormat::R8Unorm);
            r.push(TextureFormat::R8Unorm);
        },
    }
    assert(r@ =~= match kind {
        TextureKind::Bgra => seq![TextureFormat::Bgra8Unorm],
        TextureKind::Rgba => seq![TextureFormat::Rgba8Unorm],
        TextureKind::I420 => seq![TextureFormat::R8Unorm, TextureFormat::R8Unorm, TextureFormat::R8Unorm],
    });
    r
}

/// The extent of each upload of a frame into textures of `size`: packed
/// formats copy four bytes per pixel, I420 copies a full luma plane and two
/// half-size chroma planes.
pub fn copy_buffer_descriptors(kind: TextureKind, size: Size) -> (r: Vec<Size>)
    requires
        kind != TextureKind::I420 ==> size.width * 4 <= u32::MAX,
    ensures
        match kind {
            TextureKind::Bgra | TextureKind::Rgba => r@ == seq![Size { width: (size.width * 4) as u32, height: size.height }],
            TextureKind::I420 => r@ == seq![
                size,
                Size { width: size.width / 2, height: size.height / 2 },
                Size { width: size.width / 2, height: size.height / 2 },
            ],
        },
{
    let mut r: Vec<Size> = Vec::new();
    match kind {
        TextureKind::Bgra | TextureKind::Rgba => {
            r.push(Size { width: size.width * 4, height: size.height });
        },
        TextureKind::I420 => {
            let half = Size { width: size.width / 2, height: size.height / 2 };
            r.push(size);
            r.push(half);
            r.push(half);
        },
    }
    assert(r@ =~= match kind {
        TextureKind::Bgra | TextureKind::Rgba => seq![Size { width: (size.width * 4) as u32, height: size.height }],
        TextureKind::I420 => seq![
            size,
            Size { width: size.width / 2, height: size.height / 2 },
            Size { width: size.width / 2, height: size.height / 2 },
        ],
    });
    r
}

/// CoreVideo pixel format codes, as four-character codes.
pub const CV_PIXEL_FORMAT_32_RGBA: u32 = 0x52474241;
pub const CV_PIXEL_FORMAT_32_BGRA: u32 = 0x42475241;
pub const CV_PIXEL_FORMAT_420_PLANAR: u32 = 0x79343230;
pub const CV_PIXEL_FORMAT_420_BIPLANAR_VIDEO_RANGE: u32 = 0x34323076;
pub const CV_PIXEL_FORMAT_420_BIPLANAR_FULL_RANGE: u32 = 0x34323066;

/// The pixel format codes a CoreVideo pixel buffer can be read in.
pub open spec fn is_known_pixel_format(code: u32) -> bool {
    ||| code == CV_PIXEL_FORMAT_32_RGBA
    ||| code == CV_PIXEL_FORMAT_32_BGRA
    ||| code == CV_PIXEL_FORMAT_420_PLANAR
    ||| code == CV_PIXEL_FORMAT_420_BIPLANAR_VIDEO_RANGE
    ||| code == CV_PIXEL_FORMAT_420_BIPLANAR_FULL_RANGE
}

/// Whether a pixel buffer of this format code can be read.
pub fn pixel_buffer_format_supported(code: u32) -> (r: bool)
    ensures
        r == is_known_pixel_format(code),
{
    code == CV_PIXEL_FORMAT_32_RGBA || code == CV_PIXEL_FORMAT_32_BGRA || code == CV_PIXEL_FORMAT_420_PLANAR
        || code == CV_PIXEL_FORMAT_420_BIPLANAR_VIDEO_RANGE || code == CV_PIXEL_FORMAT_420_BIPLANAR_FULL_RANGE
}

/// The frame format of a CoreVideo pixel buffer, by its format code.
pub fn get_pixel_buffer_format(code: u32) -> (r: VideoFormat)
    requires
        is_known_pixel_format(code),
    ensures
        r == (if code == CV_PIXEL_FORMAT_32_RGBA {
            VideoFormat::RGBA
        } else if code == CV_PIXEL_FORMAT_32_BGRA {
            VideoFormat::BGRA
        } else if code == CV_PIXEL_FORMAT_420_PLANAR {
            VideoFormat::I420
        } else {
            VideoFormat::NV12
        }),
{
    if code == CV_PIXEL_FORMAT_32_RGBA {
        VideoFormat::RGBA
    } else if code == CV_PIXEL_FORMAT_32_BGRA {
        VideoFormat::BGRA
    } else if code == CV_PIXEL_FORMAT_420_PLANAR {
        VideoFormat::I420
    } else {
        VideoFormat::NV12
    }
}

/// Pixel formats a decoder hands frames out in.
#[derive(Debug, Clone, Copy, PartialEq, Eq, Structural)]
pub enum DecodedPixelFormat {
    /// A QSV surface holding a Direct3D 11 texture.
    Qsv,
    /// A Direct3D 11 texture.
    D3D11,
    /// Three planes in memory.
    Yuv420p,
    /// A CoreVideo pixel buffer.
    VideoToolbox,
}

/// How a decoded frame is described to its consumer; for a CoreVideo
/// buffer the format is read from the buffer itself.
pub fn decoded_frame_format(format: DecodedPixelFormat, pixel_buffer_format: VideoFormat) -> (r: (
    VideoSubFormat,
    VideoFormat,
))
    ensures
        r == (match format {
            DecodedPixelFormat::Qsv | DecodedPixelFormat::D3D11 => (VideoSubFormat::D3D11, VideoFormat::NV12),
            DecodedPixelFormat::Yuv420p => (VideoSubFormat::SW, VideoFormat::I420),
            DecodedPixelFormat::VideoToolbox => (VideoSubFormat::CvPixelBufferRef, pixel_buffer_format),
        }),
{
    match format {
        DecodedPixelFormat::Qsv | DecodedPixelFormat::D3D11 => (VideoSubFormat::D3D11, VideoFormat::NV12),
        DecodedPixelFormat::Yuv420p => (VideoSubFormat::SW, VideoFormat::I420),
        DecodedPixelFormat::VideoToolbox => (VideoSubFormat::CvPixelBufferRef, pixel_buffer_format),
    }
}

/// What a renderer is handed for a frame.
#[derive(Debug, Clone, Copy, PartialEq, Eq)]
pub enum RenderTexture {
    /// A Direct3D 11 texture holding a frame of this format.
    D3D11Texture(VideoFormat),
    /// A CoreVideo pixel buffer used directly as a texture.
    PixelBufferTexture(VideoFormat),
    /// The planes of a CoreVideo pixel buffer, locked and read from memory.
    PixelBufferPlanes(VideoFormat),
    /// Planes in memory, with the byte length of each.
    Planes(VideoFormat, [usize; 3]),
}

/// Which frames a renderer takes on a platform: Direct3D 11 textures of
/// packed or NV12 frames on Windows, pixel buffers on macOS, memory planes
/// everywhere.
pub open spec fn render_supported(platform: Platform, sub_format: VideoSubFormat, format: VideoFormat) -> bool {
    match sub_format {
        VideoSubFormat::D3D11 => platform == Platform::Windows && format != VideoFormat::I420,
        VideoSubFormat::CvPixelBufferRef => platform == Platform::MacOS,
        VideoSubFormat::SW => true,
    }
}

/// How a frame is submitted to a renderer: textures as they are, a pixel
/// buffer as a texture when packed RGB and by its planes otherwise, memory
/// planes with the lengths the frame's line sizes and height give.
pub fn render_texture(
    platform: Platform,
    sub_format: VideoSubFormat,
    format: VideoFormat,
    linesize: [u32; 3],
    height: u32,
) -> (r: RenderTexture)
    requires
        render_supported(platform, sub_format, format),
        sub_format == VideoSubFormat::SW ==> plane_lengths_fit(format, linesize, height),
    ensures
        match sub_format {
            VideoSubFormat::D3D11 => r == RenderTexture::D3D11Texture(format),
            VideoSubFormat::CvPixelBufferRef => if format == VideoFormat::BGRA || format == VideoFormat::RGBA {
                r == RenderTexture::PixelBufferTexture(format)
            } else {
                r == RenderTexture::PixelBufferPlanes(format)
            },
            VideoSubFormat::SW => r matches RenderTexture::Planes(f, lengths) && f == format && forall|i: int|
                0 <= i < 3 ==> lengths[i] as int == #[trigger] plane_lengths_spec(format, linesize, height)[i],
        },
{
    match sub_format {
        VideoSubFormat::D3D11 => RenderTexture::D3D11Texture(format),
        VideoSubFormat::CvPixelBufferRef => {
            if format == VideoFormat::BGRA || format == VideoFormat::RGBA {
                RenderTexture::PixelBufferTexture(format)
            } else {
                RenderTexture::PixelBufferPlanes(format)
            }
        },
        VideoSubFormat::SW => RenderTexture::Planes(format, plane_lengths(format, linesize, height)),
    }
}

} // verus!
