use hylarana::frame::{
    copy_buffer_descriptors, create_texture_descriptor, decoded_frame_format,
    get_pixel_buffer_format, pixel_buffer_format_supported, pixel_buffer_plane_lengths, plane_lengths, view_formats, DecodedPixelFormat,
    TextureFormat, TextureKind, CV_PIXEL_FORMAT_32_BGRA, CV_PIXEL_FORMAT_420_BIPLANAR_FULL_RANGE,
    CV_PIXEL_FORMAT_420_BIPLANAR_VIDEO_RANGE, CV_PIXEL_FORMAT_420_PLANAR,
};
use hylarana::media::{Size, VideoFormat, VideoSubFormat};

#[test]
fn renderer_plane_lengths() {
    assert_eq!(plane_lengths(VideoFormat::BGRA, [5120, 0, 0], 720), [3_686_400, 0, 0]);
    assert_eq!(plane_lengths(VideoFormat::NV12, [1280, 1280, 0], 720), [921_600, 921_600, 0]);
    assert_eq!(
        plane_lengths(VideoFormat::I420, [1280, 640, 640], 721),
        [922_880, 230_400, 230_400]
    );
}

#[test]
fn pixel_buffer_planes() {
    let size = Size { width: 1280, height: 720 };
    assert_eq!(
        pixel_buffer_plane_lengths(VideoFormat::NV12, [1280, 1280, 0], size),
        [921_600, 921_600, 0]
    );
    assert_eq!(
        pixel_buffer_plane_lengths(VideoFormat::I420, [1280, 640, 640], size),
        [460_800, 230_400, 230_400]
    );
}

#[test]
fn texture_descriptors() {
    let size = Size { width: 101, height: 51 };
    assert_eq!(
        create_texture_descriptor(TextureKind::Bgra, size),
        vec![(size, TextureFormat::Bgra8Unorm)]
    );
    let half = Size { width: 50, height: 25 };
    assert_eq!(
        create_texture_descriptor(TextureKind::I420, size),
        vec![
            (size, TextureFormat::R8Unorm),
            (half, TextureFormat::R8Unorm),
            (half, TextureFormat::R8Unorm)
        ]
    );
    assert_eq!(
        copy_buffer_descriptors(TextureKind::Rgba, size),
        vec![Size { width: 404, height: 51 }]
    );
    assert_eq!(copy_buffer_descriptors(TextureKind::I420, size), vec![size, half, half]);
}

#[test]
fn core_video_formats() {
    assert_eq!(get_pixel_buffer_format(CV_PIXEL_FORMAT_32_BGRA), VideoFormat::BGRA);
    assert_eq!(get_pixel_buffer_format(0x52474241), VideoFormat::RGBA);
    assert_eq!(get_pixel_buffer_format(CV_PIXEL_FORMAT_420_PLANAR), VideoFormat::I420);
    assert_eq!(get_pixel_buffer_format(CV_PIXEL_FORMAT_420_BIPLANAR_VIDEO_RANGE), VideoFormat::NV12);
    assert_eq!(get_pixel_buffer_format(CV_PIXEL_FORMAT_420_BIPLANAR_FULL_RANGE), VideoFormat::NV12);
    assert!(pixel_buffer_format_supported(CV_PIXEL_FORMAT_32_BGRA));
    assert!(!pixel_buffer_format_supported(0));
    assert!(!pixel_buffer_format_supported(0x79343230 + 1));
}

#[test]
fn decoded_formats() {
    assert_eq!(
        decoded_frame_format(DecodedPixelFormat::Qsv, VideoFormat::BGRA),
        (VideoSubFormat::D3D11, VideoFormat::NV12)
    );
    assert_eq!(
        decoded_frame_format(DecodedPixelFormat::Yuv420p, VideoFormat::BGRA),
        (VideoSubFormat::SW, VideoFormat::I420)
    );
    assert_eq!(
        decoded_frame_format(DecodedPixelFormat::VideoToolbox, VideoFormat::BGRA),
        (VideoSubFormat::CvPixelBufferRef, VideoFormat::BGRA)
    );
}

#[test]
fn view_formats_per_texture() {
    assert_eq!(view_formats(TextureKind::Bgra), vec![TextureFormat::Bgra8Unorm]);
    assert_eq!(view_formats(TextureKind::Rgba), vec![TextureFormat::Rgba8Unorm]);
    assert_eq!(view_formats(TextureKind::I420), vec![TextureFormat::R8Unorm; 3]);
}
