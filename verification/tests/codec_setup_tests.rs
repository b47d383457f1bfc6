use hylarana::codec::{
    decoder_context_plan, encoder_context_plan, frame_update, hardware_context_plan, CodecError,
    CodecType, CreateVideoContextError, EncoderOutput, EncoderRead, FrameUpdate,
    HardwareContextPlan, HardwareDevice, HardwareFrameFormat, HardwareFramePool,
    VideoDecoderError, VideoDecoderSettings, VideoDecoderType, VideoEncoderError,
    VideoEncoderSettings, VideoEncoderType, CODEC_CONFIG_FLAGS,
};
use hylarana::frame::{render_texture, RenderTexture};
use hylarana::media::{MediaStreamDescription, Size, VideoFormat, VideoSubFormat};
use hylarana::platform::Platform;
use hylarana::status::{receiver_window, rename_announcement, Status, StatusError, StreamKind, StreamSession};

const NONE: HardwareContextPlan = HardwareContextPlan { device: None, frames: None };

fn size() -> Option<Size> {
    Some(Size { width: 1920, height: 1080 })
}

#[test]
fn software_codecs_and_linux_get_no_hardware() {
    let x265 = CodecType::Encoder(VideoEncoderType::X265);
    for p in [Platform::Windows, Platform::MacOS, Platform::Linux] {
        assert_eq!(hardware_context_plan(x265, p, size(), false).unwrap(), NONE);
    }
    let qsv = CodecType::Encoder(VideoEncoderType::Qsv);
    assert_eq!(hardware_context_plan(qsv, Platform::Linux, size(), false).unwrap(), NONE);
}

#[test]
fn windows_hardware_needs_direct3d() {
    let d3d11 = CodecType::Decoder(VideoDecoderType::D3D11);
    assert!(matches!(
        hardware_context_plan(d3d11, Platform::Windows, None, false),
        Err(CreateVideoContextError::MissingDirect3DDevice)
    ));
    assert_eq!(
        hardware_context_plan(d3d11, Platform::Windows, None, true).unwrap(),
        HardwareContextPlan { device: Some(HardwareDevice::D3D11Va), frames: None }
    );
    let qsv_decoder = CodecType::Decoder(VideoDecoderType::Qsv);
    assert_eq!(
        hardware_context_plan(qsv_decoder, Platform::Windows, None, true).unwrap(),
        HardwareContextPlan { device: Some(HardwareDevice::Qsv), frames: None }
    );
}

#[test]
fn hardware_encoders_get_a_frame_pool() {
    let qsv = CodecType::Encoder(VideoEncoderType::Qsv);
    assert_eq!(
        hardware_context_plan(qsv, Platform::Windows, size(), true).unwrap(),
        HardwareContextPlan {
            device: Some(HardwareDevice::Qsv),
            frames: Some(HardwareFramePool {
                format: HardwareFrameFormat::Qsv,
                width: 1920,
                height: 1080,
                initial_pool_size: 5,
            }),
        }
    );
    let vt = CodecType::Encoder(VideoEncoderType::VideoToolBox);
    assert_eq!(
        hardware_context_plan(vt, Platform::MacOS, size(), false).unwrap(),
        HardwareContextPlan {
            device: Some(HardwareDevice::VideoToolbox),
            frames: Some(HardwareFramePool {
                format: HardwareFrameFormat::VideoToolbox,
                width: 1920,
                height: 1080,
                initial_pool_size: 5,
            }),
        }
    );
    let vt_decoder = CodecType::Decoder(VideoDecoderType::VideoToolBox);
    assert_eq!(
        hardware_context_plan(vt_decoder, Platform::MacOS, None, false).unwrap(),
        HardwareContextPlan { device: Some(HardwareDevice::VideoToolbox), frames: None }
    );
}

fn encoder(codec: VideoEncoderType) -> VideoEncoderSettings {
    VideoEncoderSettings {
        codec,
        frame_rate: 30,
        width: 1280,
        height: 720,
        bit_rate: 1_000_000,
        key_frame_interval: 30,
    }
}

#[test]
fn encoder_checks() {
    assert!(matches!(
        encoder_context_plan(encoder(VideoEncoderType::VideoToolBox), Platform::Windows, true),
        Err(VideoEncoderError::CodecError(CodecError::NotSupportCodec))
    ));
    assert!(matches!(
        encoder_context_plan(encoder(VideoEncoderType::Qsv), Platform::Windows, false),
        Err(VideoEncoderError::CreateVideoContextError(CreateVideoContextError::MissingDirect3DDevice))
    ));
    let plan = encoder_context_plan(encoder(VideoEncoderType::Qsv), Platform::Windows, true).unwrap();
    assert_eq!(plan.frames.unwrap().width, 1280);
    assert_eq!(plan.frames.unwrap().height, 720);
    assert_eq!(
        encoder_context_plan(encoder(VideoEncoderType::X265), Platform::Linux, false).unwrap(),
        NONE
    );
}

#[test]
fn decoder_checks() {
    let settings = |codec| VideoDecoderSettings { codec };
    assert!(matches!(
        decoder_context_plan(settings(VideoDecoderType::Qsv), Platform::MacOS, false),
        Err(VideoDecoderError::CodecError(CodecError::NotSupportCodec))
    ));
    assert!(matches!(
        decoder_context_plan(settings(VideoDecoderType::D3D11), Platform::Windows, false),
        Err(VideoDecoderError::CreateVideoContextError(CreateVideoContextError::MissingDirect3DDevice))
    ));
    assert_eq!(decoder_context_plan(settings(VideoDecoderType::HEVC), Platform::Windows, false).unwrap(), NONE);
}

#[test]
fn encoder_hands_out_its_header_once() {
    let mut out = EncoderOutput::new();
    assert_eq!(out.next_read(), EncoderRead::Header);
    assert_eq!(out.next_read(), EncoderRead::Packet);
    assert_eq!(out.next_read(), EncoderRead::Packet);
    assert_eq!(CODEC_CONFIG_FLAGS, 2);
}

#[test]
fn encoder_frame_updates() {
    assert_eq!(
        frame_update(Platform::Windows, VideoEncoderType::Qsv, VideoSubFormat::D3D11),
        FrameUpdate::SetQsvSurface
    );
    assert_eq!(
        frame_update(Platform::Windows, VideoEncoderType::X265, VideoSubFormat::D3D11),
        FrameUpdate::Ignore
    );
    assert_eq!(
        frame_update(Platform::MacOS, VideoEncoderType::VideoToolBox, VideoSubFormat::CvPixelBufferRef),
        FrameUpdate::SetPixelBuffer
    );
    assert_eq!(
        frame_update(Platform::Linux, VideoEncoderType::X265, VideoSubFormat::SW),
        FrameUpdate::CopyPlanes
    );
}

#[test]
fn render_textures() {
    assert_eq!(
        render_texture(Platform::Windows, VideoSubFormat::D3D11, VideoFormat::NV12, [0; 3], 720),
        RenderTexture::D3D11Texture(VideoFormat::NV12)
    );
    assert_eq!(
        render_texture(Platform::MacOS, VideoSubFormat::CvPixelBufferRef, VideoFormat::BGRA, [0; 3], 720),
        RenderTexture::PixelBufferTexture(VideoFormat::BGRA)
    );
    assert_eq!(
        render_texture(Platform::MacOS, VideoSubFormat::CvPixelBufferRef, VideoFormat::I420, [0; 3], 720),
        RenderTexture::PixelBufferPlanes(VideoFormat::I420)
    );
    assert_eq!(
        render_texture(Platform::Linux, VideoSubFormat::SW, VideoFormat::I420, [1280, 640, 640], 720),
        RenderTexture::Planes(VideoFormat::I420, [921_600, 230_400, 230_400])
    );
}

#[test]
fn announcements_follow_the_stream() {
    let mut s = StreamSession::new(true);
    let a = s.on_name("desk".to_string());
    assert!(a.targets.is_empty());
    assert_eq!(a.name, "desk");
    assert!(a.description.is_none());
    assert_eq!(s.check_start(), Ok(()));

    let description = MediaStreamDescription { video: None, audio: None };
    let a = s.on_sender_created(vec![7, 8], description).unwrap();
    assert_eq!(s.get_status(), Status::Sending);
    assert_eq!(a.targets, vec![7, 8]);
    assert_eq!(a.name, "desk");
    assert_eq!(a.description, Some(description));

    let a = s.on_stream_closed(StreamKind::Sender).unwrap();
    assert_eq!(s.get_status(), Status::Idle);
    assert!(a.targets.is_empty() && a.description.is_none());

    s.stream_started(StreamKind::Receiver);
    assert!(s.on_stream_closed(StreamKind::Receiver).is_none());
    assert_eq!(s.get_status(), Status::Idle);
}

#[test]
fn renaming_announces_only_a_change() {
    assert!(rename_announcement("desk", "desk").is_none());
    let a = rename_announcement("desk", "laptop").unwrap();
    assert_eq!(a.name, "laptop");
    assert!(a.targets.is_empty() && a.description.is_none());
}

#[test]
fn receiving_needs_a_window() {
    assert_eq!(receiver_window(Some(7u8)), Ok(7));
    assert_eq!(receiver_window::<u8>(None), Err(StatusError::WindowNotCreated));
}
