use hylarana::capture::{Source, SourceType};
use hylarana::codec::{VideoDecoderType, VideoEncoderType};
use hylarana::media::{
    MediaStreamDescription, MediaVideoStreamDescription, Size, VideoFormat, VideoSubFormat,
};
use hylarana::platform::Platform;
use hylarana::player::{
    AVFrameStreamPlayerOptions, AudioSamples, VideoRenderBackend, VideoRenderError,
    VideoRenderOptionsBuilder, VideoRenderSourceOptions, VideoRenderSurfaceOptions,
};
use hylarana::sender::{
    HylaranaReceiverOptions, HylaranaSenderMediaOptions, HylaranaSenderOptions,
    HylaranaSenderTrackOptions, VideoOptions,
};
use hylarana::transport::TransportOptions;

fn surface() -> VideoRenderSurfaceOptions<u8> {
    VideoRenderSurfaceOptions { window: 7, size: Size { width: 800, height: 600 } }
}

fn transport() -> TransportOptions {
    TransportOptions {
        mtu: 1400,
        max_bandwidth: -1,
        latency: 20,
        timeout: 2000,
        fec: "b,10".to_string(),
        fc: 32,
    }
}

#[test]
fn backend_names() {
    assert_eq!(VideoRenderBackend::Direct3D11.to_string(), "d3d11");
    assert_eq!(VideoRenderBackend::WebGPU.to_string(), "webgpu");
    for b in [VideoRenderBackend::Direct3D11, VideoRenderBackend::WebGPU] {
        assert_eq!(VideoRenderBackend::from_str(&b.to_string()).unwrap(), b);
    }
    assert!(matches!(
        VideoRenderBackend::from_str("vulkan"),
        Err(VideoRenderError::InvalidBackend)
    ));
}

#[test]
fn builder_defaults_and_backend() {
    let o = VideoRenderOptionsBuilder::new(surface()).build();
    assert_eq!(o.backend, VideoRenderBackend::WebGPU);
    assert_eq!(
        o.source,
        VideoRenderSourceOptions {
            size: Size { width: 0, height: 0 },
            format: VideoFormat::NV12,
            sub_format: VideoSubFormat::SW,
        }
    );
    assert_eq!(o.surface.window, 7);
    let o = VideoRenderOptionsBuilder::new(surface())
        .set_backend(VideoRenderBackend::Direct3D11)
        .build();
    assert_eq!(o.backend, VideoRenderBackend::Direct3D11);
    assert_eq!(o.surface.size, Size { width: 800, height: 600 });
}

fn sender_options(codec: VideoEncoderType) -> HylaranaSenderOptions {
    HylaranaSenderOptions {
        media: HylaranaSenderMediaOptions {
            video: Some(HylaranaSenderTrackOptions {
                source: Source {
                    id: "screen".to_string(),
                    name: "screen".to_string(),
                    index: 0,
                    kind: SourceType::Screen,
                    is_default: true,
                },
                options: VideoOptions {
                    codec,
                    frame_rate: 30,
                    width: 1280,
                    height: 720,
                    bit_rate: 1_000_000,
                    key_frame_interval: 30,
                },
            }),
            audio: None,
        },
        transport: transport(),
    }
}

#[test]
fn builder_from_sender() {
    let o = VideoRenderOptionsBuilder::new(surface())
        .from_sender(&sender_options(VideoEncoderType::VideoToolBox), Platform::MacOS)
        .build();
    assert_eq!(o.source.format, VideoFormat::BGRA);
    assert_eq!(o.source.sub_format, VideoSubFormat::CvPixelBufferRef);
    assert_eq!(o.source.size, Size { width: 1280, height: 720 });
    let o = VideoRenderOptionsBuilder::new(surface())
        .from_sender(&sender_options(VideoEncoderType::Qsv), Platform::Windows)
        .build();
    assert_eq!(o.source.format, VideoFormat::NV12);
    assert_eq!(o.source.sub_format, VideoSubFormat::D3D11);

    let mut audio_only = sender_options(VideoEncoderType::X265);
    audio_only.media.video = None;
    let o = VideoRenderOptionsBuilder::new(surface())
        .from_sender(&audio_only, Platform::Linux)
        .build();
    assert_eq!(o.source.size, Size { width: 0, height: 0 });
}

fn description(format: VideoFormat) -> MediaStreamDescription {
    MediaStreamDescription {
        video: Some(MediaVideoStreamDescription {
            format,
            size: Size { width: 640, height: 480 },
            fps: 30,
            bit_rate: 1_000_000,
        }),
        audio: None,
    }
}

#[test]
fn builder_from_receiver() {
    let qsv = HylaranaReceiverOptions { codec: VideoDecoderType::Qsv, transport: transport() };
    let o = VideoRenderOptionsBuilder::new(surface())
        .from_receiver(&description(VideoFormat::NV12), &qsv)
        .build();
    assert_eq!(o.source.sub_format, VideoSubFormat::D3D11);
    assert_eq!(o.source.size, Size { width: 640, height: 480 });
    let o = VideoRenderOptionsBuilder::new(surface())
        .from_receiver(&description(VideoFormat::I420), &qsv)
        .build();
    assert_eq!(o.source.sub_format, VideoSubFormat::SW);
    assert_eq!(o.source.format, VideoFormat::I420);

    let vt = HylaranaReceiverOptions { codec: VideoDecoderType::VideoToolBox, transport: transport() };
    let o = VideoRenderOptionsBuilder::new(surface())
        .from_receiver(&description(VideoFormat::BGRA), &vt)
        .build();
    assert_eq!(o.source.sub_format, VideoSubFormat::CvPixelBufferRef);

    let none = MediaStreamDescription { video: None, audio: None };
    let o = VideoRenderOptionsBuilder::new(surface()).from_receiver(&none, &vt).build();
    assert_eq!(o.source.format, VideoFormat::NV12);
    assert_eq!(o.source.size, Size { width: 0, height: 0 });
}

#[test]
fn player_options_queries() {
    let all = AVFrameStreamPlayerOptions::All(VideoRenderOptionsBuilder::new(surface()).build());
    assert!(all.plays_audio() && all.plays_video());
    let video = AVFrameStreamPlayerOptions::OnlyVideo(VideoRenderOptionsBuilder::new(surface()).build());
    assert!(!video.plays_audio() && video.plays_video());
    let audio: AVFrameStreamPlayerOptions<u8> = AVFrameStreamPlayerOptions::OnlyAudio;
    assert!(audio.plays_audio() && !audio.plays_video());
    let quiet: AVFrameStreamPlayerOptions<u8> = AVFrameStreamPlayerOptions::Quiet;
    assert!(!quiet.plays_audio() && !quiet.plays_video());
}

#[test]
fn audio_samples_play_in_order() {
    let data = [1i16, -1, 2, -2, 3, -3, 99, 99];
    let mut s = AudioSamples::from_frame(&data, 3, 48_000);
    assert_eq!(s.channels(), 2);
    assert_eq!(s.sample_rate(), 48_000);
    assert_eq!(s.current_frame_len(), Some(3));
    let mut played = Vec::new();
    while let Some(x) = s.next_sample() {
        played.push(x);
    }
    assert_eq!(played, vec![1, -1, 2, -2, 3, -3]);
    assert_eq!(s.next_sample(), None);
}
