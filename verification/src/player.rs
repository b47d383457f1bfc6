use vstd::prelude::*;

use crate::codec::{is_hardware_codec, CodecType, VideoDecoderType, VideoEncoderType};
use crate::media::{MediaStreamDescription, Size, VideoFormat, VideoSubFormat};
use crate::platform::Platform;
use crate::sender::{HylaranaReceiverOptions, HylaranaSenderOptions};
use crate::text::{owned, str_equals};

verus! {

#[derive(Debug)]
pub enum VideoRenderError {
    /// The Direct3D 11 renderer failed, with its message.
    D3D11RendererError(String),
    /// The graphics backend failed, with its message.
    GraphicsError(String),
    InvalidD3D11Texture,
    InvalidBackend,
}

#[derive(Debug)]
pub enum AudioRenderError {
    NotFoundOutputDevice,
    /// The output stream failed, with its message.
    StreamError(String),
    /// Playing failed, with its message.
    PlayError(String),
    SendQueueError,
}

#[derive(Debug)]
pub enum AVFrameStreamPlayerError {
    VideoRenderError(VideoRenderError),
    AudioRenderError(AudioRenderError),
}

/// Back-end implementation of graphics.
#[derive(Debug, Clone, Copy, PartialEq, Eq, Structural)]
pub enum VideoRenderBackend {
    /// Direct3D 11, on Windows only.
    Direct3D11,
    /// WebGPU, on most platforms.
    WebGPU,
}

pub open spec fn backend_name(b: VideoRenderBackend) -> Seq<char> {
    match b {
        VideoRenderBackend::Direct3D11 => "d3d11"@,
        VideoRenderBackend::WebGPU => "webgpu"@,
    }
}

pub open spec fn backend_from_name(s: Seq<char>) -> Option<VideoRenderBackend> {
    if s == "d3d11"@ {
        Some(VideoRenderBackend::Direct3D11)
    } else if s == "webgpu"@ {
        Some(VideoRenderBackend::WebGPU)
    } else {
        None
    }
}

impl VideoRenderBackend {
    pub fn to_string(&self) -> (s: String)
        ensures
            s@ == backend_name(*self),
    {
        match self {
            VideoRenderBackend::Direct3D11 => owned("d3d11"),
            VideoRenderBackend::WebGPU => owned("webgpu"),
        }
    }

    pub fn from_str(s: &str) -> (r: Result<VideoRenderBackend, VideoRenderError>)
        ensures
            match backend_from_name(s@) {
                Some(b) => r matches Ok(x) && x == b,
                None => r matches Err(VideoRenderError::InvalidBackend),
            },
    {
        if str_equals(s, "d3d11") {
            Ok(VideoRenderBackend::Direct3D11)
        } else if str_equals(s, "webgpu") {
            Ok(VideoRenderBackend::WebGPU)
        } else {
            Err(VideoRenderError::InvalidBackend)
        }
    }
}

/// Every backend name parses back to the backend it names.
pub proof fn lemma_backend_name_round_trip(b: VideoRenderBackend)
    ensures
        backend_from_name(backend_name(b)) == Some(b),
{
    reveal_strlit("d3d11");
    reveal_strlit("webgpu");
    assert("d3d11"@.len() == 5 && "webgpu"@.len() == 6);
}

pub struct VideoRenderSurfaceOptions<T> {
    pub window: T,
    pub size: Size,
}

#[derive(Debug, Clone, Copy, PartialEq, Eq, Structural)]
pub struct VideoRenderSourceOptions {
    pub size: Size,
    pub format: VideoFormat,
    pub sub_format: VideoSubFormat,
}

/// Video renderer configuration.
pub struct VideoRenderOptions<T> {
    /// The graphics backend used by the video renderer.
    pub backend: VideoRenderBackend,
    pub surface: VideoRenderSurfaceOptions<T>,
    pub source: VideoRenderSourceOptions,
}

/// Builds a renderer configuration step by step.
pub struct VideoRenderOptionsBuilder<T>(pub VideoRenderOptions<T>);

/// The frames a sender renders locally: BGRA on macOS, NV12 elsewhere,
/// held where its encoder reads them.
pub open spec fn sender_source(
    platform: Platform,
    codec: VideoEncoderType,
    width: u32,
    height: u32,
) -> VideoRenderSourceOptions {
    VideoRenderSourceOptions {
        format: if platform == Platform::MacOS {
            VideoFormat::BGRA
        } else {
            VideoFormat::NV12
        },
        sub_format: match codec {
            VideoEncoderType::X265 => VideoSubFormat::SW,
            VideoEncoderType::Qsv => VideoSubFormat::D3D11,
            VideoEncoderType::VideoToolBox => VideoSubFormat::CvPixelBufferRef,
        },
        size: Size { width, height },
    }
}

/// Where a receiver's decoder leaves its frames, given their format.
pub open spec fn receiver_sub_format(codec: VideoDecoderType, format: VideoFormat) -> VideoSubFormat {
    match codec {
        VideoDecoderType::HEVC => VideoSubFormat::SW,
        VideoDecoderType::Qsv | VideoDecoderType::D3D11 => if format == VideoFormat::I420 {
            VideoSubFormat::SW
        } else {
            VideoSubFormat::D3D11
        },
        VideoDecoderType::VideoToolBox => if format == VideoFormat::BGRA || format
            == VideoFormat::RGBA {
            VideoSubFormat::CvPixelBufferRef
        } else {
            VideoSubFormat::SW
        },
    }
}

/// Frames that come from a software codec are in memory: a receiver with
/// the software decoder, or a sender with the software encoder, renders
/// from memory planes whatever the format. Only a hardware decoder hands
/// out textures or pixel buffers, and I420 frames are always in memory.
pub proof fn lemma_software_codecs_render_from_memory(
    decoder: VideoDecoderType,
    encoder: VideoEncoderType,
    format: VideoFormat,
    platform: Platform,
    width: u32,
    height: u32,
)
    ensures
        !is_hardware_codec(CodecType::Decoder(decoder)) ==> receiver_sub_format(decoder, format) == VideoSubFormat::SW,
        receiver_sub_format(decoder, format) != VideoSubFormat::SW ==> is_hardware_codec(CodecType::Decoder(decoder)),
        format == VideoFormat::I420 ==> receiver_sub_format(decoder, format) == VideoSubFormat::SW,
        !is_hardware_codec(CodecType::Encoder(encoder)) ==> sender_source(platform, encoder, width, height).sub_format
            == VideoSubFormat::SW,
{
}

impl<T> VideoRenderOptionsBuilder<T> {
    /// Starts with WebGPU and an empty NV12 software source.
    pub fn new(surface: VideoRenderSurfaceOptions<T>) -> (b: Self)
        ensures
            b.0.backend == VideoRenderBackend::WebGPU,
            b.0.source == (VideoRenderSourceOptions {
                size: Size { width: 0, height: 0 },
                format: VideoFormat::NV12,
                sub_format: VideoSubFormat::SW,
            }),
            b.0.surface == surface,
    {
        VideoRenderOptionsBuilder(
            VideoRenderOptions {
                backend: VideoRenderBackend::WebGPU,
                source: VideoRenderSourceOptions {
                    size: Size { width: 0, height: 0 },
                    format: VideoFormat::NV12,
                    sub_format: VideoSubFormat::SW,
                },
                surface,
            },
        )
    }

    pub fn set_backend(self, backend: VideoRenderBackend) -> (b: Self)
        ensures
            b.0.backend == backend,
            b.0.source == self.0.source,
            b.0.surface == self.0.surface,
    {
        let mut this = self;
        this.0.backend = backend;
        this
    }

    /// Describes the frames of a sender's video track; without a video
    /// track nothing changes.
    pub fn from_sender(self, options: &HylaranaSenderOptions, platform: Platform) -> (b: Self)
        ensures
            b.0.backend == self.0.backend,
            b.0.surface == self.0.surface,
            b.0.source == (match options.media.video {
                Some(it) => sender_source(platform, it.options.codec, it.options.width, it.options.height),
                None => self.0.source,
            }),
    {
        let mut this = self;
        match &options.media.video {
            Some(it) => {
                this.0.source.format = if platform == Platform::MacOS {
                    VideoFormat::BGRA
                } else {
                    VideoFormat::NV12
                };
                this.0.source.sub_format = match it.options.codec {
                    VideoEncoderType::X265 => VideoSubFormat::SW,
                    VideoEncoderType::Qsv => VideoSubFormat::D3D11,
                    VideoEncoderType::VideoToolBox => VideoSubFormat::CvPixelBufferRef,
                };
                this.0.source.size = Size { width: it.options.width, height: it.options.height };
            },
            None => {},
        }
        this
    }

    /// Describes the frames a receiver decodes; without a video stream
    /// nothing changes.
    pub fn from_receiver(self, description: &MediaStreamDescription, options: &HylaranaReceiverOptions) -> (b: Self)
        ensures
            b.0.backend == self.0.backend,
            b.0.surface == self.0.surface,
            b.0.source == (match description.video {
                Some(it) => VideoRenderSourceOptions {
                    format: it.format,
                    size: it.size,
                    sub_format: receiver_sub_format(options.codec, it.format),
                },
                None => self.0.source,
            }),
    {
        let mut this = self;
        match description.video {
            Some(it) => {
                this.0.source.format = it.format;
                this.0.source.size = it.size;
                this.0.source.sub_format = match options.codec {
                    VideoDecoderType::HEVC => VideoSubFormat::SW,
                    VideoDecoderType::Qsv | VideoDecoderType::D3D11 => {
                        if it.format == VideoFormat::I420 {
                            VideoSubFormat::SW
                        } else {
                            VideoSubFormat::D3D11
                        }
                    },
                    VideoDecoderType::VideoToolBox => {
                        if it.format == VideoFormat::BGRA || it.format == VideoFormat::RGBA {
                            VideoSubFormat::CvPixelBufferRef
                        } else {
                            VideoSubFormat::SW
                        }
                    },
                };
            },
            None => {},
        }
        this
    }

    pub fn build(self) -> (o: VideoRenderOptions<T>)
        ensures
            o == self.0,
    {
        self.0
    }
}

/// Configuration of the audio and video streaming player.
pub enum AVFrameStreamPlayerOptions<T> {
    /// Play video only.
    OnlyVideo(VideoRenderOptions<T>),
    /// Both audio and video will play.
    All(VideoRenderOptions<T>),
    /// Play audio only.
    OnlyAudio,
    /// Nothing plays.
    Quiet,
}

impl<T> AVFrameStreamPlayerOptions<T> {
    /// Whether the player has an audio renderer.
    pub fn plays_audio(&self) -> (r: bool)
        ensures
            r == (*self is All || *self is OnlyAudio),
    {
        match self {
            AVFrameStreamPlayerOptions::All(_) | AVFrameStreamPlayerOptions::OnlyAudio => true,
            _ => false,
        }
    }

    /// Whether the player has a video renderer.
    pub fn plays_video(&self) -> (r: bool)
        ensures
            r == (*self is All || *self is OnlyVideo),
    {
        match self {
            AVFrameStreamPlayerOptions::All(_) | AVFrameStreamPlayerOptions::OnlyVideo(_) => true,
            _ => false,
        }
    }
}

/// Interleaved stereo samples of one audio frame, played from the start.
pub struct AudioSamples {
    sample_rate: u32,
    buffer: Vec<i16>,
    index: usize,
    frames: usize,
}

impl AudioSamples {
    pub closed spec fn samples(self) -> Seq<i16> {
        self.buffer@
    }

    pub closed spec fn position(self) -> usize {
        self.index
    }

    pub closed spec fn sample_rate_view(self) -> u32 {
        self.sample_rate
    }

    pub closed spec fn frames_view(self) -> usize {
        self.frames
    }

    /// Copies the two channels of `frames` frames out of `data`.
    pub fn from_frame(data: &[i16], frames: u32, sample_rate: u32) -> (r: AudioSamples)
        requires
            frames * 2 <= data@.len(),
        ensures
            r.samples() == data@.subrange(0, frames * 2),
            r.position() == 0,
            r.sample_rate_view() == sample_rate,
            r.frames_view() == frames,
    {
        assert(data@.len() == data.len());
        let n: usize = frames as usize * 2;
        let mut buffer: Vec<i16> = Vec::new();
        let mut i: usize = 0;
        while i < n
            invariant
                n == frames * 2,
                n <= data@.len(),
                i <= n,
                buffer@ == data@.subrange(0, i as int),
            decreases n - i,
        {
            buffer.push(data[i]);
            i = i + 1;
            assert(buffer@ =~= data@.subrange(0, i as int));
        }
        AudioSamples { sample_rate, buffer, index: 0, frames: frames as usize }
    }

    pub fn current_frame_len(&self) -> (r: Option<usize>)
        ensures
            r == Some(self.frames_view()),
    {
        Some(self.frames)
    }

    pub fn channels(&self) -> (r: u16)
        ensures
            r == 2,
    {
        2
    }

    pub fn sample_rate(&self) -> (r: u32)
        ensures
            r == self.sample_rate_view(),
    {
        self.sample_rate
    }

    /// The next sample, or `None` past the end; the position advances
    /// either way.
    pub fn next_sample(&mut self) -> (r: Option<i16>)
        requires
            old(self).position() < usize::MAX,
        ensures
            final(self).position() == old(self).position() + 1,
            final(self).samples() == old(self).samples(),
            final(self).sample_rate_view() == old(self).sample_rate_view(),
            final(self).frames_view() == old(self).frames_view(),
            r == (if old(self).position() < old(self).samples().len() {
                Some(old(self).samples()[old(self).position() as int])
            } else {
                None::<i16>
            }),
    {
        let item = if self.index < self.buffer.len() {
            Some(self.buffer[self.index])
        } else {
            None
        };
        self.index = self.index + 1;
        item
    }
}

} // verus!
