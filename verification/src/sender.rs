use vstd::prelude::*;

use crate::capture::{AudioCaptureSourceDescription, Source, VideoCaptureSourceDescription};
use crate::codec::{CodecType, VideoDecoderType, VideoEncoderType};
use crate::media::{
    MediaAudioStreamDescription, MediaStreamDescription, MediaVideoStreamDescription, Size,
    VideoFormat,
};
use crate::transport::TransportOptions;

verus! {

#[derive(Debug)]
pub enum HylaranaSenderError {
    /// The transport failed, with its message.
    TransportError(String),
    /// Capturing failed, with its message.
    CaptureError(String),
    /// The video encoder failed, with its message.
    VideoEncoderError(String),
    /// The audio encoder failed, with its message.
    AudioEncoderError(String),
}

#[derive(Debug)]
pub enum HylaranaReceiverError {
    /// A thread could not be created, with the message.
    CreateThreadError(String),
    /// The video decoder failed, with its message.
    VideoDecoderError(String),
    /// The audio decoder failed, with its message.
    AudioDecoderError(String),
}

/// Description of video coding.
#[derive(Debug, Clone, Copy, PartialEq, Eq, Structural)]
pub struct VideoOptions {
    pub codec: VideoEncoderType,
    pub frame_rate: u8,
    pub width: u32,
    pub height: u32,
    pub bit_rate: u64,
    pub key_frame_interval: u32,
}

/// Description of the audio encoding.
#[derive(Debug, Clone, Copy, PartialEq, Eq, Structural)]
pub struct AudioOptions {
    pub sample_rate: u64,
    pub bit_rate: u64,
}

/// Options of the media track.
pub struct HylaranaSenderTrackOptions<T> {
    pub source: Source,
    pub options: T,
}

/// Options of the media stream.
pub struct HylaranaSenderMediaOptions {
    pub video: Option<HylaranaSenderTrackOptions<VideoOptions>>,
    pub audio: Option<HylaranaSenderTrackOptions<AudioOptions>>,
}

/// Sender configuration.
pub struct HylaranaSenderOptions {
    pub media: HylaranaSenderMediaOptions,
    pub transport: TransportOptions,
}

/// Receiver configuration.
pub struct HylaranaReceiverOptions {
    pub codec: VideoDecoderType,
    pub transport: TransportOptions,
}

/// The description a receiver needs of a sender's stream: NV12 video as
/// configured, stereo audio as configured.
pub open spec fn sender_description_spec(media: HylaranaSenderMediaOptions) -> MediaStreamDescription {
    MediaStreamDescription {
        video: match media.video {
            Some(it) => Some(
                MediaVideoStreamDescription {
                    format: VideoFormat::NV12,
                    fps: it.options.frame_rate,
                    bit_rate: it.options.bit_rate,
                    size: Size { width: it.options.width, height: it.options.height },
                },
            ),
            None => None,
        },
        audio: match media.audio {
            Some(it) => Some(
                MediaAudioStreamDescription {
                    sample_rate: it.options.sample_rate,
                    bit_rate: it.options.bit_rate,
                    channels: 2,
                },
            ),
            None => None,
        },
    }
}

/// The stream description a sender announces for its options.
pub fn sender_description(media: &HylaranaSenderMediaOptions) -> (d: MediaStreamDescription)
    ensures
        d == sender_description_spec(*media),
{
    let video = match &media.video {
        Some(it) => Some(
            MediaVideoStreamDescription {
                format: VideoFormat::NV12,
                fps: it.options.frame_rate,
                bit_rate: it.options.bit_rate,
                size: Size { width: it.options.width, height: it.options.height },
            },
        ),
        None => None,
    };
    let audio = match &media.audio {
        Some(it) => Some(
            MediaAudioStreamDescription {
                sample_rate: it.options.sample_rate,
                bit_rate: it.options.bit_rate,
                channels: 2,
            },
        ),
        None => None,
    };
    MediaStreamDescription { video, audio }
}

/// What the video capture of a sender is started with: hardware frames
/// whenever the encoder runs on hardware.
pub fn video_capture_description(track: &HylaranaSenderTrackOptions<VideoOptions>) -> (d: VideoCaptureSourceDescription)
    ensures
        d.hardware == (track.options.codec != VideoEncoderType::X265),
        d.fps == track.options.frame_rate,
        d.size == (Size { width: track.options.width, height: track.options.height }),
        d.source.view() == track.source.view(),
{
    VideoCaptureSourceDescription {
        hardware: CodecType::Encoder(track.options.codec).is_hardware(),
        fps: track.options.frame_rate,
        size: Size { width: track.options.width, height: track.options.height },
        source: track.source.clone_source(),
    }
}

/// What the audio capture of a sender is started with; the sample rate is
/// narrowed to 32 bits, wrapping.
pub fn audio_capture_description(track: &HylaranaSenderTrackOptions<AudioOptions>) -> (d: AudioCaptureSourceDescription)
    ensures
        d.sample_rate == track.options.sample_rate as u32,
        d.source.view() == track.source.view(),
{
    AudioCaptureSourceDescription {
        sample_rate: track.options.sample_rate as u32,
        source: track.source.clone_source(),
    }
}

/// Whether the observer is still to be told that the stream closed; it is
/// told once, however many parts of the stream close.
pub struct CloseNotifier {
    working: bool,
}

impl CloseNotifier {
    pub closed spec fn is_working(self) -> bool {
        self.working
    }

    pub fn new() -> (n: CloseNotifier)
        ensures
            n.is_working(),
    {
        CloseNotifier { working: true }
    }

    /// Returns whether the observer is to be told now.
    pub fn close(&mut self) -> (notify: bool)
        ensures
            (notify, final(self).is_working()) == close_step(old(self).is_working()),
    {
        if self.working {
            self.working = false;
            true
        } else {
            false
        }
    }
}

/// One close: whether to notify, and whether the notifier is still working.
pub open spec fn close_step(working: bool) -> (bool, bool) {
    (working, false)
}

/// The observer of a stream hears of its closing at most once: of two
/// closes in a row, at most one notifies, and the second never does.
pub proof fn lemma_close_notifies_once(working: bool)
    ensures
        !close_step(close_step(working).1).0,
        !(close_step(working).0 && close_step(close_step(working).1).0),
{
}

} // verus!
