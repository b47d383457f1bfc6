use vstd::prelude::*;

verus! {

#[derive(Debug)]
pub enum HylaranaError {
    /// The Windows API failed, with its message.
    Win32Error(String),
    /// The transport failed, with its message.
    TransportError(String),
}

/// Audio and video streaming events observer.
pub trait MediaStreamObserver {
    /// Called when the stream closed: closed by the user, or unable to go on.
    fn close(&self) {
    }
}

impl MediaStreamObserver for () {

}

/// Streaming sink for audio and video frames.
pub trait MediaStreamSink {
    /// The frame type of video.
    type VideoFrame;

    /// The frame type of audio.
    type AudioFrame;

    /// Called with each video frame; returning false closes the stream.
    /// A sink that does not look at video keeps the stream going.
    fn video(&self, frame: &Self::VideoFrame) -> (r: bool)
        default_ensures
            r,
    {
        true
    }

    /// Called with each audio frame; returning false closes the stream.
    /// A sink that does not look at audio keeps the stream going.
    fn audio(&self, frame: &Self::AudioFrame) -> (r: bool)
        default_ensures
            r,
    {
        true
    }
}

/// A line-based channel to the process that drives the application.
pub trait MessageTransport {
    type Error;

    fn send(&self, message: &str) -> Result<(), Self::Error>;

    fn read(&self, message: &mut String) -> Result<String, Self::Error>;
}

/// A status code of the Apple frameworks.
#[derive(Debug, Clone, Copy, PartialEq, Eq, Structural)]
pub struct Error(pub i32);

impl From<i32> for Error {
    fn from(value: i32) -> (r: Error) {
        Error(value)
    }
}

impl vstd::std_specs::convert::FromSpecImpl<i32> for Error {
    open spec fn obeys_from_spec() -> bool {
        true
    }

    open spec fn from_spec(value: i32) -> Error {
        Error(value)
    }
}

/// The kinds of capture that need the user's permission on macOS.
#[derive(Debug, Clone, Copy, PartialEq, Eq, Structural)]
pub enum AVMediaType {
    Video,
    Audio,
}

} // verus!
