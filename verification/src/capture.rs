use vstd::prelude::*;

use crate::media::Size;
use crate::text::owned;

verus! {

/// Video source type or audio source type.
#[derive(Debug, Clone, Copy, PartialEq, Eq, Structural)]
pub enum SourceType {
    /// Cameras, capture cards and virtual cameras.
    Camera,
    /// A desktop or monitor.
    Screen,
    /// Audio input and output devices.
    Audio,
}

/// A video source or audio source.
pub struct Source {
    /// Device ID, usually the symbolic link to the device or the address of
    /// the device file handle.
    pub id: String,
    pub name: String,
    /// The order in which the device was found.
    pub index: usize,
    pub kind: SourceType,
    /// Whether it is the default device.
    pub is_default: bool,
}

pub struct SourceView {
    pub id: Seq<char>,
    pub name: Seq<char>,
    pub index: usize,
    pub kind: SourceType,
    pub is_default: bool,
}

impl Source {
    pub open spec fn view(&self) -> SourceView {
        SourceView {
            id: self.id@,
            name: self.name@,
            index: self.index,
            kind: self.kind,
            is_default: self.is_default,
        }
    }

    pub fn clone_source(&self) -> (r: Source)
        ensures
            r.view() == self.view(),
    {
        Source {
            id: self.id.clone(),
            name: self.name.clone(),
            index: self.index,
            kind: self.kind,
            is_default: self.is_default,
        }
    }
}

pub struct VideoCaptureSourceDescription {
    /// Whether the capturer is asked for hardware frames; it may still
    /// hand out software frames.
    pub hardware: bool,
    pub source: Source,
    pub size: Size,
    pub fps: u8,
}

pub struct AudioCaptureSourceDescription {
    pub source: Source,
    pub sample_rate: u32,
}

pub struct SourceCaptureOptions<T, P> {
    pub description: P,
    pub consumer: T,
}

pub struct CaptureOptions<V, A> {
    pub video: Option<SourceCaptureOptions<V, VideoCaptureSourceDescription>>,
    pub audio: Option<SourceCaptureOptions<A, AudioCaptureSourceDescription>>,
}

impl<V, A> CaptureOptions<V, A> {
    /// Captures nothing.
    pub fn default() -> (o: CaptureOptions<V, A>)
        ensures
            o.video is None,
            o.audio is None,
    {
        CaptureOptions { video: None, audio: None }
    }
}

/// Receives what a source captures.
pub trait FrameConsumer {
    /// The type of data captured, such as video frames.
    type Frame;

    /// Called with each captured frame; returning false stops capturing.
    fn sink(&mut self, frame: &Self::Frame) -> bool;

    fn close(&mut self);
}

#[derive(Debug)]
pub enum CaptureError {
    /// Audio capture failed, with its message.
    AudioCaptureError(String),
    /// Screen capture failed, with its message.
    ScreenCaptureError(String),
}

#[derive(Debug)]
pub enum CameraCaptureError {
    /// A thread could not be created, with the message.
    CreateThreadError(String),
    /// The platform media API failed, with its message.
    Win32Error(String),
    CreateIMFAttributesError,
    CaptureIsStoped,
    Lock2DError,
    FrameConsumerStoped,
}

#[derive(Debug)]
pub enum ScreenCaptureError {
    /// The platform media API failed, with its message.
    CoreFoundationError(String),
    NotFoundDevice,
}

/// A camera found by the platform: its friendly name and its symbolic link,
/// when the platform reported both.
pub struct CameraDevice {
    pub name: Option<String>,
    pub link: Option<String>,
}

/// The camera sources, in the order found: a camera is listed when both its
/// name and link are known, numbered among the listed ones; the first
/// listed is the default.
pub fn camera_sources(devices: &Vec<CameraDevice>) -> (r: Vec<Source>)
    ensures
        forall|j: int| 0 <= j < r@.len() ==> {
            &&& (#[trigger] r@[j]).index == j
            &&& r@[j].is_default == (j == 0)
            &&& r@[j].kind == SourceType::Camera
        },
        r@.len() == devices@.filter(|d: CameraDevice| d.name is Some && d.link is Some).len(),
        forall|j: int| 0 <= j < r@.len() ==> {
            let d = devices@.filter(|d: CameraDevice| d.name is Some && d.link is Some)[j];
            &&& (#[trigger] r@[j]).name@ == d.name->0@
            &&& r@[j].id@ == d.link->0@
        },
{
    let ghost pred = |d: CameraDevice| d.name is Some && d.link is Some;
    let mut r: Vec<Source> = Vec::new();
    let mut i: usize = 0;
    while i < devices.len()
        invariant
            i <= devices@.len(),
            pred == (|d: CameraDevice| d.name is Some && d.link is Some),
            r@.len() == devices@.take(i as int).filter(pred).len(),
            forall|j: int| 0 <= j < r@.len() ==> {
                &&& (#[trigger] r@[j]).index == j
                &&& r@[j].is_default == (j == 0)
                &&& r@[j].kind == SourceType::Camera
                &&& r@[j].name@ == devices@.take(i as int).filter(pred)[j].name->0@
                &&& r@[j].id@ == devices@.take(i as int).filter(pred)[j].link->0@
            },
        decreases devices@.len() - i,
    {
        let ghost before = devices@.take(i as int).filter(pred);
        proof {
            reveal_with_fuel(Seq::<_>::filter, 1);
            assert(devices@.take(i + 1).drop_last() =~= devices@.take(i as int));
        }
        let d = &devices[i];
        match (&d.name, &d.link) {
            (Some(name), Some(link)) => {
                let index = r.len();
                r.push(
                    Source {
                        is_default: index == 0,
                        kind: SourceType::Camera,
                        index,
                        name: name.clone(),
                        id: link.clone(),
                    },
                );
                assert(devices@.take(i + 1).filter(pred) == before.push(devices@[i as int]));
            },
            _ => {
                assert(devices@.take(i + 1).filter(pred) == before);
            },
        }
        i = i + 1;
    }
    assert(devices@.take(i as int) =~= devices@);
    r
}

/// The audio sources: every output device, then every input device, each
/// numbered by its place in that list; a device is the default when its
/// name is the default output device's name.
pub fn audio_sources(names: &Vec<String>, default_name: &Option<String>) -> (r: Vec<Source>)
    ensures
        r@.len() == names@.len(),
        forall|j: int| 0 <= j < r@.len() ==> {
            &&& (#[trigger] r@[j]).index == j
            &&& r@[j].id@ == names@[j]@
            &&& r@[j].name@ == names@[j]@
            &&& r@[j].kind == SourceType::Audio
            &&& r@[j].is_default == (default_name matches Some(n) && n@ == names@[j]@)
        },
{
    let mut r: Vec<Source> = Vec::new();
    let mut i: usize = 0;
    while i < names.len()
        invariant
            i <= names@.len(),
            r@.len() == i,
            forall|j: int| 0 <= j < i ==> {
                &&& (#[trigger] r@[j]).index == j
                &&& r@[j].id@ == names@[j]@
                &&& r@[j].name@ == names@[j]@
                &&& r@[j].kind == SourceType::Audio
                &&& r@[j].is_default == (default_name matches Some(n) && n@ == names@[j]@)
            },
        decreases names@.len() - i,
    {
        let is_default = match default_name {
            Some(n) => *n == names[i],
            None => false,
        };
        r.push(
            Source {
                id: names[i].clone(),
                name: names[i].clone(),
                kind: SourceType::Audio,
                is_default,
                index: i,
            },
        );
        i = i + 1;
    }
    r
}

/// The one audio source of macOS: the sound of the screen.
pub fn screen_audio_sources() -> (r: Vec<Source>)
    ensures
        r@.len() == 1,
        r@[0].name@ == "screen audio"@,
        r@[0].id@ == "screen audio"@,
        r@[0].kind == SourceType::Audio,
        r@[0].is_default,
        r@[0].index == 0,
{
    let mut r: Vec<Source> = Vec::new();
    r.push(
        Source {
            name: owned("screen audio"),
            id: owned("screen audio"),
            kind: SourceType::Audio,
            is_default: true,
            index: 0,
        },
    );
    r
}

} // verus!
