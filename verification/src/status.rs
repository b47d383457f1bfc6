use vstd::prelude::*;

use crate::media::MediaStreamDescription;

verus! {

/// What the application is doing with the media stream.
#[derive(Debug, Clone, Copy, PartialEq, Eq, Structural)]
pub enum Status {
    /// The sender has been created and is sending.
    Sending,
    /// The receiver has been created and is receiving.
    Receiving,
    Idle,
}

impl Default for Status {
    fn default() -> (s: Status)
        ensures
            s == Status::Idle,
    {
        Status::Idle
    }
}

/// Why a stream could not be started.
#[derive(Debug, Clone, Copy, PartialEq, Eq, Structural)]
pub enum StatusError {
    /// A stream is already running.
    NotIdle,
    /// No device name has been set yet.
    NameMissing,
    /// A stream is to be received, but the window to show it in has not
    /// been created.
    WindowNotCreated,
}

/// The kind of stream being started.
#[derive(Debug, Clone, Copy, PartialEq, Eq, Structural)]
pub enum StreamKind {
    Sender,
    Receiver,
}

/// The status that follows starting a stream of `kind`.
pub open spec fn started(kind: StreamKind) -> Status {
    match kind {
        StreamKind::Sender => Status::Sending,
        StreamKind::Receiver => Status::Receiving,
    }
}

/// The stream status of an application, with the device name it has been
/// given. A stream is started only from idle, so sending and receiving
/// never overlap.
pub struct StreamSession {
    status: Status,
    name: Option<String>,
    needs_name: bool,
}

impl StreamSession {
    pub closed spec fn status_view(self) -> Status {
        self.status
    }

    pub closed spec fn name_view(self) -> Option<Seq<char>> {
        match self.name {
            Some(n) => Some(n@),
            None => None,
        }
    }

    /// Whether a stream may only be started once a name is set.
    pub closed spec fn needs_name_view(self) -> bool {
        self.needs_name
    }

    /// An idle session; with `needs_name`, streams wait for a device name.
    pub fn new(needs_name: bool) -> (s: StreamSession)
        ensures
            s.status_view() == Status::Idle,
            s.name_view() is None,
            s.needs_name_view() == needs_name,
    {
        StreamSession { status: Status::Idle, name: None, needs_name }
    }

    pub fn get_status(&self) -> (s: Status)
        ensures
            s == self.status_view(),
    {
        self.status
    }

    pub fn name(&self) -> (r: Option<&String>)
        ensures
            match r {
                Some(n) => self.name_view() == Some(n@),
                None => self.name_view() is None,
            },
    {
        self.name.as_ref()
    }

    pub fn set_name(&mut self, name: String)
        ensures
            final(self).name_view() == Some(name@),
            final(self).status_view() == old(self).status_view(),
            final(self).needs_name_view() == old(self).needs_name_view(),
    {
        self.name = Some(name);
    }

    /// Whether a stream may start now: only when idle, and, where a name is
    /// needed, once it is set.
    pub fn check_start(&self) -> (r: Result<(), StatusError>)
        ensures
            r == start_check(self.status_view(), self.needs_name_view(), self.name_view() is Some),
    {
        if self.status != Status::Idle {
            Err(StatusError::NotIdle)
        } else if self.needs_name && self.name.is_none() {
            Err(StatusError::NameMissing)
        } else {
            Ok(())
        }
    }

    /// Records that a stream of `kind` was created after a successful check.
    pub fn stream_started(&mut self, kind: StreamKind)
        requires
            start_check(old(self).status_view(), old(self).needs_name_view(), old(self).name_view() is Some) is Ok,
        ensures
            final(self).status_view() == started(kind),
            final(self).name_view() == old(self).name_view(),
            final(self).needs_name_view() == old(self).needs_name_view(),
    {
        self.status = match kind {
            StreamKind::Sender => Status::Sending,
            StreamKind::Receiver => Status::Receiving,
        };
    }

    /// Records that the running stream closed.
    pub fn stream_closed(&mut self)
        ensures
            final(self).status_view() == Status::Idle,
            final(self).name_view() == old(self).name_view(),
            final(self).needs_name_view() == old(self).needs_name_view(),
    {
        self.status = Status::Idle;
    }
}

/// What the application tells the other devices about itself: its name
/// and the stream it offers, to the listed addresses or, when none is
/// listed, to everyone.
pub struct Announcement {
    pub targets: Vec<u32>,
    pub name: String,
    pub description: Option<MediaStreamDescription>,
}

impl StreamSession {
    /// Takes the device name and announces it, with no stream, to everyone.
    pub fn on_name(&mut self, name: String) -> (a: Announcement)
        ensures
            final(self).name_view() == Some(name@),
            final(self).status_view() == old(self).status_view(),
            final(self).needs_name_view() == old(self).needs_name_view(),
            a.targets@.len() == 0,
            a.name@ == name@,
            a.description is None,
    {
        let announced = name.clone();
        self.set_name(name);
        Announcement { targets: Vec::new(), name: announced, description: None }
    }

    /// Records that a sender was created after a successful check; the
    /// devices in `targets` (everyone when empty) are told of its stream,
    /// under the device name when one is set.
    pub fn on_sender_created(&mut self, targets: Vec<u32>, description: MediaStreamDescription) -> (a: Option<Announcement>)
        requires
            start_check(old(self).status_view(), old(self).needs_name_view(), old(self).name_view() is Some) is Ok,
        ensures
            final(self).status_view() == Status::Sending,
            final(self).name_view() == old(self).name_view(),
            final(self).needs_name_view() == old(self).needs_name_view(),
            match old(self).name_view() {
                Some(n) => a matches Some(x) && x.targets@ == targets@ && x.name@ == n && x.description == Some(description),
                None => a is None,
            },
    {
        self.stream_started(StreamKind::Sender);
        match &self.name {
            Some(n) => Some(Announcement { targets, name: n.clone(), description: Some(description) }),
            None => None,
        }
    }

    /// Records that the running stream of `kind` closed. When a sender
    /// closes, everyone is told, under the device name when one is set,
    /// that no stream is offered any more.
    pub fn on_stream_closed(&mut self, kind: StreamKind) -> (a: Option<Announcement>)
        ensures
            final(self).status_view() == Status::Idle,
            final(self).name_view() == old(self).name_view(),
            final(self).needs_name_view() == old(self).needs_name_view(),
            match (kind, old(self).name_view()) {
                (StreamKind::Sender, Some(n)) => a matches Some(x) && x.targets@.len() == 0 && x.name@ == n
                    && x.description is None,
                _ => a is None,
            },
    {
        self.stream_closed();
        match (kind, &self.name) {
            (StreamKind::Sender, Some(n)) => Some(Announcement { targets: Vec::new(), name: n.clone(), description: None }),
            _ => None,
        }
    }
}

/// What a change of the settings announces: when the device name changes,
/// everyone is told the new name, with no stream; otherwise nothing.
pub fn rename_announcement(current: &str, new: &str) -> (a: Option<Announcement>)
    ensures
        current@ == new@ ==> a is None,
        current@ != new@ ==> (a matches Some(x) && x.targets@.len() == 0 && x.name@ == new@
            && x.description is None),
{
    if crate::text::str_equals(current, new) {
        None
    } else {
        Some(Announcement { targets: Vec::new(), name: crate::text::owned(new), description: None })
    }
}

/// The window a received stream is shown in: receiving is refused while
/// no window has been created.
pub fn receiver_window<T>(window: Option<T>) -> (r: Result<T, StatusError>)
    ensures
        match window {
            Some(w) => r == Ok::<T, StatusError>(w),
            None => r == Err::<T, StatusError>(StatusError::WindowNotCreated),
        },
{
    match window {
        Some(w) => Ok(w),
        None => Err(StatusError::WindowNotCreated),
    }
}

/// The answer to a request to start a stream.
pub open spec fn start_check(status: Status, needs_name: bool, has_name: bool) -> Result<(), StatusError> {
    if status != Status::Idle {
        Err(StatusError::NotIdle)
    } else if needs_name && !has_name {
        Err(StatusError::NameMissing)
    } else {
        Ok(())
    }
}

/// Once a stream runs, no other stream can start until it closes.
pub proof fn lemma_one_stream_at_a_time(kind: StreamKind, needs_name: bool, has_name: bool)
    ensures
        start_check(started(kind), needs_name, has_name) == Err::<(), StatusError>(StatusError::NotIdle),
        start_check(Status::Idle, needs_name, has_name) is Ok <==> (!needs_name || has_name),
{
}

} // verus!
