use vstd::prelude::*;

verus! {

/// The windows of the application.
#[derive(Debug, Clone, Copy, PartialEq, Eq, Structural)]
pub enum WindowId {
    Main,
    Screen,
}

impl WindowId {
    /// Every window, main first.
    pub fn all() -> (r: [WindowId; 2])
        ensures
            r@ == seq![WindowId::Main, WindowId::Screen],
    {
        let r = [WindowId::Main, WindowId::Screen];
        assert(r@ =~= seq![WindowId::Main, WindowId::Screen]);
        r
    }
}

/// Events a window is sent.
#[derive(Debug, Clone, Copy, PartialEq, Eq, Structural)]
pub enum Events {
    EnableWindow,
    DisableWindow,
    CloseRequested,
}

/// Who a user event is for.
#[derive(Debug, Clone, Copy, PartialEq, Eq, Structural)]
pub enum EventTarget {
    Frontend,
    Remote,
    Main,
}

/// Events for the main loop itself.
#[derive(Debug, Clone, Copy, PartialEq, Eq, Structural)]
pub enum MainEvents {
    Shutdown,
}

/// The window that handles a user event: the front end or the remote
/// view; events for the main loop reach no window.
pub fn handling_window(target: EventTarget) -> (r: Option<EventTarget>)
    ensures
        r == (match target {
            EventTarget::Main => None::<EventTarget>,
            t => Some(t),
        }),
{
    match target {
        EventTarget::Frontend => Some(EventTarget::Frontend),
        EventTarget::Remote => Some(EventTarget::Remote),
        EventTarget::Main => None,
    }
}

/// Broadcasting an event sends it to each window once, main first.
pub fn broadcast_targets(event: Events) -> (r: Vec<(WindowId, Events)>)
    ensures
        r@ == seq![(WindowId::Main, event), (WindowId::Screen, event)],
{
    let all = WindowId::all();
    let mut r: Vec<(WindowId, Events)> = Vec::new();
    let mut i: usize = 0;
    while i < 2
        invariant
            i <= 2,
            all@ == seq![WindowId::Main, WindowId::Screen],
            r@.len() == i,
            forall|j: int| 0 <= j < i ==> #[trigger] r@[j] == (all@[j], event),
        decreases 2 - i,
    {
        r.push((all[i], event));
        i = i + 1;
    }
    assert(r@ =~= seq![(WindowId::Main, event), (WindowId::Screen, event)]);
    r
}

} // verus!
