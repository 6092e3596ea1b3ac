use vstd::prelude::*;

verus! {

/// The size of a window's client area, in pixels.
#[derive(Clone, Copy, Debug, PartialEq, Eq, Structural)]
pub struct ClientArea {
    pub width: u32,
    pub height: u32,
}

impl ClientArea {
    /// The client area spanned by a rectangle given by its edges, or `None`
    /// when the rectangle is inverted (right of left, or bottom above top).
    pub fn from_rect(left: i32, top: i32, right: i32, bottom: i32) -> (r: Option<ClientArea>)
        ensures
            r is Some <==> (left <= right && top <= bottom),
            r matches Some(a) ==> a.width == right - left && a.height == bottom - top,
    {
        if left <= right && top <= bottom {
            let width = (right as i64 - left as i64) as u32;
            let height = (bottom as i64 - top as i64) as u32;
            Some(ClientArea { width, height })
        } else {
            None
        }
    }
}

/// The kinds of window message the program tells apart.
#[derive(Clone, Copy, Debug, PartialEq, Eq, Structural)]
pub enum WindowEvent {
    /// The window is being destroyed.
    Destroy,
    /// A request to leave the message loop.
    Quit,
    /// Any other message.
    Other,
}

/// What one non-blocking poll of the message queue means for the loop.
#[derive(Clone, Copy, Debug, PartialEq, Eq, Structural)]
pub enum PollOutcome {
    Continue,
    Quit,
}

/// What the window procedure does with a message.
#[derive(Clone, Copy, Debug, PartialEq, Eq, Structural)]
pub enum ProcAction {
    /// Post a quit request and report the message as handled (result zero).
    PostQuit,
    /// Leave the message to the default window procedure.
    Default,
}

/// The outcome of a poll that found the message `peeked` (after it was
/// translated and dispatched), or nothing: only a quit message ends the
/// loop, and an empty queue lets the frame go on.
pub fn handle_message(peeked: Option<WindowEvent>) -> (r: PollOutcome)
    ensures
        r == PollOutcome::Quit <==> peeked == Some(WindowEvent::Quit),
{
    match peeked {
        Some(WindowEvent::Quit) => PollOutcome::Quit,
        _ => PollOutcome::Continue,
    }
}

/// The window procedure's decision: destruction posts a quit request,
/// everything else gets the default handling.
pub fn window_proc(event: WindowEvent) -> (r: ProcAction)
    ensures
        r == ProcAction::PostQuit <==> event == WindowEvent::Destroy,
{
    match event {
        WindowEvent::Destroy => ProcAction::PostQuit,
        _ => ProcAction::Default,
    }
}

} // verus!
