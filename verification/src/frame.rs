use vstd::prelude::*;

verus! {

/// The time between two frames, in nanoseconds (a sixtieth of a second).
pub const FRAME_NANOS: u64 = 16_666_667;

/// The events of the window's event loop that the animation tells apart.
#[derive(PartialEq, Eq, Structural, Debug, Clone, Copy)]
pub enum LoopEvent {
    /// The user asked to close the window.
    CloseRequested,
    /// Any other event addressed to the window.
    OtherWindowEvent,
    /// An event that is not addressed to the window.
    Other,
}

/// What the event loop does once the frame is drawn.
#[derive(PartialEq, Eq, Structural, Debug, Clone, Copy)]
pub enum FrameAction {
    /// Leave the loop.
    Exit,
    /// Sleep until this many nanoseconds after now, then draw again.
    WaitFor { nanos: u64 },
}

/// The loop leaves on a close request and otherwise waits one frame.
pub open spec fn spec_frame_action(event: LoopEvent) -> FrameAction {
    match event {
        LoopEvent::CloseRequested => FrameAction::Exit,
        _ => FrameAction::WaitFor { nanos: FRAME_NANOS },
    }
}

/// Decides what the event loop does after handling `event`.
pub fn frame_action(event: LoopEvent) -> (r: FrameAction)
    ensures
        r == spec_frame_action(event),
{
    match event {
        LoopEvent::CloseRequested => FrameAction::Exit,
        _ => FrameAction::WaitFor { nanos: FRAME_NANOS },
    }
}

} // verus!
