//! Decisions of the event loop around the view: which window events reach the
//! input reducer, when the surface is reconfigured, and what follows a draw.

use crate::view::{Event, Key};
use vstd::prelude::*;

verus! {

/// A window event, as far as the viewer tells events apart.
#[derive(Clone, Copy, Debug, PartialEq, Eq, Structural)]
pub enum WindowInput {
    /// The window changed size.
    Resized { width: u32, height: u32 },
    /// The user asked to close the window.
    CloseRequested,
    /// An event for the input reducer.
    Input(Event),
    /// The window wants to be drawn.
    RedrawRequested,
    /// Anything else.
    Other,
}

/// What the event loop does with a window event.
#[derive(Clone, Copy, Debug, PartialEq, Eq, Structural)]
pub enum Step {
    /// Offer the new size to the surface.
    Resize { width: u32, height: u32 },
    /// Leave the event loop.
    Exit,
    /// Hand the event to the input reducer.
    Reduce(Event),
    /// Synchronize and draw a frame.
    Frame,
    /// Nothing.
    Skip,
}

/// How a draw ended.
#[derive(Clone, Copy, Debug, PartialEq, Eq, Structural)]
pub enum DrawOutcome {
    /// The frame was presented.
    Presented,
    /// The surface is outdated.
    Outdated,
    /// The surface was lost.
    Lost,
    /// The draw failed for another reason.
    Failed,
}

/// What follows a draw.
#[derive(Clone, Copy, Debug, PartialEq, Eq, Structural)]
pub enum Recovery {
    /// Go on.
    Proceed,
    /// Offer the window's current size to the surface, and go on.
    Reconfigure,
    /// Report the failure, and go on.
    Report,
}

/// Whether an event is the escape key going down.
pub open spec fn is_escape_press(event: Event) -> bool {
    match event {
        Event::Key { key, pressed, .. } => key == Key::Escape && pressed,
        _ => false,
    }
}

/// The step that a window event asks for.
pub open spec fn step_for(input: WindowInput) -> Step {
    match input {
        WindowInput::Resized { width, height } => Step::Resize { width, height },
        WindowInput::CloseRequested => Step::Exit,
        WindowInput::Input(event) => if is_escape_press(event) {
            Step::Exit
        } else {
            Step::Reduce(event)
        },
        WindowInput::RedrawRequested => Step::Frame,
        WindowInput::Other => Step::Skip,
    }
}

/// What follows a draw that ended in `outcome`.
pub open spec fn recovery_for(outcome: DrawOutcome) -> Recovery {
    match outcome {
        DrawOutcome::Presented => Recovery::Proceed,
        DrawOutcome::Outdated | DrawOutcome::Lost => Recovery::Reconfigure,
        DrawOutcome::Failed => Recovery::Report,
    }
}

/// Decides what the event loop does with a window event.  The escape key
/// going down ends the loop, repeated or not; every other input event goes to
/// the reducer.
pub fn dispatch(input: WindowInput) -> (step: Step)
    ensures
        step == step_for(input),
{
    match input {
        WindowInput::Resized { width, height } => Step::Resize { width, height },
        WindowInput::CloseRequested => Step::Exit,
        WindowInput::Input(event) => {
            match event {
                Event::Key { key, pressed, .. } => {
                    if key == Key::Escape && pressed {
                        Step::Exit
                    } else {
                        Step::Reduce(event)
                    }
                },
                _ => Step::Reduce(event),
            }
        },
        WindowInput::RedrawRequested => Step::Frame,
        WindowInput::Other => Step::Skip,
    }
}

/// Decides what follows a draw.  No outcome ends the loop: a stale surface is
/// reconfigured, any other failure is reported and the frame skipped.
pub fn recover(outcome: DrawOutcome) -> (recovery: Recovery)
    ensures
        recovery == recovery_for(outcome),
{
    match outcome {
        DrawOutcome::Presented => Recovery::Proceed,
        DrawOutcome::Outdated | DrawOutcome::Lost => Recovery::Reconfigure,
        DrawOutcome::Failed => Recovery::Report,
    }
}

/// The size for which the surface is configured.
#[derive(Clone, Copy, Debug, PartialEq, Eq, Structural)]
pub struct SurfaceExtent {
    pub width: u32,
    pub height: u32,
}

impl SurfaceExtent {
    /// Whether a surface can have this size: neither side is zero.
    pub open spec fn presentable(width: u32, height: u32) -> bool {
        width > 0 && height > 0
    }

    /// Takes over a new window size where a surface can have it, and says
    /// whether the surface has to be configured anew.  A size with a zero
    /// side is passed over.
    pub fn resize(&mut self, width: u32, height: u32) -> (reconfigure: bool)
        ensures
            reconfigure == Self::presentable(width, height),
            reconfigure ==> *final(self) == (SurfaceExtent { width, height }),
            !reconfigure ==> *final(self) == *old(self),
    {
        if width > 0 && height > 0 {
            self.width = width;
            self.height = height;
            true
        } else {
            false
        }
    }
}

} // verus!
