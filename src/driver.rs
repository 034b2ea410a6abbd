use vstd::prelude::*;
use crate::clock::{Elapsed, max_nanos};
use crate::state::{RenderModel, RenderState};

verus! {

/// An event delivered by the window layer, already narrowed to this
/// renderer's window (events of other windows arrive as `Other`).
#[derive(Clone, Copy, Debug, PartialEq, Eq, Structural)]
pub enum LoopEvent {
    CloseRequested,
    EscapePressed,
    Resized { width: u32, height: u32 },
    /// A redraw is due; `dt` is the span since the previous one.
    RedrawRequested { dt: Elapsed },
    /// All pending events have been handled.
    EventsCleared,
    Other,
}

/// What the window and GPU layer does after an event.
#[derive(Clone, Copy, Debug, PartialEq, Eq, Structural)]
pub enum LoopAction {
    Exit,
    /// Configure the surface at this extent.
    ConfigureSurface { width: u32, height: u32 },
    /// Write the time uniform, acquire a texture and act on
    /// `RenderState::frame_action` of the outcome.
    RenderFrame,
    RequestRedraw,
    Wait,
}

/// Whether `ev` can be handled in a state of model `m`: a redraw must not
/// push the time past the largest span.
pub open spec fn event_allowed(m: RenderModel, ev: LoopEvent) -> bool {
    match ev {
        LoopEvent::RedrawRequested { dt } => dt.wf() && m.time + dt.nanos() <= max_nanos(),
        _ => true,
    }
}

/// The model after handling `ev`.
pub open spec fn after_event(m: RenderModel, ev: LoopEvent) -> RenderModel {
    match ev {
        LoopEvent::Resized { width, height } => m.resized(width, height),
        LoopEvent::RedrawRequested { dt } => m.updated(dt.nanos()),
        _ => m,
    }
}

/// The action that handling `ev` asks for.
pub open spec fn event_action(ev: LoopEvent) -> LoopAction {
    match ev {
        LoopEvent::CloseRequested => LoopAction::Exit,
        LoopEvent::EscapePressed => LoopAction::Exit,
        LoopEvent::Resized { width, height } => if width > 0 && height > 0 {
            LoopAction::ConfigureSurface { width, height }
        } else {
            LoopAction::Wait
        },
        LoopEvent::RedrawRequested { .. } => LoopAction::RenderFrame,
        LoopEvent::EventsCleared => LoopAction::RequestRedraw,
        LoopEvent::Other => LoopAction::Wait,
    }
}

impl RenderState {
    /// Handles one event of the driving loop: close and escape end it, a
    /// resize is applied when its extent is positive, a redraw advances the
    /// time and renders a frame, and the end of a batch of events asks for
    /// the next redraw.
    pub fn handle_event(&mut self, ev: LoopEvent) -> (r: LoopAction)
        requires
            old(self).wf(),
            event_allowed(old(self)@, ev),
        ensures
            final(self).wf(),
            final(self)@ == after_event(old(self)@, ev),
            r == event_action(ev),
    {
        match ev {
            LoopEvent::CloseRequested => LoopAction::Exit,
            LoopEvent::EscapePressed => LoopAction::Exit,
            LoopEvent::Resized { width, height } => {
                if self.resize(width, height) {
                    LoopAction::ConfigureSurface { width, height }
                } else {
                    LoopAction::Wait
                }
            },
            LoopEvent::RedrawRequested { dt } => {
                self.update(dt);
                LoopAction::RenderFrame
            },
            LoopEvent::EventsCleared => LoopAction::RequestRedraw,
            LoopEvent::Other => LoopAction::Wait,
        }
    }
}

} // verus!
