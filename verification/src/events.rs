use vstd::prelude::*;

verus! {

/// A window event, as the decision loop sees it. The binary translates the
/// windowing system's events into these plain values.
#[derive(Clone, Copy, Debug, PartialEq, Eq, Structural)]
pub enum Event {
    /// The window was resized to the given width and height in pixels.
    Resized(u32, u32),
    /// The user asked to close the window.
    CloseRequested,
    /// The window needs to be repainted.
    RedrawRequested,
    /// Any event the renderer does not react to.
    Other,
}

/// What the binary must do in response to one event: propagate a new surface
/// size to the context, render and present one frame at the given surface
/// size, stop the loop, or nothing.
#[derive(Clone, Copy, Debug, PartialEq, Eq, Structural)]
pub enum Action {
    ResizeSurface(u32, u32),
    RenderFrame(u32, u32),
    Stop,
    Ignore,
}

/// The loop is either waiting for events or terminated by a close request.
#[derive(Clone, Copy, Debug, PartialEq, Eq, Structural)]
pub enum Mode {
    Waiting,
    Terminated,
}

/// The whole state the event loop carries between events: its mode and the
/// current presentation surface size.
#[derive(Clone, Copy, Debug, PartialEq, Eq, Structural)]
pub struct LoopState {
    pub mode: Mode,
    pub surface_width: u32,
    pub surface_height: u32,
}

impl LoopState {
    /// A fresh loop: waiting, with the window's initial surface size.
    pub fn new(width: u32, height: u32) -> (s: LoopState)
        ensures
            s.mode == Mode::Waiting,
            s.surface_width == width,
            s.surface_height == height,
    {
        LoopState { mode: Mode::Waiting, surface_width: width, surface_height: height }
    }

    /// The transition relation of the loop. A terminated loop absorbs every
    /// event without acting; a waiting loop records a resize without
    /// rendering, stops on a close request, renders at the current surface
    /// size on a redraw request, and ignores everything else.
    pub open spec fn spec_step(self, event: Event) -> (LoopState, Action) {
        if self.mode is Terminated {
            (self, Action::Ignore)
        } else {
            match event {
                Event::Resized(width, height) => (
                    LoopState { mode: self.mode, surface_width: width, surface_height: height },
                    Action::ResizeSurface(width, height),
                ),
                Event::CloseRequested => (
                    LoopState { mode: Mode::Terminated, ..self },
                    Action::Stop,
                ),
                Event::RedrawRequested => (
                    self,
                    Action::RenderFrame(self.surface_width, self.surface_height),
                ),
                Event::Other => (self, Action::Ignore),
            }
        }
    }

    /// Feed one event to the loop; the new state and the returned action are
    /// exactly what `spec_step` prescribes.
    pub fn step(&mut self, event: Event) -> (action: Action)
        ensures
            (*final(self), action) == old(self).spec_step(event),
    {
        if matches!(self.mode, Mode::Terminated) {
            return Action::Ignore;
        }
        match event {
            Event::Resized(width, height) => {
                self.surface_width = width;
                self.surface_height = height;
                Action::ResizeSurface(width, height)
            },
            Event::CloseRequested => {
                self.mode = Mode::Terminated;
                Action::Stop
            },
            Event::RedrawRequested => {
                Action::RenderFrame(self.surface_width, self.surface_height)
            },
            Event::Other => Action::Ignore,
        }
    }
}

/// A resize never renders by itself, and the next redraw presents at exactly
/// the new dimensions.
pub proof fn lemma_resize_then_redraw(s: LoopState, width: u32, height: u32)
    requires
        s.mode is Waiting,
    ensures
        ({
            let (after_resize, resize_action) = s.spec_step(Event::Resized(width, height));
            let (after_redraw, redraw_action) = after_resize.spec_step(Event::RedrawRequested);
            &&& resize_action == Action::ResizeSurface(width, height)
            &&& !(resize_action is RenderFrame)
            &&& after_resize.mode is Waiting
            &&& after_redraw == after_resize
            &&& redraw_action == Action::RenderFrame(width, height)
        }),
{
}

/// A close request terminates the loop, and a terminated loop processes no
/// further event: every later step leaves the state unchanged and acts on
/// nothing.
pub proof fn lemma_close_terminates(s: LoopState, later: Event)
    requires
        s.mode is Waiting,
    ensures
        ({
            let (after_close, close_action) = s.spec_step(Event::CloseRequested);
            let (after_later, later_action) = after_close.spec_step(later);
            &&& after_close.mode is Terminated
            &&& close_action == Action::Stop
            &&& after_later == after_close
            &&& later_action == Action::Ignore
        }),
{
}

} // verus!
