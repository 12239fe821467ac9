use crate::event_loop::EventResult;
use vstd::prelude::*;

verus! {

/// The window events whose handling depends on the event itself, for a running
/// app; every other window event is `Other`.
#[derive(PartialEq, Eq, Structural, Debug, Clone, Copy)]
pub enum RunningWindowEvent {
    /// The window gained (`true`) or lost (`false`) the input focus.
    Focused(bool),
    /// The window's inner size changed (physical pixels).
    Resized { width: u32, height: u32 },
    CloseRequested,
    Other,
}

/// Which viewport has the input focus, and which one is being resized by the
/// user (tracked until the next event that is not a resize).
#[derive(PartialEq, Eq, Structural, Debug, Clone, Copy)]
pub struct ViewportFocusState {
    pub focused_viewport: Option<u64>,
    pub resized_viewport: Option<u64>,
}

/// A viewport and its new inner size (physical pixels).
#[derive(PartialEq, Eq, Structural, Debug, Clone, Copy)]
pub struct ViewportSize {
    pub viewport: u64,
    pub width: u32,
    pub height: u32,
}

/// What to do for a window event besides passing it on to egui.
#[derive(PartialEq, Eq, Structural, Debug, Clone, Copy)]
pub struct WindowEventPlan {
    /// Tell the renderer that the resize of this viewport has ended.
    pub end_resize: Option<u64>,
    /// Tell the renderer that the resize of this viewport has begun.
    pub begin_resize: Option<u64>,
    /// Tell the renderer that a viewport got a new size without a zero side.
    pub resized: Option<ViewportSize>,
    /// Repaint synchronously, inside the event handler (after a resize).
    pub repaint_asap: bool,
    /// The root viewport was asked to close after the app agreed to close:
    /// report `CloseRequested` right away.
    pub shut_down: bool,
    /// Tell this viewport to close, and repaint it and its parent.
    pub close_viewport: Option<u64>,
}

/// The resize of the viewport of an event ends when the event arrives while
/// that viewport is the one being resized.
pub open spec fn ending_resize(state: ViewportFocusState, viewport: Option<u64>) -> Option<u64> {
    if viewport is Some && state.resized_viewport == viewport {
        viewport
    } else {
        None
    }
}

/// A resize event of a known viewport to a size without a zero side (a zero
/// size signals a minimized window on Windows).
pub open spec fn effective_resize(viewport: Option<u64>, event: RunningWindowEvent) -> Option<
    ViewportSize,
> {
    match event {
        RunningWindowEvent::Resized { width, height } => if viewport is Some && width != 0
            && height != 0 {
            Some(ViewportSize { viewport: viewport->0, width, height })
        } else {
            None
        },
        _ => None,
    }
}

/// The state after a window event of `viewport`.
///
/// A gained focus makes the viewport the focused one, a lost focus leaves no
/// viewport focused. An effective resize makes the viewport the one being
/// resized; otherwise the resize tracking ends for the viewport of the event.
pub open spec fn state_after_event(
    state: ViewportFocusState,
    viewport: Option<u64>,
    event: RunningWindowEvent,
) -> ViewportFocusState {
    let resized = if ending_resize(state, viewport) is Some {
        None
    } else {
        state.resized_viewport
    };
    ViewportFocusState {
        focused_viewport: match event {
            RunningWindowEvent::Focused(focused) => if focused {
                viewport
            } else {
                None
            },
            _ => state.focused_viewport,
        },
        resized_viewport: if effective_resize(viewport, event) is Some {
            viewport
        } else {
            resized
        },
    }
}

/// The plan for a window event of `viewport` (`None` where no viewport has the
/// window); `viewport_known` says whether the viewport is still in the
/// viewport list, `close` whether the app agreed to close.
pub open spec fn plan_for_event(
    state: ViewportFocusState,
    viewport: Option<u64>,
    viewport_known: bool,
    root: u64,
    close: bool,
    event: RunningWindowEvent,
) -> WindowEventPlan {
    let resized = if ending_resize(state, viewport) is Some {
        None
    } else {
        state.resized_viewport
    };
    let effective = effective_resize(viewport, event);
    let shut_down = event is CloseRequested && viewport == Some(root) && close;
    WindowEventPlan {
        end_resize: ending_resize(state, viewport),
        begin_resize: if effective is Some && resized != viewport {
            viewport
        } else {
            None
        },
        resized: effective,
        repaint_asap: effective is Some,
        shut_down,
        close_viewport: if event is CloseRequested && !shut_down && viewport is Some
            && viewport_known {
            viewport
        } else {
            None
        },
    }
}

impl ViewportFocusState {
    /// The state of a freshly started app: the root viewport has the focus and
    /// nothing is being resized.
    pub fn new(root: u64) -> (s: Self)
        ensures
            s.focused_viewport == Some(root),
            s.resized_viewport is None,
    {
        ViewportFocusState { focused_viewport: Some(root), resized_viewport: None }
    }

    /// Handles a window event of `viewport` (the viewport of the event's
    /// window, if any): tracks the focus and the resize, and says what to tell
    /// the renderer and the viewports.
    ///
    /// On Windows a resize is repainted synchronously so that the compositor
    /// does not flicker; on macOS the renderer is told when a resize begins and
    /// ends, as the frames must follow the resize transactions.
    pub fn on_window_event(
        &mut self,
        viewport: Option<u64>,
        viewport_known: bool,
        root: u64,
        close: bool,
        event: RunningWindowEvent,
    ) -> (r: WindowEventPlan)
        ensures
            *final(self) == state_after_event(*old(self), viewport, event),
            r == plan_for_event(*old(self), viewport, viewport_known, root, close, event),
            event matches RunningWindowEvent::Focused(f) ==> final(self).focused_viewport == (if f {
                viewport
            } else {
                None
            }),
            !(event is Focused) ==> final(self).focused_viewport == old(self).focused_viewport,
            (viewport is Some && event is Resized && event->width != 0 && event->height != 0)
                ==> (r.resized is Some && r.resized->0.viewport == viewport->0 && r.resized->0.width
                == event->width && r.resized->0.height == event->height && r.repaint_asap
                && r.begin_resize == viewport && final(self).resized_viewport == viewport),
            !(viewport is Some && event is Resized && event->width != 0 && event->height != 0)
                ==> (r.resized is None && !r.repaint_asap && r.begin_resize is None),
            (viewport is Some && old(self).resized_viewport == viewport) ==> r.end_resize
                == viewport,
            !(viewport is Some && old(self).resized_viewport == viewport) ==> r.end_resize is None,
            r.shut_down <==> (event is CloseRequested && viewport == Some(root) && close),
            r.close_viewport == (if event is CloseRequested && !r.shut_down && viewport is Some
                && viewport_known {
                viewport
            } else {
                None
            }),
    {
        let mut end_resize = None;
        if viewport.is_some() && self.resized_viewport == viewport {
            end_resize = viewport;
            self.resized_viewport = None;
        }
        let mut begin_resize = None;
        let mut resized = None;
        let mut repaint_asap = false;
        let mut shut_down = false;
        let mut close_viewport = None;
        match event {
            RunningWindowEvent::Focused(focused) => {
                self.focused_viewport = if focused {
                    viewport
                } else {
                    None
                };
            },
            RunningWindowEvent::Resized { width, height } => {
                match viewport {
                    Some(id) => {
                        if width != 0 && height != 0 {
                            if self.resized_viewport != viewport {
                                self.resized_viewport = viewport;
                                begin_resize = viewport;
                            }
                            resized = Some(ViewportSize { viewport: id, width, height });
                            repaint_asap = true;
                        }
                    },
                    None => {},
                }
            },
            RunningWindowEvent::CloseRequested => {
                let is_root = match viewport {
                    Some(id) => id == root,
                    None => false,
                };
                if is_root && close {
                    shut_down = true;
                } else if viewport.is_some() && viewport_known {
                    close_viewport = viewport;
                }
            },
            RunningWindowEvent::Other => {},
        }
        WindowEventPlan { end_resize, begin_resize, resized, repaint_asap, shut_down, close_viewport }
    }
}

/// The event result of a window event: `CloseRequested` once the app agreed
/// to close; else a repaint where egui asks for one (synchronous after a
/// resize, otherwise with the next redraw); else `Wait`.
pub fn window_event_result(close: bool, repaint: bool, repaint_asap: bool, window: u64) -> (r:
    EventResult)
    ensures
        r == (if close {
            EventResult::CloseRequested
        } else if repaint && repaint_asap {
            EventResult::RepaintNow(window)
        } else if repaint {
            EventResult::RepaintNext(window)
        } else {
            EventResult::Wait
        }),
{
    if close {
        EventResult::CloseRequested
    } else if repaint {
        if repaint_asap {
            EventResult::RepaintNow(window)
        } else {
            EventResult::RepaintNext(window)
        }
    } else {
        EventResult::Wait
    }
}

/// The resize tracking follows the resize events: each effective resize
/// reports the begin of a resize of its viewport (after the end of the one that
/// was tracked for it); a tracked viewport stays tracked until its next event
/// that is not an effective resize, which reports the end of its resize; and
/// an end is only reported for the tracked viewport.
pub proof fn lemma_resize_tracking(
    state: ViewportFocusState,
    viewport: Option<u64>,
    viewport_known: bool,
    root: u64,
    close: bool,
    event: RunningWindowEvent,
)
    ensures
        ({
            let next = state_after_event(state, viewport, event);
            let plan = plan_for_event(state, viewport, viewport_known, root, close, event);
            &&& plan.begin_resize is Some <==> effective_resize(viewport, event) is Some
            &&& plan.begin_resize is Some ==> plan.begin_resize == viewport
                && next.resized_viewport == viewport
            &&& (state.resized_viewport is Some && state.resized_viewport == viewport)
                ==> plan.end_resize == viewport
            &&& (state.resized_viewport is Some && state.resized_viewport == viewport
                && effective_resize(viewport, event) is None) ==> next.resized_viewport is None
            &&& plan.end_resize is Some ==> plan.end_resize == state.resized_viewport
        }),
{
}

/// Whether a paint pass of a viewport goes on, or what it reports instead: a
/// viewport that is gone reports `Wait`; a child viewport without its own ui
/// (an immediate viewport) is painted by its parent, so it asks for a repaint
/// of the parent's window, if the parent has one, and else reports `Wait`.
pub fn paint_target(
    is_root: bool,
    viewport_found: bool,
    has_ui_callback: bool,
    parent_window: Option<u64>,
) -> (r: Option<EventResult>)
    ensures
        r == (if !viewport_found {
            Some(EventResult::Wait)
        } else if !is_root && !has_ui_callback {
            match parent_window {
                Some(w) => Some(EventResult::RepaintNext(w)),
                None => Some(EventResult::Wait),
            }
        } else {
            None
        }),
{
    if !viewport_found {
        return Some(EventResult::Wait);
    }
    if !is_root && !has_ui_callback {
        return match parent_window {
            Some(w) => Some(EventResult::RepaintNext(w)),
            None => Some(EventResult::Wait),
        };
    }
    None
}

/// The end of a paint pass: the app closes once the root viewport was asked to
/// close and the app did not cancel it; the pass then reports
/// `CloseRequested`, else `Wait`. Returns the new "close" flag and the pass
/// result.
pub fn finish_paint_pass(close: bool, is_root: bool, close_requested: bool, canceled: bool) -> (r: (
    bool,
    EventResult,
))
    ensures
        r.0 == (close || (is_root && close_requested && !canceled)),
        r.1 == (if r.0 {
            EventResult::CloseRequested
        } else {
            EventResult::Wait
        }),
{
    let close = close || (is_root && close_requested && !canceled);
    if close {
        (close, EventResult::CloseRequested)
    } else {
        (close, EventResult::Wait)
    }
}

} // verus!
