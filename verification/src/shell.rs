use vstd::prelude::*;

use crate::window::WindowState;

verus! {

/// A window event, as far as the shell tells events apart: a request to close
/// the window, or anything else.
#[derive(Clone, Copy, PartialEq, Eq, Structural, Debug)]
pub enum WindowEvent {
    CloseRequested,
    Other,
}

/// What the shell asks the host framework to do with a window event.
#[derive(Clone, Copy, PartialEq, Eq, Structural, Debug)]
pub enum EventResponse {
    /// Suppress the default close handling and hide the window.
    PreventCloseAndHide,
    /// Leave the event to its default handling.
    Ignore,
}

/// The shell's response to a window event: a close request is intercepted,
/// everything else is left to its default handling.
pub open spec fn event_response(e: WindowEvent) -> EventResponse {
    match e {
        WindowEvent::CloseRequested => EventResponse::PreventCloseAndHide,
        WindowEvent::Other => EventResponse::Ignore,
    }
}

/// The window state and the reply of the hide command, given the outcome the
/// platform reported for its hide call. A successful hide takes the window
/// off screen, and off-screen windows hold no focus; a failed one leaves the
/// window as it was, and its message is the reply.
pub open spec fn hide_transition(w: WindowState, hide_call: Result<(), String>) -> (WindowState, Result<(), String>) {
    match hide_call {
        Ok(()) => (WindowState { visible: false, focused: false }, Ok(())),
        Err(m) => (w, Err(m)),
    }
}

/// The window state and the reply of the show command, given the outcomes the
/// platform reported for its show call and for its focus call. The host makes
/// the focus call only after a successful show call, so the focus outcome
/// matters only then. A failed focus call is reported, but the show is not
/// rolled back: the window stays on screen.
pub open spec fn show_transition(
    w: WindowState,
    show_call: Result<(), String>,
    focus_call: Result<(), String>,
) -> (WindowState, Result<(), String>) {
    match show_call {
        Err(m) => (w, Err(m)),
        Ok(()) => match focus_call {
            Ok(()) => (WindowState { visible: true, focused: true }, Ok(())),
            Err(m) => (WindowState { visible: true, focused: w.focused }, Err(m)),
        },
    }
}

/// The window state after the close intercept, given the outcome the platform
/// reported for its hide call; an error from the hide call is swallowed and
/// leaves the window as it was.
pub open spec fn close_transition(w: WindowState, hide_call: Result<(), String>) -> WindowState {
    match hide_call {
        Ok(()) => WindowState { visible: false, focused: false },
        Err(_) => w,
    }
}

/// The hide command: the host has made the platform hide call and reports its
/// outcome here; the tracked state is updated and the caller gets the reply.
pub fn hide_window(window: &mut WindowState, hide_call: Result<(), String>) -> (r: Result<(), String>)
    ensures
        (*final(window), r) == hide_transition(*old(window), hide_call),
        old(window).wf() ==> final(window).wf(),
{
    match hide_call {
        Ok(()) => {
            window.visible = false;
            window.focused = false;
            Ok(())
        }
        Err(m) => Err(m),
    }
}

/// The show command: the host reports the platform show call's outcome and,
/// when show succeeded, the focus call's outcome; the tracked state is
/// updated and the caller gets the reply. When show fails, no focus call is
/// made and its argument here is not consulted.
pub fn show_window(
    window: &mut WindowState,
    show_call: Result<(), String>,
    focus_call: Result<(), String>,
) -> (r: Result<(), String>)
    ensures
        (*final(window), r) == show_transition(*old(window), show_call, focus_call),
        old(window).wf() ==> final(window).wf(),
{
    match show_call {
        Err(m) => Err(m),
        Ok(()) => {
            window.visible = true;
            match focus_call {
                Ok(()) => {
                    window.focused = true;
                    Ok(())
                }
                Err(m) => Err(m),
            }
        }
    }
}

/// The close intercept: the host has suppressed the default close handling,
/// made the platform hide call, and reports its outcome here. An error from
/// the hide call is swallowed: the intercept never fails.
pub fn close_requested(window: &mut WindowState, hide_call: Result<(), String>)
    ensures
        *final(window) == close_transition(*old(window), hide_call),
        old(window).wf() ==> final(window).wf(),
{
    match hide_call {
        Ok(()) => {
            window.visible = false;
            window.focused = false;
        }
        Err(_) => {}
    }
}

/// Decide what to do with a window event. A close request is answered with
/// the intercept; no event is ever answered by letting the window close.
pub fn handle_window_event(event: &WindowEvent) -> (r: EventResponse)
    ensures
        r == event_response(*event),
{
    match event {
        WindowEvent::CloseRequested => EventResponse::PreventCloseAndHide,
        WindowEvent::Other => EventResponse::Ignore,
    }
}

/// Hiding a window that is on screen, when the platform hide call succeeds,
/// leaves the window off screen and reports no error.
pub proof fn hide_on_visible_window(w: WindowState, hide_call: Result<(), String>)
    requires
        w.wf(),
        w.visible,
        hide_call is Ok,
    ensures
        !hide_transition(w, hide_call).0.visible,
        hide_transition(w, hide_call).1 is Ok,
{
}

/// Showing a window that is off screen, when the platform show and focus
/// calls both succeed, leaves the window on screen and focused, and reports
/// no error.
pub proof fn show_on_hidden_window(
    w: WindowState,
    show_call: Result<(), String>,
    focus_call: Result<(), String>,
)
    requires
        w.wf(),
        !w.visible,
        show_call is Ok,
        focus_call is Ok,
    ensures
        show_transition(w, show_call, focus_call).0.visible,
        show_transition(w, show_call, focus_call).0.focused,
        show_transition(w, show_call, focus_call).1 is Ok,
{
}

/// A close request is never left to its default handling, which would end the
/// process: whatever the window's state and whatever the platform hide call
/// reports, the response is the intercept, and when the hide call succeeds
/// the window ends up off screen instead of closed. This holds for every
/// close attempt.
pub proof fn close_request_never_closes(w: WindowState, hide_call: Result<(), String>)
    ensures
        event_response(WindowEvent::CloseRequested) is PreventCloseAndHide,
        hide_call is Ok ==> !close_transition(w, hide_call).visible,
        w.wf() ==> close_transition(w, hide_call).wf(),
{
}

/// A failed platform hide or show call leaves the window exactly as it was,
/// and the caller receives the platform's own message. The platform describes
/// its errors in human-readable text, so the message is not empty; given
/// that, the error string the caller receives is not empty either.
pub proof fn failed_call_reports_and_preserves(
    w: WindowState,
    m: String,
    focus_call: Result<(), String>,
)
    requires
        m@.len() > 0,
    ensures
        hide_transition(w, Err(m)).0 == w,
        hide_transition(w, Err(m)).1 matches Err(e) && e@ == m@ && e@.len() > 0,
        show_transition(w, Err(m), focus_call).0 == w,
        show_transition(w, Err(m), focus_call).1 matches Err(e) && e@ == m@ && e@.len() > 0,
{
}

/// When the show call succeeds but the focus call fails, the focus error is
/// surfaced to the caller and the show is not rolled back: the window stays
/// on screen, unfocused if it was unfocused before.
pub proof fn failed_focus_surfaces_error(w: WindowState, m: String)
    requires
        m@.len() > 0,
    ensures
        show_transition(w, Ok(()), Err(m)).0.visible,
        show_transition(w, Ok(()), Err(m)).0.focused == w.focused,
        show_transition(w, Ok(()), Err(m)).1 matches Err(e) && e@ == m@ && e@.len() > 0,
{
}

} // verus!
