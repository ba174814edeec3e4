use quickmirror::shell::{close_requested, handle_window_event, hide_window, show_window};
use quickmirror::shell::{EventResponse, WindowEvent};
use quickmirror::window::WindowState;

#[test]
fn new_window_is_visible_and_focused() {
    let w = WindowState::new();
    assert!(w.visible);
    assert!(w.focused);
}

#[test]
fn hide_on_visible_window_hides_without_error() {
    let mut w = WindowState::new();
    let r = hide_window(&mut w, Ok(()));
    assert_eq!(r, Ok(()));
    assert!(!w.visible);
    assert!(!w.focused);
}

#[test]
fn show_on_hidden_window_shows_and_focuses_without_error() {
    let mut w = WindowState { visible: false, focused: false };
    let r = show_window(&mut w, Ok(()), Ok(()));
    assert_eq!(r, Ok(()));
    assert!(w.visible);
    assert!(w.focused);
}

#[test]
fn hide_failure_reports_message_and_preserves_state() {
    let mut w = WindowState::new();
    let r = hide_window(&mut w, Err(String::from("platform refused to hide")));
    assert_eq!(r, Err(String::from("platform refused to hide")));
    assert!(!r.unwrap_err().is_empty());
    assert!(w.visible);
    assert!(w.focused);
}

#[test]
fn show_failure_reports_message_and_preserves_state() {
    let mut w = WindowState { visible: false, focused: false };
    let r = show_window(&mut w, Err(String::from("platform refused to show")), Ok(()));
    assert_eq!(r, Err(String::from("platform refused to show")));
    assert!(!w.visible);
    assert!(!w.focused);
}

#[test]
fn focus_failure_is_surfaced_and_show_is_not_rolled_back() {
    let mut w = WindowState { visible: false, focused: false };
    let r = show_window(&mut w, Ok(()), Err(String::from("focus denied")));
    assert_eq!(r, Err(String::from("focus denied")));
    assert!(w.visible);
    assert!(!w.focused);
}

#[test]
fn close_request_is_intercepted() {
    let r = handle_window_event(&WindowEvent::CloseRequested);
    assert!(matches!(r, EventResponse::PreventCloseAndHide));
}

#[test]
fn other_events_are_left_alone() {
    let r = handle_window_event(&WindowEvent::Other);
    assert!(matches!(r, EventResponse::Ignore));
}

#[test]
fn every_close_attempt_hides_instead_of_closing() {
    let mut w = WindowState::new();
    let mut attempt: usize = 0;
    while attempt < 3 {
        let r = handle_window_event(&WindowEvent::CloseRequested);
        assert!(matches!(r, EventResponse::PreventCloseAndHide));
        close_requested(&mut w, Ok(()));
        assert!(!w.visible);
        assert!(!w.focused);
        attempt += 1;
    }
}

#[test]
fn close_intercept_swallows_hide_error() {
    let mut w = WindowState::new();
    close_requested(&mut w, Err(String::from("platform refused to hide")));
    assert!(w.visible);
    assert!(w.focused);
}

#[test]
fn empty_platform_message_is_passed_through_unchanged() {
    let mut w = WindowState::new();
    let r = hide_window(&mut w, Err(String::new()));
    assert_eq!(r, Err(String::new()));
    assert!(w.visible);
    assert!(w.focused);
}

#[test]
fn hide_on_already_hidden_window_stays_hidden() {
    let mut w = WindowState { visible: false, focused: false };
    let r = hide_window(&mut w, Ok(()));
    assert_eq!(r, Ok(()));
    assert!(!w.visible);
    assert!(!w.focused);
}

#[test]
fn show_on_visible_focused_window_keeps_it_visible_and_focused() {
    let mut w = WindowState::new();
    let r = show_window(&mut w, Ok(()), Ok(()));
    assert_eq!(r, Ok(()));
    assert!(w.visible);
    assert!(w.focused);
}
