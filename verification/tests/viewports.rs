use xframe::event_loop::EventResult;
use xframe::paste::paste_event_text;
use xframe::render_options::{HardwareAcceleration, Renderer};
use xframe::storage::{create_storage, create_storage_with_file, APP_KEY};
use xframe::viewport_events::{
    finish_paint_pass, paint_target, window_event_result, RunningWindowEvent, ViewportFocusState,
    ViewportSize, WindowEventPlan,
};

const ROOT: u64 = 1;

fn plan() -> WindowEventPlan {
    WindowEventPlan {
        end_resize: None,
        begin_resize: None,
        resized: None,
        repaint_asap: false,
        shut_down: false,
        close_viewport: None,
    }
}

#[test]
fn new_focus_state() {
    let s = ViewportFocusState::new(ROOT);
    assert_eq!(s.focused_viewport, Some(ROOT));
    assert_eq!(s.resized_viewport, None);
}

#[test]
fn focus_follows_focus_events() {
    let mut s = ViewportFocusState::new(ROOT);
    assert_eq!(s.on_window_event(Some(5), true, ROOT, false, RunningWindowEvent::Focused(true)), plan());
    assert_eq!(s.focused_viewport, Some(5));
    s.on_window_event(Some(5), true, ROOT, false, RunningWindowEvent::Focused(false));
    assert_eq!(s.focused_viewport, None);
    s.on_window_event(None, false, ROOT, false, RunningWindowEvent::Focused(true));
    assert_eq!(s.focused_viewport, None);
}

#[test]
fn resize_begins_and_ends() {
    let mut s = ViewportFocusState::new(ROOT);
    let p = s.on_window_event(Some(2), true, ROOT, false, RunningWindowEvent::Resized { width: 800, height: 600 });
    assert_eq!(
        p,
        WindowEventPlan {
            begin_resize: Some(2),
            resized: Some(ViewportSize { viewport: 2, width: 800, height: 600 }),
            repaint_asap: true,
            ..plan()
        }
    );
    assert_eq!(s.resized_viewport, Some(2));
    // the next resize of the same viewport ends the tracked resize and begins a new one
    let p = s.on_window_event(Some(2), true, ROOT, false, RunningWindowEvent::Resized { width: 810, height: 600 });
    assert_eq!(p.end_resize, Some(2));
    assert_eq!(p.begin_resize, Some(2));
    // another event of that viewport ends it
    let p = s.on_window_event(Some(2), true, ROOT, false, RunningWindowEvent::Other);
    assert_eq!(p, WindowEventPlan { end_resize: Some(2), ..plan() });
    assert_eq!(s.resized_viewport, None);
}

#[test]
fn zero_size_resize_is_ignored() {
    let mut s = ViewportFocusState::new(ROOT);
    let p = s.on_window_event(Some(2), true, ROOT, false, RunningWindowEvent::Resized { width: 0, height: 0 });
    assert_eq!(p, plan());
    assert_eq!(s.resized_viewport, None);
    let p = s.on_window_event(None, false, ROOT, false, RunningWindowEvent::Resized { width: 5, height: 5 });
    assert_eq!(p, plan());
}

#[test]
fn events_of_other_viewports_keep_the_resize() {
    let mut s = ViewportFocusState::new(ROOT);
    s.on_window_event(Some(2), true, ROOT, false, RunningWindowEvent::Resized { width: 8, height: 6 });
    let p = s.on_window_event(Some(3), true, ROOT, false, RunningWindowEvent::Other);
    assert_eq!(p, plan());
    assert_eq!(s.resized_viewport, Some(2));
}

#[test]
fn close_requests() {
    let mut s = ViewportFocusState::new(ROOT);
    let p = s.on_window_event(Some(ROOT), true, ROOT, true, RunningWindowEvent::CloseRequested);
    assert_eq!(p, WindowEventPlan { shut_down: true, ..plan() });
    let p = s.on_window_event(Some(ROOT), true, ROOT, false, RunningWindowEvent::CloseRequested);
    assert_eq!(p, WindowEventPlan { close_viewport: Some(ROOT), ..plan() });
    let p = s.on_window_event(Some(4), true, ROOT, true, RunningWindowEvent::CloseRequested);
    assert_eq!(p, WindowEventPlan { close_viewport: Some(4), ..plan() });
    let p = s.on_window_event(Some(4), false, ROOT, false, RunningWindowEvent::CloseRequested);
    assert_eq!(p, plan());
    let p = s.on_window_event(None, false, ROOT, true, RunningWindowEvent::CloseRequested);
    assert_eq!(p, plan());
}

#[test]
fn window_event_results() {
    assert_eq!(window_event_result(true, true, true, 3), EventResult::CloseRequested);
    assert_eq!(window_event_result(false, true, true, 3), EventResult::RepaintNow(3));
    assert_eq!(window_event_result(false, true, false, 3), EventResult::RepaintNext(3));
    assert_eq!(window_event_result(false, false, true, 3), EventResult::Wait);
}

#[test]
fn paint_targets() {
    assert_eq!(paint_target(true, false, false, None), Some(EventResult::Wait));
    assert_eq!(paint_target(true, true, false, None), None);
    assert_eq!(paint_target(false, true, true, None), None);
    assert_eq!(paint_target(false, true, false, Some(9)), Some(EventResult::RepaintNext(9)));
    assert_eq!(paint_target(false, true, false, None), Some(EventResult::Wait));
}

#[test]
fn paint_pass_close_decision() {
    assert_eq!(finish_paint_pass(false, true, true, false), (true, EventResult::CloseRequested));
    assert_eq!(finish_paint_pass(false, true, true, true), (false, EventResult::Wait));
    assert_eq!(finish_paint_pass(false, false, true, false), (false, EventResult::Wait));
    assert_eq!(finish_paint_pass(false, true, false, false), (false, EventResult::Wait));
    assert_eq!(finish_paint_pass(true, false, false, true), (true, EventResult::CloseRequested));
}

#[test]
fn paste_text_line_endings() {
    assert_eq!(paste_event_text("a\r\nb\r\n"), Some("a\nb\n".to_string()));
    assert_eq!(paste_event_text("\r\r\n"), Some("\r\n".to_string()));
    assert_eq!(paste_event_text("\r"), Some("\r".to_string()));
    assert_eq!(paste_event_text("\n\r"), Some("\n\r".to_string()));
    assert_eq!(paste_event_text("héllo\r\nwörld"), Some("héllo\nwörld".to_string()));
    assert_eq!(paste_event_text(""), None);
    let long = "x\r\n".repeat(1000);
    assert_eq!(paste_event_text(&long), Some(long.replace("\r\n", "\n")));
}

#[test]
fn renderer_and_acceleration() {
    assert_eq!(Renderer::default(), Renderer::Wgpu);
    assert_eq!(Renderer::Wgpu.to_string(), "wgpu");
    assert_eq!("anything".parse::<Renderer>(), Ok(Renderer::Wgpu));
    assert_ne!(HardwareAcceleration::Required, HardwareAcceleration::Off);
    assert_eq!(HardwareAcceleration::Preferred, HardwareAcceleration::Preferred.clone());
}

#[test]
fn no_persistent_storage() {
    assert!(create_storage("my_app").is_none());
    assert!(create_storage_with_file(std::path::PathBuf::from("/tmp/app.ron")).is_none());
    assert_eq!(APP_KEY, "app");
}
