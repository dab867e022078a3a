use galileo::events::{window_event_action, EventAction, MapWindowEvent};

#[test]
fn close_request_exits() {
    let a = window_event_action(true, &MapWindowEvent::CloseRequested);
    assert_eq!(a, EventAction::Exit);
}

#[test]
fn resize_event_resizes() {
    let a = window_event_action(true, &MapWindowEvent::Resized { width: 800, height: 600 });
    assert_eq!(a, EventAction::Resize { width: 800, height: 600 });
}

#[test]
fn redraw_request_renders() {
    let a = window_event_action(true, &MapWindowEvent::RedrawRequested);
    assert_eq!(a, EventAction::Redraw);
}

#[test]
fn other_events_go_to_the_input_handler() {
    let a = window_event_action(true, &MapWindowEvent::Other);
    assert_eq!(a, EventAction::ForwardToInput);
}

#[test]
fn foreign_window_events_are_ignored() {
    let a = window_event_action(false, &MapWindowEvent::CloseRequested);
    assert_eq!(a, EventAction::Ignore);
    let a = window_event_action(false, &MapWindowEvent::Resized { width: 1, height: 1 });
    assert_eq!(a, EventAction::Ignore);
}
