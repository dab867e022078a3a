//! Decisions of the window event loop.
//!
//! The event loop itself (the windowing library, the lock around the map
//! state, the async renderer setup) lives in the unverified shell. What the
//! loop decides for each event is a pure function, stated and verified
//! here: the shell decodes an incoming event into [`MapWindowEvent`],
//! calls [`window_event_action`], and performs the returned action.

use vstd::prelude::*;

verus! {

/// A window event, reduced to what the map loop reacts to.
#[derive(Clone, Copy, Debug, PartialEq, Eq, Structural)]
pub enum MapWindowEvent {
    /// The user asked to close the window.
    CloseRequested,
    /// The window was resized to the given size in pixels.
    Resized { width: u32, height: u32 },
    /// The windowing system asked for a redraw.
    RedrawRequested,
    /// Any other event, left to the input handler.
    Other,
}

/// What the event loop must do for one event.
#[derive(Clone, Copy, Debug, PartialEq, Eq, Structural)]
pub enum EventAction {
    /// Leave the event loop.
    Exit,
    /// Resize the render backend and the map to the given size.
    Resize { width: u32, height: u32 },
    /// Load the layers and render a frame.
    Redraw,
    /// Hand the event to the user-input processor.
    ForwardToInput,
    /// Do nothing: the event belongs to another window.
    Ignore,
}

/// The action each event maps to.
pub open spec fn window_event_action_spec(own_window: bool, event: MapWindowEvent) -> EventAction {
    if !own_window {
        EventAction::Ignore
    } else {
        match event {
            MapWindowEvent::CloseRequested => EventAction::Exit,
            MapWindowEvent::Resized { width, height } => EventAction::Resize { width, height },
            MapWindowEvent::RedrawRequested => EventAction::Redraw,
            MapWindowEvent::Other => EventAction::ForwardToInput,
        }
    }
}

/// Decides what the event loop does with one window event: events of other
/// windows are ignored; a close request exits; a resize notification
/// resizes backend and map; a redraw request renders a frame; anything
/// else goes to the input processor.
pub fn window_event_action(own_window: bool, event: &MapWindowEvent) -> (a: EventAction)
    ensures
        a == window_event_action_spec(own_window, *event),
{
    if !own_window {
        return EventAction::Ignore;
    }
    match event {
        MapWindowEvent::CloseRequested => EventAction::Exit,
        MapWindowEvent::Resized { width, height } => EventAction::Resize {
            width: *width,
            height: *height,
        },
        MapWindowEvent::RedrawRequested => EventAction::Redraw,
        MapWindowEvent::Other => EventAction::ForwardToInput,
    }
}

} // verus!
