//! What the desktop application does when its window or the application is
//! asked to close.
use vstd::prelude::*;

verus! {

/// The events of the window the application reacts to.
#[derive(Debug, Clone, Copy, PartialEq, Eq)]
pub enum WindowEventKind {
    CloseRequested,
    Destroyed,
    Other,
}

/// The events of the application loop it reacts to.
#[derive(Debug, Clone, Copy, PartialEq, Eq)]
pub enum RunEventKind {
    ExitRequested,
    Other,
}

/// What the application does on a window event.
#[derive(Debug, Clone, Copy, PartialEq, Eq)]
pub struct WindowResponse {
    /// Hide the window.
    pub hide_window: bool,
    /// Hide the whole application.
    pub hide_application: bool,
    /// Keep the window from closing.
    pub prevent_close: bool,
    /// Save the size, position and state of the window.
    pub save_window_state: bool,
}

/// A request to close the window hides it (on macOS the whole application)
/// and keeps it open; when the window is destroyed its state is saved; other
/// events are left alone.
pub fn window_event_response(event: &WindowEventKind, is_macos: bool) -> (response: WindowResponse)
    ensures
        response.hide_window == (event is CloseRequested && !is_macos),
        response.hide_application == (event is CloseRequested && is_macos),
        response.prevent_close == (event is CloseRequested),
        response.save_window_state == (event is Destroyed),
{
    match event {
        WindowEventKind::CloseRequested => WindowResponse {
            hide_window: !is_macos,
            hide_application: is_macos,
            prevent_close: true,
            save_window_state: false,
        },
        WindowEventKind::Destroyed => WindowResponse {
            hide_window: false,
            hide_application: false,
            prevent_close: false,
            save_window_state: true,
        },
        WindowEventKind::Other => WindowResponse {
            hide_window: false,
            hide_application: false,
            prevent_close: false,
            save_window_state: false,
        },
    }
}

/// The application keeps running when it is asked to exit; other events of
/// the loop are left alone.
pub fn prevents_exit(event: &RunEventKind) -> (prevent: bool)
    ensures
        prevent == (event is ExitRequested),
{
    match event {
        RunEventKind::ExitRequested => true,
        RunEventKind::Other => false,
    }
}

} // verus!
