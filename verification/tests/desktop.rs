use assistant_core::desktop::{
    prevents_exit, window_event_response, RunEventKind, WindowEventKind, WindowResponse,
};

#[test]
fn close_request_hides_window_and_keeps_it() {
    assert_eq!(
        window_event_response(&WindowEventKind::CloseRequested, false),
        WindowResponse {
            hide_window: true,
            hide_application: false,
            prevent_close: true,
            save_window_state: false,
        }
    );
}

#[test]
fn close_request_on_macos_hides_application() {
    assert_eq!(
        window_event_response(&WindowEventKind::CloseRequested, true),
        WindowResponse {
            hide_window: false,
            hide_application: true,
            prevent_close: true,
            save_window_state: false,
        }
    );
}

#[test]
fn destroyed_window_saves_state() {
    for macos in [false, true] {
        assert_eq!(
            window_event_response(&WindowEventKind::Destroyed, macos),
            WindowResponse {
                hide_window: false,
                hide_application: false,
                prevent_close: false,
                save_window_state: true,
            }
        );
    }
}

#[test]
fn other_window_events_do_nothing() {
    let r = window_event_response(&WindowEventKind::Other, false);
    assert!(!r.hide_window && !r.hide_application && !r.prevent_close && !r.save_window_state);
}

#[test]
fn exit_request_is_prevented() {
    assert!(prevents_exit(&RunEventKind::ExitRequested));
    assert!(!prevents_exit(&RunEventKind::Other));
}
