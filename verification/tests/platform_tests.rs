use plugin_canvas::dimensions::{LogicalSize, Scale};
use plugin_canvas::platform::message_window::{
    fresh_class_name, route_message, LoopDecision, MessageAction, MessageFetch, MessageWindow,
    TeardownVerdict, WM_CHAR, WM_KEYDOWN, WM_KEYUP, WM_USER_CHAR, WM_USER_KEY_DOWN, WM_USER_KEY_UP,
};
use plugin_canvas::platform::os_window::{
    CanvasLookup, ListenerKind, ListenerTarget, OsWindow, ParentHandle, TeardownStep,
};
use plugin_canvas::platform::os_window_handle::OsWindowHandle;
use plugin_canvas::keyboard::{key_code_number, virtual_key_to_keycode, KeyCode};
use plugin_canvas::slint_platform::{Clipboard, PluginCanvasPlatform};
use plugin_canvas::thread_bound::ThreadBound;
use plugin_canvas::window::WindowAttributes;

fn attributes() -> WindowAttributes {
    WindowAttributes::new(LogicalSize::new(400, 300), Scale::new(2000))
}

#[test]
fn open_rejects_foreign_handle_kinds() {
    let lookup = CanvasLookup::Found { os_scale: Scale::new(1000) };
    for parent in [
        ParentHandle::Win32 { hwnd: 42 },
        ParentHandle::X11 { window_id: 7, display: 1 },
        ParentHandle::AppKit { view: 3 },
        ParentHandle::Other,
    ] {
        let result = OsWindow::open(parent, attributes(), lookup);
        let error = result.err().unwrap();
        assert_eq!(error.message(), "Not a web window");
    }
}

#[test]
fn open_reports_each_lookup_failure() {
    let parent = ParentHandle::Web { id: 42 };
    let cases = [
        (CanvasLookup::NoBrowserWindow, "No window found".to_string()),
        (CanvasLookup::NoDocument, "No document found".to_string()),
        (CanvasLookup::QueryFailed, "Canvas search failed".to_string()),
        (CanvasLookup::NotFound, "Canvas ID `42` not found".to_string()),
        (
            CanvasLookup::NotACanvas,
            "Canvas could not be casted to `HtmlCanvasElement`".to_string(),
        ),
    ];
    for (lookup, message) in cases {
        let result = OsWindow::open(parent, attributes(), lookup);
        assert_eq!(result.err().unwrap().message(), &message);
    }
}

#[test]
fn open_scales_surface_and_registers_all_listeners() {
    let window = OsWindow::open(
        ParentHandle::Web { id: 9 },
        attributes(),
        CanvasLookup::Found { os_scale: Scale::new(1000) },
    )
    .unwrap();
    assert_eq!(window.canvas_id, 9);
    assert_eq!(window.surface_width, 800);
    assert_eq!(window.surface_height, 600);
    assert_eq!(window.cursor_style, "default");
    assert!(!window.focused);
    assert!(window.pump_armed);
    assert_eq!(window.listeners.len(), 12);
}

#[test]
fn canvas_selector_embeds_the_id() {
    assert_eq!(OsWindow::canvas_selector(42), "[data-raw-handle=\"42\"]");
    assert_eq!(OsWindow::canvas_selector(0), "[data-raw-handle=\"0\"]");
    assert_eq!(
        OsWindow::canvas_selector(4294967295),
        "[data-raw-handle=\"4294967295\"]"
    );
}

#[test]
fn resized_uses_the_current_platform_scale() {
    let mut window = OsWindow::open(
        ParentHandle::Web { id: 1 },
        WindowAttributes::new(LogicalSize::new(100, 100), Scale::new(1000)),
        CanvasLookup::Found { os_scale: Scale::new(2000) },
    )
    .unwrap();
    window.resized(LogicalSize::new(400, 300));
    assert_eq!(window.surface_width, 800);
    assert_eq!(window.surface_height, 600);
}

#[test]
fn updated_scale_is_requeried_on_resize() {
    let mut window = OsWindow::open(
        ParentHandle::Web { id: 1 },
        WindowAttributes::new(LogicalSize::new(100, 100), Scale::new(1000)),
        CanvasLookup::Found { os_scale: Scale::new(1000) },
    )
    .unwrap();
    window.update_os_scale(Scale::new(3000));
    assert_eq!(window.os_scale(), Scale { milli: 3000 });
    window.resized(LogicalSize::new(10, 20));
    assert_eq!(window.surface_width, 30);
    assert_eq!(window.surface_height, 60);
}

#[test]
fn set_cursor_applies_icon_names_and_default() {
    let mut window = OsWindow::open(
        ParentHandle::Web { id: 1 },
        attributes(),
        CanvasLookup::Found { os_scale: Scale::new(1000) },
    )
    .unwrap();
    window.set_cursor(Some(cursor_icon::CursorIcon::Pointer));
    assert_eq!(window.cursor_style, "pointer");
    window.set_cursor(Some(cursor_icon::CursorIcon::Grabbing));
    assert_eq!(window.cursor_style, "grabbing");
    window.set_cursor(None);
    assert_eq!(window.cursor_style, "default");
}

#[test]
fn set_input_focus_tracks_focus() {
    let mut window = OsWindow::open(
        ParentHandle::Web { id: 1 },
        attributes(),
        CanvasLookup::Found { os_scale: Scale::new(1000) },
    )
    .unwrap();
    window.set_input_focus(true);
    assert!(window.focused);
    window.set_input_focus(false);
    assert!(!window.focused);
    assert!(window.poll_events().is_ok());
}

#[test]
fn teardown_removes_every_listener_before_destroying() {
    let window = OsWindow::open(
        ParentHandle::Web { id: 1 },
        attributes(),
        CanvasLookup::Found { os_scale: Scale::new(1000) },
    )
    .unwrap();
    let plan = window.teardown_plan();
    assert_eq!(plan.len(), window.listeners.len() + 1);
    for (index, listener) in window.listeners.iter().enumerate() {
        assert_eq!(plan[index], TeardownStep::RemoveListener(*listener));
    }
    assert_eq!(plan[plan.len() - 1], TeardownStep::DestroyResources);
}

#[test]
fn listener_kinds_name_their_dom_events_and_targets() {
    assert_eq!(ListenerKind::KeyDown.dom_event_name(), "keydown");
    assert_eq!(ListenerKind::DragDrop.dom_event_name(), "drop");
    assert_eq!(ListenerKind::KeyDown.target(), ListenerTarget::Canvas);
    assert_eq!(ListenerKind::PointerMove.target(), ListenerTarget::BrowserWindow);
    assert_eq!(ListenerKind::Wheel.target(), ListenerTarget::Canvas);
}

#[test]
fn thread_bound_gates_access_by_thread_token() {
    let bound = ThreadBound::new(5u32, 7);
    assert_eq!(bound.owner(), 7);
    assert_eq!(bound.as_ref(7), Some(&5));
    assert!(bound.as_ref(8).is_none());
    assert!(bound.as_ref(0).is_none());
}

#[test]
fn window_handle_gates_access_by_thread_token() {
    let window = OsWindow::open(
        ParentHandle::Web { id: 1 },
        attributes(),
        CanvasLookup::Found { os_scale: Scale::new(1000) },
    )
    .unwrap();
    let mut handle = OsWindowHandle::new(ThreadBound::new(window, 3));
    assert_eq!(handle.owner(), 3);
    assert!(handle.window(3).is_some());
    assert!(handle.window(4).is_none());
    handle.window_mut(3).set_input_focus(true);
    assert!(handle.window(3).unwrap().focused);
}

#[test]
fn message_window_rejects_failed_class_registration() {
    let result = MessageWindow::new(100, 0, 200);
    assert_eq!(result.err().unwrap().message(), "Failed to register window class");
}

#[test]
fn message_window_adopts_native_handles() {
    let window = MessageWindow::new(100, 5, 200).unwrap();
    assert_eq!(window.hwnd, 200);
    assert_eq!(window.main_window_hwnd, 100);
    assert_eq!(window.window_class, 5);
}

#[test]
fn set_focus_picks_hidden_or_main_window() {
    let window = MessageWindow::new(100, 5, 200).unwrap();
    assert_eq!(window.set_focus(true), 200);
    assert_eq!(window.set_focus(false), 100);
}

#[test]
fn class_names_carry_the_prefix_and_differ() {
    let first = fresh_class_name();
    let second = fresh_class_name();
    assert_eq!(first.len(), "plugin-canvas-message-window-".len() + 32);
    assert!(first.starts_with("plugin-canvas-message-window-"));
    assert!(second.starts_with("plugin-canvas-message-window-"));
    assert!(first["plugin-canvas-message-window-".len()..]
        .chars()
        .all(|c| c.is_ascii_digit() || ('a'..='f').contains(&c)));
    assert_ne!(first, second);
}

#[test]
fn route_message_forwards_characters_verbatim() {
    assert_eq!(
        route_message(WM_CHAR, 97, 12345),
        MessageAction::PostToMain { message: WM_USER_CHAR, wparam: 97, lparam: 12345 }
    );
}

#[test]
fn route_message_translates_key_presses() {
    assert_eq!(
        route_message(WM_KEYDOWN, 0x2E, 1),
        MessageAction::PostToMain {
            message: WM_USER_KEY_DOWN,
            wparam: key_code_number(KeyCode::Delete) as usize,
            lparam: 1,
        }
    );
}

#[test]
fn route_message_drops_payload_on_key_release() {
    assert_eq!(
        route_message(WM_KEYUP, 0x26, 999),
        MessageAction::PostToMain {
            message: WM_USER_KEY_UP,
            wparam: key_code_number(KeyCode::ArrowUp) as usize,
            lparam: 0,
        }
    );
}

#[test]
fn route_message_defaults_everything_else() {
    assert_eq!(route_message(0x0200, 1, 2), MessageAction::DefaultProcessing);
}

#[test]
fn virtual_keys_map_to_key_codes() {
    assert_eq!(virtual_key_to_keycode(0x08), KeyCode::Backspace);
    assert_eq!(virtual_key_to_keycode(0x0D), KeyCode::Enter);
    assert_eq!(virtual_key_to_keycode(0x2E), KeyCode::Delete);
    assert_eq!(virtual_key_to_keycode(0x25), KeyCode::ArrowLeft);
    assert_eq!(virtual_key_to_keycode(0x26), KeyCode::ArrowUp);
    assert_eq!(virtual_key_to_keycode(0x27), KeyCode::ArrowRight);
    assert_eq!(virtual_key_to_keycode(0x28), KeyCode::ArrowDown);
    assert_eq!(virtual_key_to_keycode(0x41), KeyCode::Unidentified);
}

#[test]
fn message_loop_stops_when_flag_clears() {
    let window = MessageWindow::new(100, 5, 200).unwrap();
    let trace = vec![
        MessageFetch { running: true, result: 5 },
        MessageFetch { running: true, result: 3 },
        MessageFetch { running: false, result: 9 },
        MessageFetch { running: true, result: 4 },
    ];
    let decisions = window.run(&trace);
    assert_eq!(
        decisions,
        vec![LoopDecision::Dispatch, LoopDecision::Dispatch, LoopDecision::Stop]
    );
}

#[test]
fn message_loop_steps_decide_each_cycle() {
    let window = MessageWindow::new(100, 5, 200).unwrap();
    assert_eq!(window.run_step(false, 5), LoopDecision::Stop);
    assert_eq!(window.run_step(true, -1), LoopDecision::Fatal);
    assert_eq!(window.run_step(true, 0), LoopDecision::Stop);
    assert_eq!(window.run_step(true, 17), LoopDecision::Dispatch);
}

#[test]
fn message_loop_aborts_on_fetch_failure() {
    let window = MessageWindow::new(100, 5, 200).unwrap();
    let trace = vec![
        MessageFetch { running: true, result: -1 },
        MessageFetch { running: true, result: 4 },
    ];
    assert_eq!(window.run(&trace), vec![LoopDecision::Fatal]);
}

#[test]
fn teardown_tolerates_destroy_failure_only() {
    let window = MessageWindow::new(100, 5, 200).unwrap();
    assert_eq!(window.teardown_verdict(false, true), TeardownVerdict::Completed);
    assert_eq!(window.teardown_verdict(true, true), TeardownVerdict::Completed);
    assert_eq!(window.teardown_verdict(true, false), TeardownVerdict::Fatal);
    assert_eq!(window.teardown_verdict(false, false), TeardownVerdict::Fatal);
}

#[test]
fn clipboard_stores_only_on_the_default_clipboard() {
    let mut platform = PluginCanvasPlatform::new();
    assert!(platform.clipboard_text(Clipboard::DefaultClipboard).is_none());
    platform.set_clipboard_text("hello", Clipboard::DefaultClipboard);
    assert_eq!(
        platform.clipboard_text(Clipboard::DefaultClipboard),
        Some("hello".to_string())
    );
    platform.set_clipboard_text("other", Clipboard::SelectionClipboard);
    assert_eq!(
        platform.clipboard_text(Clipboard::DefaultClipboard),
        Some("hello".to_string())
    );
    assert!(platform.clipboard_text(Clipboard::SelectionClipboard).is_none());
}
