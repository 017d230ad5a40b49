use plugin_canvas::dimensions::{LogicalPosition, LogicalSize, PhysicalPosition, Scale};
use plugin_canvas::drag_drop::{drop_data_from_files, drop_effect_name, DropData, DropFile, DropOperation};
use plugin_canvas::event::{
    convert_button, convert_wheel_delta, response_action, Event, EventResponse, MouseButton,
    NativeAction, ScrollDelta,
};
use plugin_canvas::keyboard::{KeyCode, KeyboardModifiers};
use plugin_canvas::platform::os_window::{CanvasLookup, NativeEvent, OsWindow, ParentHandle};
use plugin_canvas::window::WindowAttributes;

fn open_window(os_scale_milli: u32) -> OsWindow {
    let attributes = WindowAttributes::new(LogicalSize::new(400, 300), Scale::new(1000));
    OsWindow::open(
        ParentHandle::Web { id: 1 },
        attributes,
        CanvasLookup::Found { os_scale: Scale::new(os_scale_milli) },
    )
    .unwrap()
}

#[test]
fn convert_button_maps_known_numbers() {
    assert_eq!(convert_button(0), MouseButton::Left);
    assert_eq!(convert_button(1), MouseButton::Middle);
    assert_eq!(convert_button(2), MouseButton::Right);
}

#[test]
fn convert_button_defaults_to_left() {
    assert_eq!(convert_button(7), MouseButton::Left);
    assert_eq!(convert_button(-3), MouseButton::Left);
}

#[test]
fn wheel_pixel_mode_yields_pixel_delta() {
    assert_eq!(convert_wheel_delta(0, 12, -34), ScrollDelta::PixelDelta(12, -34));
}

#[test]
fn wheel_other_modes_yield_line_delta() {
    assert_eq!(convert_wheel_delta(1, 3, 4), ScrollDelta::LineDelta(3, 4));
    assert_eq!(convert_wheel_delta(2, 3, 4), ScrollDelta::LineDelta(3, 4));
    assert_eq!(convert_wheel_delta(99, 3, 4), ScrollDelta::LineDelta(3, 4));
}

#[test]
fn convert_key_maps_named_keys() {
    let converted = OsWindow::convert_key("Backspace".to_string()).unwrap();
    assert_eq!(converted.0, KeyCode::Backspace);
    assert_eq!(converted.1, "Backspace".to_string());
    assert_eq!(OsWindow::convert_key("Enter".to_string()).unwrap().0, KeyCode::Enter);
    assert_eq!(OsWindow::convert_key("Delete".to_string()).unwrap().0, KeyCode::Delete);
    assert_eq!(OsWindow::convert_key("ArrowUp".to_string()).unwrap().0, KeyCode::ArrowUp);
    assert_eq!(OsWindow::convert_key("ArrowDown".to_string()).unwrap().0, KeyCode::ArrowDown);
    assert_eq!(OsWindow::convert_key("ArrowLeft".to_string()).unwrap().0, KeyCode::ArrowLeft);
    assert_eq!(OsWindow::convert_key("ArrowRight".to_string()).unwrap().0, KeyCode::ArrowRight);
}

#[test]
fn convert_key_keeps_single_characters() {
    let converted = OsWindow::convert_key("a".to_string()).unwrap();
    assert_eq!(converted.0, KeyCode::Unidentified);
    assert_eq!(converted.1, "a".to_string());
}

#[test]
fn convert_key_drops_bare_modifier_names() {
    assert!(OsWindow::convert_key("Shift".to_string()).is_none());
    assert!(OsWindow::convert_key("Control".to_string()).is_none());
    assert!(OsWindow::convert_key("".to_string()).is_none());
}

#[test]
fn convert_key_keeps_non_ascii_text() {
    let converted = OsWindow::convert_key("\u{00e4}".to_string()).unwrap();
    assert_eq!(converted.0, KeyCode::Unidentified);
}

#[test]
fn pointer_sequence_preserves_buttons_and_order() {
    let window = open_window(2000);
    let origin = PhysicalPosition::new(10, 30);
    let natives = vec![
        NativeEvent::PointerDown {
            button: 2,
            position: PhysicalPosition::new(110, 230),
            modifiers: KeyboardModifiers::empty(),
        },
        NativeEvent::PointerUp {
            button: 2,
            position: PhysicalPosition::new(110, 230),
            modifiers: KeyboardModifiers::empty(),
        },
        NativeEvent::PointerDown {
            button: 1,
            position: PhysicalPosition::new(14, 34),
            modifiers: KeyboardModifiers::empty(),
        },
    ];
    let mut delivered: Vec<Event> = Vec::new();
    for native in natives {
        delivered.extend(window.translate_event(native, origin));
    }
    let expected_modifiers = Event::KeyboardModifiers { modifiers: KeyboardModifiers::empty() };
    assert_eq!(
        delivered,
        vec![
            expected_modifiers.clone(),
            Event::MouseButtonDown {
                button: MouseButton::Right,
                position: LogicalPosition { x: 50, y: 100 },
            },
            expected_modifiers.clone(),
            Event::MouseButtonUp {
                button: MouseButton::Right,
                position: LogicalPosition { x: 50, y: 100 },
            },
            expected_modifiers,
            Event::MouseButtonDown {
                button: MouseButton::Middle,
                position: LogicalPosition { x: 2, y: 2 },
            },
        ]
    );
}

#[test]
fn key_down_translation_precedes_with_modifiers() {
    let window = open_window(1000);
    let modifiers = KeyboardModifiers::new(false, true, false, true);
    let events = window.translate_event(
        NativeEvent::KeyDown { key: "Enter".to_string(), repeat: true, modifiers },
        PhysicalPosition::new(0, 0),
    );
    assert_eq!(
        events,
        vec![
            Event::KeyboardModifiers { modifiers },
            Event::KeyDown {
                key_code: KeyCode::Enter,
                text: Some("Enter".to_string()),
                repeat: true,
            },
        ]
    );
}

#[test]
fn rejected_key_yields_only_modifiers() {
    let window = open_window(1000);
    let modifiers = KeyboardModifiers::new(true, false, false, false);
    let events = window.translate_event(
        NativeEvent::KeyUp { key: "Alt".to_string(), modifiers },
        PhysicalPosition::new(0, 0),
    );
    assert_eq!(events, vec![Event::KeyboardModifiers { modifiers }]);
}

#[test]
fn wheel_translation_carries_position_and_delta() {
    let window = open_window(2000);
    let events = window.translate_event(
        NativeEvent::Wheel {
            delta_mode: 0,
            delta_x: 8,
            delta_y: -16,
            position: PhysicalPosition::new(20, 40),
            modifiers: KeyboardModifiers::empty(),
        },
        PhysicalPosition::new(0, 0),
    );
    assert_eq!(
        events,
        vec![
            Event::KeyboardModifiers { modifiers: KeyboardModifiers::empty() },
            Event::MouseWheel {
                position: LogicalPosition { x: 10, y: 20 },
                delta: ScrollDelta::PixelDelta(8, -16),
            },
        ]
    );
}

#[test]
fn context_menu_translates_to_nothing_and_is_always_suppressed() {
    let window = open_window(1000);
    let events = window.translate_event(NativeEvent::ContextMenu, PhysicalPosition::new(0, 0));
    assert!(events.is_empty());
    assert!(OsWindow::always_prevents_default(&NativeEvent::ContextMenu));
    assert!(!OsWindow::always_prevents_default(&NativeEvent::DragLeave));
}

#[test]
fn animation_frame_translates_to_draw() {
    let window = open_window(1000);
    let events = window.translate_event(NativeEvent::AnimationFrame, PhysicalPosition::new(0, 0));
    assert_eq!(events, vec![Event::Draw]);
}

#[test]
fn drag_enter_with_files_carries_payload() {
    let window = open_window(1000);
    let events = window.translate_event(
        NativeEvent::DragEnter {
            position: PhysicalPosition::new(5, 6),
            files: Some(vec![
                DropFile { index: 0, name: "a.txt".to_string() },
                DropFile { index: 1, name: "b.txt".to_string() },
            ]),
        },
        PhysicalPosition::new(0, 0),
    );
    assert_eq!(
        events,
        vec![Event::DragEntered {
            position: LogicalPosition { x: 5, y: 6 },
            data: DropData::Files(vec![
                DropFile { index: 0, name: "a.txt".to_string() },
                DropFile { index: 1, name: "b.txt".to_string() },
            ]),
        }]
    );
}

#[test]
fn drag_enter_with_empty_list_yields_empty_payload() {
    let window = open_window(1000);
    let events = window.translate_event(
        NativeEvent::DragEnter { position: PhysicalPosition::new(5, 6), files: Some(vec![]) },
        PhysicalPosition::new(0, 0),
    );
    assert_eq!(
        events,
        vec![Event::DragEntered {
            position: LogicalPosition { x: 5, y: 6 },
            data: DropData::Empty,
        }]
    );
}

#[test]
fn drop_data_collapses_absent_and_empty_lists() {
    assert_eq!(drop_data_from_files(None), DropData::Empty);
    assert_eq!(drop_data_from_files(Some(vec![])), DropData::Empty);
    let file = DropFile { index: 2, name: "x".to_string() };
    assert_eq!(
        drop_data_from_files(Some(vec![file.clone()])),
        DropData::Files(vec![file])
    );
}

#[test]
fn accepted_drop_on_drag_event_sets_copy_effect() {
    let event = Event::DragEntered {
        position: LogicalPosition { x: 5, y: 6 },
        data: DropData::Files(vec![DropFile { index: 0, name: "a.txt".to_string() }]),
    };
    let action = response_action(&event, EventResponse::DropAccepted(DropOperation::Copy));
    assert_eq!(action, NativeAction::SetDropEffect(DropOperation::Copy));
    match action {
        NativeAction::SetDropEffect(operation) => {
            assert_eq!(drop_effect_name(operation), "copy");
        }
        _ => unreachable!(),
    }
}

#[test]
fn drop_effect_names_cover_every_operation() {
    assert_eq!(drop_effect_name(DropOperation::NoOperation), "none");
    assert_eq!(drop_effect_name(DropOperation::Copy), "copy");
    assert_eq!(drop_effect_name(DropOperation::Move), "move");
    assert_eq!(drop_effect_name(DropOperation::Link), "link");
}

#[test]
fn handled_response_prevents_default() {
    let event = Event::MouseMoved { position: LogicalPosition { x: 0, y: 0 } };
    assert_eq!(response_action(&event, EventResponse::Handled), NativeAction::PreventDefault);
    assert_eq!(response_action(&event, EventResponse::Ignored), NativeAction::Nothing);
}

#[test]
fn accepted_drop_outside_drag_events_does_nothing() {
    let event = Event::MouseMoved { position: LogicalPosition { x: 0, y: 0 } };
    let action = response_action(&event, EventResponse::DropAccepted(DropOperation::Move));
    assert_eq!(action, NativeAction::Nothing);
}
