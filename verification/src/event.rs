//! The unified event model every platform backend translates into, and the
//! conversions shared by the backends.

use vstd::prelude::*;
use crate::dimensions::LogicalPosition;
use crate::drag_drop::{DropData, DropOperation};
use crate::keyboard::{KeyCode, KeyboardModifiers};

verus! {

/// A mouse button. Native button numbers outside the recognized set default
/// to `Left` rather than failing the event pipeline.
#[derive(Clone, Copy, Debug, PartialEq, Eq, Structural)]
pub enum MouseButton {
    Left,
    Right,
    Middle,
}

/// A wheel movement, in pixels or in lines depending on what the native
/// platform reported.
#[derive(Clone, Copy, Debug, PartialEq, Eq, Structural)]
pub enum ScrollDelta {
    LineDelta(i64, i64),
    PixelDelta(i64, i64),
}

/// The closed set of input and lifecycle events delivered to the event
/// callback. Each value is built once per native event and consumed exactly
/// once.
#[derive(Clone, Debug, PartialEq)]
pub enum Event {
    Draw,
    KeyDown { key_code: KeyCode, text: Option<String>, repeat: bool },
    KeyUp { key_code: KeyCode, text: Option<String> },
    KeyboardModifiers { modifiers: KeyboardModifiers },
    MouseButtonDown { button: MouseButton, position: LogicalPosition },
    MouseButtonUp { button: MouseButton, position: LogicalPosition },
    MouseExited,
    MouseMoved { position: LogicalPosition },
    MouseWheel { position: LogicalPosition, delta: ScrollDelta },
    DragEntered { position: LogicalPosition, data: DropData },
    DragExited,
    DragMoved { position: LogicalPosition, data: DropData },
    DragDropped { position: LogicalPosition, data: DropData },
}

impl Event {
    /// Whether this event belongs to a drag gesture, so that a
    /// `DropAccepted` response to it reaches the native drag session.
    pub open spec fn is_drag_event(self) -> bool {
        match self {
            Event::DragEntered { .. } => true,
            Event::DragExited => true,
            Event::DragMoved { .. } => true,
            Event::DragDropped { .. } => true,
            _ => false,
        }
    }
}

/// What the event callback answers: whether the native default behavior is
/// suppressed and, for drag events, which drop operation is advertised back
/// to the platform.
#[derive(Clone, Copy, Debug, PartialEq, Eq, Structural)]
pub enum EventResponse {
    Handled,
    Ignored,
    DropAccepted(DropOperation),
}

/// What the platform glue does to the native event after the callback
/// answered: nothing, suppress the native default action, or additionally
/// advertise a drop operation back to the live native drag session.
#[derive(Clone, Copy, Debug, PartialEq, Eq, Structural)]
pub enum NativeAction {
    Nothing,
    PreventDefault,
    SetDropEffect(DropOperation),
}

/// The native action a callback response asks for on the event it answered:
/// `Handled` suppresses the native default, `Ignored` lets it proceed, and
/// `DropAccepted` sets the drag session's advertised drop effect — but only
/// on a drag event, anywhere else it is ignored.
pub open spec fn spec_response_action(event: Event, response: EventResponse) -> NativeAction {
    match response {
        EventResponse::Handled => NativeAction::PreventDefault,
        EventResponse::Ignored => NativeAction::Nothing,
        EventResponse::DropAccepted(operation) => if event.is_drag_event() {
            NativeAction::SetDropEffect(operation)
        } else {
            NativeAction::Nothing
        },
    }
}

/// Applies the event callback's response: decides what the platform glue
/// answers back to the native event that was translated.
pub fn response_action(event: &Event, response: EventResponse) -> (r: NativeAction)
    ensures
        r == spec_response_action(*event, response),
{
    match response {
        EventResponse::Handled => NativeAction::PreventDefault,
        EventResponse::Ignored => NativeAction::Nothing,
        EventResponse::DropAccepted(operation) => {
            let is_drag = match event {
                Event::DragEntered { .. } => true,
                Event::DragExited => true,
                Event::DragMoved { .. } => true,
                Event::DragDropped { .. } => true,
                _ => false,
            };
            if is_drag {
                NativeAction::SetDropEffect(operation)
            } else {
                NativeAction::Nothing
            }
        },
    }
}

/// The mouse button a native pointer button number translates to.
pub open spec fn spec_convert_button(button: i32) -> MouseButton {
    if button == 0 {
        MouseButton::Left
    } else if button == 1 {
        MouseButton::Middle
    } else if button == 2 {
        MouseButton::Right
    } else {
        MouseButton::Left
    }
}

/// Maps a native pointer button number to a mouse button; unrecognized
/// numbers default to `Left`.
pub fn convert_button(button: i32) -> (r: MouseButton)
    ensures
        r == spec_convert_button(button),
{
    if button == 0 {
        MouseButton::Left
    } else if button == 1 {
        MouseButton::Middle
    } else if button == 2 {
        MouseButton::Right
    } else {
        MouseButton::Left
    }
}

/// The native wheel delta mode that reports deltas in pixels.
pub const DELTA_MODE_PIXEL: u32 = 0;

/// The wheel delta a native delta mode and delta pair translate to: the
/// pixel mode yields a pixel delta, every other mode (lines, and pages as a
/// documented approximation) yields a line delta.
pub open spec fn spec_convert_wheel_delta(delta_mode: u32, delta_x: i64, delta_y: i64) -> ScrollDelta {
    if delta_mode == DELTA_MODE_PIXEL {
        ScrollDelta::PixelDelta(delta_x, delta_y)
    } else {
        ScrollDelta::LineDelta(delta_x, delta_y)
    }
}

/// Translates a native wheel delta. The pixel delta mode yields
/// `PixelDelta`; any other mode yields `LineDelta`.
pub fn convert_wheel_delta(delta_mode: u32, delta_x: i64, delta_y: i64) -> (r: ScrollDelta)
    ensures
        r == spec_convert_wheel_delta(delta_mode, delta_x, delta_y),
{
    if delta_mode == DELTA_MODE_PIXEL {
        ScrollDelta::PixelDelta(delta_x, delta_y)
    } else {
        ScrollDelta::LineDelta(delta_x, delta_y)
    }
}

} // verus!
