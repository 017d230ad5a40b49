//! The web-canvas window backend.
//!
//! The backend owns a model of the native canvas surface — its identifier,
//! physical dimensions, cursor style, focus and the set of registered native
//! listeners — and computes every decision of the event pipeline:
//! which canvas to look up for a foreign parent handle, how each raw native
//! event translates into unified [`Event`] values, what to answer back to the
//! native drag session, and in which order listeners and resources are torn
//! down. The thin platform glue performs the DOM calls these decisions ask
//! for.

use vstd::prelude::*;
use vstd::string::{StringExecFns, StrSliceExecFns};
use vstd::utf8::is_ascii_chars;

use crate::decimal::{spec_decimal, u32_to_decimal};
use crate::dimensions::{PhysicalPosition, LogicalPosition, LogicalSize, Scale};
use crate::drag_drop::{drop_data_from_files, spec_drop_data_from_files, DropFile};
use crate::error::Error;
use crate::event::{
    convert_button, convert_wheel_delta, spec_convert_button, spec_convert_wheel_delta, Event,
};
use crate::keyboard::{KeyCode, KeyboardModifiers};
use crate::window::WindowAttributes;

verus! {

/// A foreign, platform-tagged window handle supplied by the embedding host.
/// Each variant carries the plain value the platform identifies the parent
/// by; `Other` stands for every remaining platform tag.
#[derive(Clone, Copy, Debug, PartialEq, Eq, Structural)]
pub enum ParentHandle {
    Win32 { hwnd: usize },
    X11 { window_id: u64, display: usize },
    AppKit { view: usize },
    Web { id: u32 },
    Other,
}

/// What the platform glue found when it looked up the canvas element named
/// by the parent handle. A successful lookup reports the platform's current
/// pixel-density scale.
#[derive(Clone, Copy, Debug, PartialEq, Eq, Structural)]
pub enum CanvasLookup {
    Found { os_scale: Scale },
    NoBrowserWindow,
    NoDocument,
    QueryFailed,
    NotFound,
    NotACanvas,
}

/// The native event sources the backend registers. Half listen on the canvas
/// element itself, half on the browser window so gestures that leave the
/// canvas keep reporting.
#[derive(Clone, Copy, Debug, PartialEq, Eq, Structural)]
pub enum ListenerKind {
    KeyDown,
    KeyUp,
    PointerDown,
    PointerUp,
    PointerLeave,
    PointerMove,
    ContextMenu,
    Wheel,
    DragEnter,
    DragLeave,
    DragOver,
    DragDrop,
}

/// Where a native listener is attached.
#[derive(Clone, Copy, Debug, PartialEq, Eq, Structural)]
pub enum ListenerTarget {
    Canvas,
    BrowserWindow,
}

impl ListenerKind {
    /// The target this listener kind is attached to.
    pub open spec fn spec_target(self) -> ListenerTarget {
        match self {
            ListenerKind::KeyDown => ListenerTarget::Canvas,
            ListenerKind::KeyUp => ListenerTarget::Canvas,
            ListenerKind::PointerDown => ListenerTarget::Canvas,
            ListenerKind::PointerUp => ListenerTarget::BrowserWindow,
            ListenerKind::PointerLeave => ListenerTarget::Canvas,
            ListenerKind::PointerMove => ListenerTarget::BrowserWindow,
            ListenerKind::ContextMenu => ListenerTarget::Canvas,
            ListenerKind::Wheel => ListenerTarget::Canvas,
            ListenerKind::DragEnter => ListenerTarget::BrowserWindow,
            ListenerKind::DragLeave => ListenerTarget::BrowserWindow,
            ListenerKind::DragOver => ListenerTarget::BrowserWindow,
            ListenerKind::DragDrop => ListenerTarget::BrowserWindow,
        }
    }

    /// The target this listener kind is attached to.
    pub fn target(self) -> (r: ListenerTarget)
        ensures
            r == self.spec_target(),
    {
        match self {
            ListenerKind::KeyDown => ListenerTarget::Canvas,
            ListenerKind::KeyUp => ListenerTarget::Canvas,
            ListenerKind::PointerDown => ListenerTarget::Canvas,
            ListenerKind::PointerUp => ListenerTarget::BrowserWindow,
            ListenerKind::PointerLeave => ListenerTarget::Canvas,
            ListenerKind::PointerMove => ListenerTarget::BrowserWindow,
            ListenerKind::ContextMenu => ListenerTarget::Canvas,
            ListenerKind::Wheel => ListenerTarget::Canvas,
            ListenerKind::DragEnter => ListenerTarget::BrowserWindow,
            ListenerKind::DragLeave => ListenerTarget::BrowserWindow,
            ListenerKind::DragOver => ListenerTarget::BrowserWindow,
            ListenerKind::DragDrop => ListenerTarget::BrowserWindow,
        }
    }

    /// The DOM event name this listener kind subscribes to.
    pub open spec fn spec_dom_event_name(self) -> Seq<char> {
        match self {
            ListenerKind::KeyDown => "keydown"@,
            ListenerKind::KeyUp => "keyup"@,
            ListenerKind::PointerDown => "pointerdown"@,
            ListenerKind::PointerUp => "pointerup"@,
            ListenerKind::PointerLeave => "pointerleave"@,
            ListenerKind::PointerMove => "pointermove"@,
            ListenerKind::ContextMenu => "contextmenu"@,
            ListenerKind::Wheel => "wheel"@,
            ListenerKind::DragEnter => "dragenter"@,
            ListenerKind::DragLeave => "dragleave"@,
            ListenerKind::DragOver => "dragover"@,
            ListenerKind::DragDrop => "drop"@,
        }
    }

    /// The DOM event name this listener kind subscribes to.
    pub fn dom_event_name(self) -> (r: &'static str)
        ensures
            r@ == self.spec_dom_event_name(),
    {
        match self {
            ListenerKind::KeyDown => "keydown",
            ListenerKind::KeyUp => "keyup",
            ListenerKind::PointerDown => "pointerdown",
            ListenerKind::PointerUp => "pointerup",
            ListenerKind::PointerLeave => "pointerleave",
            ListenerKind::PointerMove => "pointermove",
            ListenerKind::ContextMenu => "contextmenu",
            ListenerKind::Wheel => "wheel",
            ListenerKind::DragEnter => "dragenter",
            ListenerKind::DragLeave => "dragleave",
            ListenerKind::DragOver => "dragover",
            ListenerKind::DragDrop => "drop",
        }
    }
}

/// Every listener the backend registers at open time, in registration order.
pub open spec fn canonical_listeners() -> Seq<ListenerKind> {
    seq![
        ListenerKind::KeyDown,
        ListenerKind::KeyUp,
        ListenerKind::PointerDown,
        ListenerKind::PointerUp,
        ListenerKind::PointerLeave,
        ListenerKind::PointerMove,
        ListenerKind::ContextMenu,
        ListenerKind::Wheel,
        ListenerKind::DragEnter,
        ListenerKind::DragLeave,
        ListenerKind::DragOver,
        ListenerKind::DragDrop,
    ]
}

/// Builds the registration list of every native listener, in order.
fn all_listeners() -> (r: Vec<ListenerKind>)
    ensures
        r@ == canonical_listeners(),
{
    let mut listeners: Vec<ListenerKind> = Vec::new();
    listeners.push(ListenerKind::KeyDown);
    listeners.push(ListenerKind::KeyUp);
    listeners.push(ListenerKind::PointerDown);
    listeners.push(ListenerKind::PointerUp);
    listeners.push(ListenerKind::PointerLeave);
    listeners.push(ListenerKind::PointerMove);
    listeners.push(ListenerKind::ContextMenu);
    listeners.push(ListenerKind::Wheel);
    listeners.push(ListenerKind::DragEnter);
    listeners.push(ListenerKind::DragLeave);
    listeners.push(ListenerKind::DragOver);
    listeners.push(ListenerKind::DragDrop);
    proof {
        assert(listeners@ =~= canonical_listeners());
    }
    listeners
}

/// One step of the teardown a dropped window performs: first every native
/// listener is removed, in registration order, then the owned native
/// resources are destroyed. The order is load-bearing: no native callback
/// may fire into a partially destroyed backend.
#[derive(Clone, Copy, Debug, PartialEq, Eq, Structural)]
pub enum TeardownStep {
    RemoveListener(ListenerKind),
    DestroyResources,
}

/// The raw data of one native input event, as the platform glue hands it
/// over: plain values read off the native event object. Pointer, wheel and
/// drag positions are in physical pixels relative to the page.
#[derive(Clone, Debug, PartialEq)]
pub enum NativeEvent {
    KeyDown { key: String, repeat: bool, modifiers: KeyboardModifiers },
    KeyUp { key: String, modifiers: KeyboardModifiers },
    PointerDown { button: i32, position: PhysicalPosition, modifiers: KeyboardModifiers },
    PointerUp { button: i32, position: PhysicalPosition, modifiers: KeyboardModifiers },
    PointerLeave { modifiers: KeyboardModifiers },
    PointerMove { position: PhysicalPosition, modifiers: KeyboardModifiers },
    ContextMenu,
    Wheel {
        delta_mode: u32,
        delta_x: i64,
        delta_y: i64,
        position: PhysicalPosition,
        modifiers: KeyboardModifiers,
    },
    DragEnter { position: PhysicalPosition, files: Option<Vec<DropFile>> },
    DragLeave,
    DragOver { position: PhysicalPosition, files: Option<Vec<DropFile>> },
    DragDrop { position: PhysicalPosition, files: Option<Vec<DropFile>> },
    AnimationFrame,
}

/// Whether a key name is one of the explicitly recognized named keys.
pub open spec fn spec_key_is_named(s: Seq<char>) -> bool {
    ||| s == "Backspace"@
    ||| s == "Enter"@
    ||| s == "Delete"@
    ||| s == "ArrowUp"@
    ||| s == "ArrowDown"@
    ||| s == "ArrowLeft"@
    ||| s == "ArrowRight"@
}

/// The key code a native key name translates to: the recognized named keys
/// map to their code, everything else that is kept maps to `Unidentified`.
pub open spec fn spec_key_code_of(s: Seq<char>) -> KeyCode {
    if s == "Backspace"@ {
        KeyCode::Backspace
    } else if s == "Enter"@ {
        KeyCode::Enter
    } else if s == "Delete"@ {
        KeyCode::Delete
    } else if s == "ArrowUp"@ {
        KeyCode::ArrowUp
    } else if s == "ArrowDown"@ {
        KeyCode::ArrowDown
    } else if s == "ArrowLeft"@ {
        KeyCode::ArrowLeft
    } else if s == "ArrowRight"@ {
        KeyCode::ArrowRight
    } else {
        KeyCode::Unidentified
    }
}

/// Whether a native key name yields a key event at all. A multi-character
/// ASCII name that is not one of the recognized named keys is a pure
/// modifier or function name and is dropped.
pub open spec fn spec_key_accepted(s: Seq<char>) -> bool {
    ||| spec_key_is_named(s)
    ||| s.len() == 1
    ||| !is_ascii_chars(s)
}

/// The owned state of one canvas window: the canvas it draws to, the current
/// pixel-density scale, the model of the native surface, and the registered
/// native listeners.
pub struct OsWindow {
    /// The identifier the parent handle named the canvas element by.
    pub canvas_id: u32,
    /// The platform's pixel-density scale, re-queried by the glue when the
    /// platform reports a change.
    pub os_scale: Scale,
    /// The backing surface width, in physical pixels.
    pub surface_width: u32,
    /// The backing surface height, in physical pixels.
    pub surface_height: u32,
    /// The cursor keyword currently applied to the canvas.
    pub cursor_style: String,
    /// Whether the canvas holds keyboard focus.
    pub focused: bool,
    /// Every native listener currently registered, in registration order.
    pub listeners: Vec<ListenerKind>,
    /// Whether the per-frame redraw pump is armed.
    pub pump_armed: bool,
}

impl OsWindow {
    /// A window is well-formed when its scale factor is meaningful.
    pub open spec fn wf(self) -> bool {
        self.os_scale.is_valid()
    }

    /// The CSS query selector that locates the canvas element a web parent
    /// handle names.
    pub open spec fn spec_canvas_selector(id: u32) -> Seq<char> {
        "[data-raw-handle=\""@ + spec_decimal(id as nat) + "\"]"@
    }

    /// Builds the CSS query selector that locates the canvas element a web
    /// parent handle names.
    pub fn canvas_selector(id: u32) -> (r: String)
        ensures
            r@ == Self::spec_canvas_selector(id),
    {
        let mut selector = String::from_str("[data-raw-handle=\"");
        let decimal = u32_to_decimal(id);
        selector.append(decimal.as_str());
        selector.append("\"]");
        selector
    }

    /// Converts a native key name into a key code plus the text it carries,
    /// or drops it when it names a bare modifier or function key.
    pub fn convert_key(text: String) -> (r: Option<(KeyCode, String)>)
        ensures
            spec_key_accepted(text@) ==> (r matches Some(p) && p.0 == spec_key_code_of(text@)
                && p.1 == text),
            !spec_key_accepted(text@) ==> r is None,
    {
        if text == String::from_str("Backspace") {
            Some((KeyCode::Backspace, text))
        } else if text == String::from_str("Enter") {
            Some((KeyCode::Enter, text))
        } else if text == String::from_str("Delete") {
            Some((KeyCode::Delete, text))
        } else if text == String::from_str("ArrowUp") {
            Some((KeyCode::ArrowUp, text))
        } else if text == String::from_str("ArrowDown") {
            Some((KeyCode::ArrowDown, text))
        } else if text == String::from_str("ArrowLeft") {
            Some((KeyCode::ArrowLeft, text))
        } else if text == String::from_str("ArrowRight") {
            Some((KeyCode::ArrowRight, text))
        } else if text.as_str().unicode_len() != 1 && text.as_str().is_ascii() {
            None
        } else {
            Some((KeyCode::Unidentified, text))
        }
    }

    /// Opens a canvas window inside the given foreign parent handle. The
    /// handle must be a web handle; `lookup` reports what the platform glue
    /// found under the selector of [`Self::canvas_selector`]. On success the
    /// window starts with every native listener registered, the redraw pump
    /// armed, and the backing surface sized to the requested logical size
    /// scaled by the requested scale times the platform scale.
    pub fn open(parent: ParentHandle, attributes: WindowAttributes, lookup: CanvasLookup) -> (r:
        Result<OsWindow, Error>)
        requires
            attributes.is_valid(),
            lookup matches CanvasLookup::Found { os_scale } ==> os_scale.is_valid(),
        ensures
            (r is Ok) <==> (parent matches ParentHandle::Web { id } && lookup matches
                CanvasLookup::Found { os_scale }),
            !(parent matches ParentHandle::Web { id }) ==> (r matches Err(e) && e.spec_message()
                == "Not a web window"@),
            parent matches ParentHandle::Web { id } ==> match lookup {
                CanvasLookup::Found { os_scale } => r matches Ok(w) && {
                    &&& w.canvas_id == id
                    &&& w.os_scale == os_scale
                    &&& w.surface_width == attributes.size.spec_to_physical(
                        attributes.scale.spec_compose(os_scale),
                    ).width
                    &&& w.surface_height == attributes.size.spec_to_physical(
                        attributes.scale.spec_compose(os_scale),
                    ).height
                    &&& w.cursor_style@ == "default"@
                    &&& !w.focused
                    &&& w.listeners@ == canonical_listeners()
                    &&& w.pump_armed
                    &&& w.wf()
                },
                CanvasLookup::NoBrowserWindow => r matches Err(e) && e.spec_message()
                    == "No window found"@,
                CanvasLookup::NoDocument => r matches Err(e) && e.spec_message()
                    == "No document found"@,
                CanvasLookup::QueryFailed => r matches Err(e) && e.spec_message()
                    == "Canvas search failed"@,
                CanvasLookup::NotFound => r matches Err(e) && e.spec_message() == "Canvas ID `"@
                    + spec_decimal(id as nat) + "` not found"@,
                CanvasLookup::NotACanvas => r matches Err(e) && e.spec_message()
                    == "Canvas could not be casted to `HtmlCanvasElement`"@,
            },
    {
        let id = match parent {
            ParentHandle::Web { id } => id,
            _ => {
                return Err(Error::platform("Not a web window"));
            },
        };
        match lookup {
            CanvasLookup::Found { os_scale } => {
                let combined = attributes.scale.compose(os_scale);
                let size = attributes.size.to_physical(combined);
                Ok(OsWindow {
                    canvas_id: id,
                    os_scale,
                    surface_width: size.width,
                    surface_height: size.height,
                    cursor_style: String::from_str("default"),
                    focused: false,
                    listeners: all_listeners(),
                    pump_armed: true,
                })
            },
            CanvasLookup::NoBrowserWindow => Err(Error::platform("No window found")),
            CanvasLookup::NoDocument => Err(Error::platform("No document found")),
            CanvasLookup::QueryFailed => Err(Error::platform("Canvas search failed")),
            CanvasLookup::NotFound => {
                let mut message = String::from_str("Canvas ID `");
                let decimal = u32_to_decimal(id);
                message.append(decimal.as_str());
                message.append("` not found");
                Err(Error::PlatformError(message))
            },
            CanvasLookup::NotACanvas => Err(
                Error::platform("Canvas could not be casted to `HtmlCanvasElement`"),
            ),
        }
    }

    /// The platform's current pixel-density scale.
    pub fn os_scale(&self) -> (r: Scale)
        ensures
            r == self.os_scale,
    {
        self.os_scale
    }

    /// Records a change of the platform's pixel-density scale, reported by
    /// the platform glue.
    pub fn update_os_scale(&mut self, os_scale: Scale)
        requires
            os_scale.is_valid(),
        ensures
            final(self).os_scale == os_scale,
            final(self).wf(),
            final(self).canvas_id == old(self).canvas_id,
            final(self).surface_width == old(self).surface_width,
            final(self).surface_height == old(self).surface_height,
            final(self).cursor_style == old(self).cursor_style,
            final(self).focused == old(self).focused,
            final(self).listeners == old(self).listeners,
            final(self).pump_armed == old(self).pump_armed,
    {
        self.os_scale = os_scale;
    }

    /// Applies a host-driven resize: the backing surface takes the given
    /// logical size scaled by the current platform scale.
    pub fn resized(&mut self, size: LogicalSize)
        requires
            old(self).wf(),
        ensures
            final(self).surface_width == size.spec_to_physical(old(self).os_scale).width,
            final(self).surface_height == size.spec_to_physical(old(self).os_scale).height,
            final(self).canvas_id == old(self).canvas_id,
            final(self).os_scale == old(self).os_scale,
            final(self).cursor_style == old(self).cursor_style,
            final(self).focused == old(self).focused,
            final(self).listeners == old(self).listeners,
            final(self).pump_armed == old(self).pump_armed,
            final(self).wf(),
    {
        let physical = size.to_physical(self.os_scale);
        self.surface_width = physical.width;
        self.surface_height = physical.height;
    }

    /// Sets the cursor keyword over the surface to the given icon's CSS
    /// keyword, or resets it to the platform default.
    pub fn set_cursor(&mut self, cursor: Option<cursor_icon::CursorIcon>)
        ensures
            cursor is None ==> final(self).cursor_style@ == "default"@,
            cursor matches Some(icon) ==> final(self).cursor_style@ == cursor_css_name(icon),
            cursor is Some ==> final(self).cursor_style@.len() > 0,
            final(self).canvas_id == old(self).canvas_id,
            final(self).os_scale == old(self).os_scale,
            final(self).surface_width == old(self).surface_width,
            final(self).surface_height == old(self).surface_height,
            final(self).focused == old(self).focused,
            final(self).listeners == old(self).listeners,
            final(self).pump_armed == old(self).pump_armed,
    {
        match cursor {
            Some(icon) => {
                let name = cursor_icon_name(icon);
                self.cursor_style = String::from_str(name);
            },
            None => {
                self.cursor_style = String::from_str("default");
            },
        }
    }

    /// Grants or releases keyboard focus on the surface.
    pub fn set_input_focus(&mut self, focus: bool)
        ensures
            final(self).focused == focus,
            final(self).canvas_id == old(self).canvas_id,
            final(self).os_scale == old(self).os_scale,
            final(self).surface_width == old(self).surface_width,
            final(self).surface_height == old(self).surface_height,
            final(self).cursor_style == old(self).cursor_style,
            final(self).listeners == old(self).listeners,
            final(self).pump_armed == old(self).pump_armed,
    {
        self.focused = focus;
    }

    /// Best-effort cursor repositioning. The web platform cannot move the
    /// pointer, so this backend is permitted to do nothing.
    pub fn warp_mouse(&self, _position: LogicalPosition) {
    }

    /// Pumps pending native events. This backend is driven entirely by
    /// push-based native callbacks, so there is never anything to pump.
    pub fn poll_events(&self) -> (r: Result<(), Error>)
        ensures
            r is Ok,
    {
        Ok(())
    }

    /// The logical position of a native event: the page position taken
    /// relative to the canvas origin, then divided by the platform scale.
    pub open spec fn spec_event_position(
        self,
        position: PhysicalPosition,
        canvas_origin: PhysicalPosition,
    ) -> LogicalPosition {
        position.spec_relative_to(canvas_origin).spec_to_logical(self.os_scale)
    }

    /// The unified events one native event translates to, in delivery
    /// order: keyboard, pointer and wheel events are preceded by a
    /// `KeyboardModifiers` event reflecting the live modifier state; a
    /// dropped key name yields the modifier event alone; the context-menu
    /// event yields nothing (it is only suppressed); a redraw tick yields
    /// `Draw`.
    pub open spec fn spec_translate_event(
        self,
        native: NativeEvent,
        canvas_origin: PhysicalPosition,
    ) -> Seq<Event> {
        match native {
            NativeEvent::KeyDown { key, repeat, modifiers } => {
                let head = seq![Event::KeyboardModifiers { modifiers }];
                if spec_key_accepted(key@) {
                    head + seq![
                        Event::KeyDown {
                            key_code: spec_key_code_of(key@),
                            text: Some(key),
                            repeat,
                        },
                    ]
                } else {
                    head
                }
            },
            NativeEvent::KeyUp { key, modifiers } => {
                let head = seq![Event::KeyboardModifiers { modifiers }];
                if spec_key_accepted(key@) {
                    head + seq![Event::KeyUp { key_code: spec_key_code_of(key@), text: Some(key) }]
                } else {
                    head
                }
            },
            NativeEvent::PointerDown { button, position, modifiers } => seq![
                Event::KeyboardModifiers { modifiers },
                Event::MouseButtonDown {
                    button: spec_convert_button(button),
                    position: self.spec_event_position(position, canvas_origin),
                },
            ],
            NativeEvent::PointerUp { button, position, modifiers } => seq![
                Event::KeyboardModifiers { modifiers },
                Event::MouseButtonUp {
                    button: spec_convert_button(button),
                    position: self.spec_event_position(position, canvas_origin),
                },
            ],
            NativeEvent::PointerLeave { modifiers } => seq![
                Event::KeyboardModifiers { modifiers },
                Event::MouseExited,
            ],
            NativeEvent::PointerMove { position, modifiers } => seq![
                Event::KeyboardModifiers { modifiers },
                Event::MouseMoved { position: self.spec_event_position(position, canvas_origin) },
            ],
            NativeEvent::ContextMenu => seq![],
            NativeEvent::Wheel { delta_mode, delta_x, delta_y, position, modifiers } => seq![
                Event::KeyboardModifiers { modifiers },
                Event::MouseWheel {
                    position: self.spec_event_position(position, canvas_origin),
                    delta: spec_convert_wheel_delta(delta_mode, delta_x, delta_y),
                },
            ],
            NativeEvent::DragEnter { position, files } => seq![
                Event::DragEntered {
                    position: self.spec_event_position(position, canvas_origin),
                    data: spec_drop_data_from_files(files),
                },
            ],
            NativeEvent::DragLeave => seq![Event::DragExited],
            NativeEvent::DragOver { position, files } => seq![
                Event::DragMoved {
                    position: self.spec_event_position(position, canvas_origin),
                    data: spec_drop_data_from_files(files),
                },
            ],
            NativeEvent::DragDrop { position, files } => seq![
                Event::DragDropped {
                    position: self.spec_event_position(position, canvas_origin),
                    data: spec_drop_data_from_files(files),
                },
            ],
            NativeEvent::AnimationFrame => seq![Event::Draw],
        }
    }

    /// The logical position of a native event over this window's canvas.
    pub fn event_position(&self, position: PhysicalPosition, canvas_origin: PhysicalPosition) -> (r:
        LogicalPosition)
        requires
            self.wf(),
        ensures
            r == self.spec_event_position(position, canvas_origin),
    {
        let relative = position.relative_to(canvas_origin);
        relative.to_logical(self.os_scale)
    }

    /// Translates one native event into the unified events to deliver to the
    /// event callback, in order. `canvas_origin` is the page position of the
    /// canvas at the moment of the event.
    pub fn translate_event(&self, native: NativeEvent, canvas_origin: PhysicalPosition) -> (r: Vec<
        Event,
    >)
        requires
            self.wf(),
        ensures
            r@ == self.spec_translate_event(native, canvas_origin),
    {
        let ghost spec_result = self.spec_translate_event(native, canvas_origin);
        let mut events: Vec<Event> = Vec::new();
        match native {
            NativeEvent::KeyDown { key, repeat, modifiers } => {
                events.push(Event::KeyboardModifiers { modifiers });
                if let Some((key_code, text)) = Self::convert_key(key) {
                    events.push(Event::KeyDown { key_code, text: Some(text), repeat });
                }
            },
            NativeEvent::KeyUp { key, modifiers } => {
                events.push(Event::KeyboardModifiers { modifiers });
                if let Some((key_code, text)) = Self::convert_key(key) {
                    events.push(Event::KeyUp { key_code, text: Some(text) });
                }
            },
            NativeEvent::PointerDown { button, position, modifiers } => {
                events.push(Event::KeyboardModifiers { modifiers });
                events.push(Event::MouseButtonDown {
                    button: convert_button(button),
                    position: self.event_position(position, canvas_origin),
                });
            },
            NativeEvent::PointerUp { button, position, modifiers } => {
                events.push(Event::KeyboardModifiers { modifiers });
                events.push(Event::MouseButtonUp {
                    button: convert_button(button),
                    position: self.event_position(position, canvas_origin),
                });
            },
            NativeEvent::PointerLeave { modifiers } => {
                events.push(Event::KeyboardModifiers { modifiers });
                events.push(Event::MouseExited);
            },
            NativeEvent::PointerMove { position, modifiers } => {
                events.push(Event::KeyboardModifiers { modifiers });
                events.push(Event::MouseMoved {
                    position: self.event_position(position, canvas_origin),
                });
            },
            NativeEvent::ContextMenu => {},
            NativeEvent::Wheel { delta_mode, delta_x, delta_y, position, modifiers } => {
                events.push(Event::KeyboardModifiers { modifiers });
                events.push(Event::MouseWheel {
                    position: self.event_position(position, canvas_origin),
                    delta: convert_wheel_delta(delta_mode, delta_x, delta_y),
                });
            },
            NativeEvent::DragEnter { position, files } => {
                events.push(Event::DragEntered {
                    position: self.event_position(position, canvas_origin),
                    data: drop_data_from_files(files),
                });
            },
            NativeEvent::DragLeave => {
                events.push(Event::DragExited);
            },
            NativeEvent::DragOver { position, files } => {
                events.push(Event::DragMoved {
                    position: self.event_position(position, canvas_origin),
                    data: drop_data_from_files(files),
                });
            },
            NativeEvent::DragDrop { position, files } => {
                events.push(Event::DragDropped {
                    position: self.event_position(position, canvas_origin),
                    data: drop_data_from_files(files),
                });
            },
            NativeEvent::AnimationFrame => {
                events.push(Event::Draw);
            },
        }
        proof {
            assert(events@ =~= spec_result);
        }
        events
    }

    /// Whether a native event's default behavior is suppressed before the
    /// callback is even asked: only the context-menu event, which the
    /// backend always swallows.
    pub fn always_prevents_default(native: &NativeEvent) -> (r: bool)
        ensures
            r == (native is ContextMenu),
    {
        match native {
            NativeEvent::ContextMenu => true,
            _ => false,
        }
    }

    /// The plan a dropped window executes, in order: one removal per
    /// registered native listener, in registration order, and only then the
    /// destruction of the owned native resources.
    pub fn teardown_plan(&self) -> (r: Vec<TeardownStep>)
        ensures
            r@.len() == self.listeners@.len() + 1,
            forall|i: int|
                0 <= i < self.listeners@.len() ==> r@[i] == TeardownStep::RemoveListener(
                    self.listeners@[i],
                ),
            r@[self.listeners@.len() as int] == TeardownStep::DestroyResources,
    {
        let mut steps: Vec<TeardownStep> = Vec::new();
        let mut index: usize = 0;
        while index < self.listeners.len()
            invariant
                index <= self.listeners@.len(),
                steps@.len() == index,
                forall|i: int|
                    0 <= i < index ==> steps@[i] == TeardownStep::RemoveListener(
                        self.listeners@[i],
                    ),
            decreases self.listeners@.len() - index,
        {
            steps.push(TeardownStep::RemoveListener(self.listeners[index]));
            index = index + 1;
        }
        steps.push(TeardownStep::DestroyResources);
        steps
    }
}

/// Relies on `cursor_icon::CursorIcon`, the opaque W3C cursor-icon
/// enumeration the host hands to `set_cursor`.
#[verifier::external_type_specification]
#[verifier::external_body]
pub struct ExCursorIcon(cursor_icon::CursorIcon);

/// The CSS keyword of a cursor icon, as `cursor_icon::CursorIcon::name`
/// renders it. The keyword depends on the icon alone (a static table in the
/// crate), which is what lets it carry a name here.
pub uninterp spec fn cursor_css_name(cursor: cursor_icon::CursorIcon) -> Seq<char>;

/// Relies on `cursor_icon::CursorIcon::name`: the CSS keyword of the icon —
/// a function of the icon alone — which is a non-empty string for every
/// variant.
#[verifier::external_body]
fn cursor_icon_name(cursor: cursor_icon::CursorIcon) -> (r: &'static str)
    ensures
        r@ == cursor_css_name(cursor),
        r@.len() > 0,
{
    cursor.name()
}

/// Sequences of native pointer presses and releases translate one-for-one in
/// native delivery order: the event at each index yields exactly its
/// modifier event followed by the mouse-button event carrying the same
/// button identity and the same (canvas-relative, scaled) position.
pub proof fn lemma_pointer_sequence_preserved(
    w: OsWindow,
    natives: Seq<NativeEvent>,
    origins: Seq<PhysicalPosition>,
)
    requires
        origins.len() == natives.len(),
    ensures
        forall|i: int|
            0 <= i < natives.len() ==> ((#[trigger] natives[i]) matches NativeEvent::PointerDown {
                button,
                position,
                modifiers,
            } ==> w.spec_translate_event(natives[i], origins[i]) =~= seq![
                Event::KeyboardModifiers { modifiers },
                Event::MouseButtonDown {
                    button: spec_convert_button(button),
                    position: w.spec_event_position(position, origins[i]),
                },
            ]),
        forall|i: int|
            0 <= i < natives.len() ==> ((#[trigger] natives[i]) matches NativeEvent::PointerUp {
                button,
                position,
                modifiers,
            } ==> w.spec_translate_event(natives[i], origins[i]) =~= seq![
                Event::KeyboardModifiers { modifiers },
                Event::MouseButtonUp {
                    button: spec_convert_button(button),
                    position: w.spec_event_position(position, origins[i]),
                },
            ]),
{
}

} // verus!
