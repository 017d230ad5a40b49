//! The closed key-code enumeration, the keyboard modifier set, and the
//! mapping from Windows virtual-key codes into the enumeration.

use vstd::prelude::*;

verus! {

/// The small closed set of key codes the library distinguishes. Anything a
/// native platform reports outside this set maps to `Unidentified`.
#[derive(Clone, Copy, Debug, PartialEq, Eq, Structural)]
pub enum KeyCode {
    Backspace,
    Enter,
    Delete,
    ArrowUp,
    ArrowDown,
    ArrowLeft,
    ArrowRight,
    Unidentified,
}

/// The live state of the keyboard modifier keys at the moment of an event.
#[derive(Clone, Copy, Debug, PartialEq, Eq, Structural)]
pub struct KeyboardModifiers {
    pub alt: bool,
    pub control: bool,
    pub meta: bool,
    pub shift: bool,
}

impl KeyboardModifiers {
    /// The modifier set with no key held.
    pub fn empty() -> (r: KeyboardModifiers)
        ensures
            r == (KeyboardModifiers { alt: false, control: false, meta: false, shift: false }),
    {
        KeyboardModifiers { alt: false, control: false, meta: false, shift: false }
    }

    /// The modifier set with exactly the given keys held.
    pub fn new(alt: bool, control: bool, meta: bool, shift: bool) -> (r: KeyboardModifiers)
        ensures
            r == (KeyboardModifiers { alt, control, meta, shift }),
    {
        KeyboardModifiers { alt, control, meta, shift }
    }
}

/// Windows virtual-key code for the backspace key.
pub const VK_BACK: u16 = 0x08;

/// Windows virtual-key code for the return key.
pub const VK_RETURN: u16 = 0x0D;

/// Windows virtual-key code for the left arrow key.
pub const VK_LEFT: u16 = 0x25;

/// Windows virtual-key code for the up arrow key.
pub const VK_UP: u16 = 0x26;

/// Windows virtual-key code for the right arrow key.
pub const VK_RIGHT: u16 = 0x27;

/// Windows virtual-key code for the down arrow key.
pub const VK_DOWN: u16 = 0x28;

/// Windows virtual-key code for the delete key.
pub const VK_DELETE: u16 = 0x2E;

/// The key code a Windows virtual-key code translates to.
pub open spec fn spec_virtual_key_to_keycode(virtual_key: u16) -> KeyCode {
    if virtual_key == VK_BACK {
        KeyCode::Backspace
    } else if virtual_key == VK_RETURN {
        KeyCode::Enter
    } else if virtual_key == VK_DELETE {
        KeyCode::Delete
    } else if virtual_key == VK_UP {
        KeyCode::ArrowUp
    } else if virtual_key == VK_DOWN {
        KeyCode::ArrowDown
    } else if virtual_key == VK_LEFT {
        KeyCode::ArrowLeft
    } else if virtual_key == VK_RIGHT {
        KeyCode::ArrowRight
    } else {
        KeyCode::Unidentified
    }
}

/// Maps a Windows virtual-key code to the library's key code.
pub fn virtual_key_to_keycode(virtual_key: u16) -> (r: KeyCode)
    ensures
        r == spec_virtual_key_to_keycode(virtual_key),
{
    if virtual_key == VK_BACK {
        KeyCode::Backspace
    } else if virtual_key == VK_RETURN {
        KeyCode::Enter
    } else if virtual_key == VK_DELETE {
        KeyCode::Delete
    } else if virtual_key == VK_UP {
        KeyCode::ArrowUp
    } else if virtual_key == VK_DOWN {
        KeyCode::ArrowDown
    } else if virtual_key == VK_LEFT {
        KeyCode::ArrowLeft
    } else if virtual_key == VK_RIGHT {
        KeyCode::ArrowRight
    } else {
        KeyCode::Unidentified
    }
}

/// The number a key code travels as inside a posted keyboard message.
pub open spec fn spec_key_code_number(code: KeyCode) -> u16 {
    match code {
        KeyCode::Backspace => 1,
        KeyCode::Enter => 2,
        KeyCode::Delete => 3,
        KeyCode::ArrowUp => 4,
        KeyCode::ArrowDown => 5,
        KeyCode::ArrowLeft => 6,
        KeyCode::ArrowRight => 7,
        KeyCode::Unidentified => 0,
    }
}

/// Encodes a key code as the number it travels as inside a posted keyboard
/// message.
pub fn key_code_number(code: KeyCode) -> (r: u16)
    ensures
        r == spec_key_code_number(code),
{
    match code {
        KeyCode::Backspace => 1,
        KeyCode::Enter => 2,
        KeyCode::Delete => 3,
        KeyCode::ArrowUp => 4,
        KeyCode::ArrowDown => 5,
        KeyCode::ArrowLeft => 6,
        KeyCode::ArrowRight => 7,
        KeyCode::Unidentified => 0,
    }
}

} // verus!
