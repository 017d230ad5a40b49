//! The hidden Windows message window that routes keyboard input to the main
//! canvas window without stealing focus from the host.
//!
//! The hidden window exists so that native keyboard messages never follow
//! Windows' own focus rules: its window procedure intercepts character and
//! raw key messages and re-posts them to the main window's queue as custom
//! user messages. This module holds every decision of that mechanism — the
//! uniquely named window class, the routing of each intercepted message, the
//! focus-target choice, the message-loop stepping, and the teardown policy —
//! while the Win32 calls themselves are performed by the platform glue.

use vstd::prelude::*;
use vstd::string::StringExecFns;

use crate::error::Error;
use crate::keyboard::{
    key_code_number, spec_key_code_number, spec_virtual_key_to_keycode, virtual_key_to_keycode,
};

verus! {

/// The native character-input message number.
pub const WM_CHAR: u32 = 0x0102;

/// The native key-press message number.
pub const WM_KEYDOWN: u32 = 0x0100;

/// The native key-release message number.
pub const WM_KEYUP: u32 = 0x0101;

/// The first message number reserved for application-defined messages.
pub const WM_USER: u32 = 0x0400;

/// The user message a character message is re-posted as.
pub const WM_USER_CHAR: u32 = WM_USER + 1;

/// The user message a key press is re-posted as.
pub const WM_USER_KEY_DOWN: u32 = WM_USER + 2;

/// The user message a key release is re-posted as.
pub const WM_USER_KEY_UP: u32 = WM_USER + 3;

/// What the hidden window's procedure does with one intercepted native
/// message: re-post it to the main window as a user message, or hand it to
/// the platform's default processing.
#[derive(Clone, Copy, Debug, PartialEq, Eq, Structural)]
pub enum MessageAction {
    PostToMain { message: u32, wparam: usize, lparam: isize },
    DefaultProcessing,
}

/// One decision of the message loop: keep pumping by dispatching the fetched
/// message, stop cleanly, or abort because the blocking fetch reported a
/// corrupted queue.
#[derive(Clone, Copy, Debug, PartialEq, Eq, Structural)]
pub enum LoopDecision {
    Dispatch,
    Stop,
    Fatal,
}

/// One observed cycle of the message loop: the running flag as read at the
/// top of the cycle, and the result the blocking message fetch returned.
#[derive(Clone, Copy, Debug, PartialEq, Eq, Structural)]
pub struct MessageFetch {
    pub running: bool,
    pub result: i32,
}

/// The verdict of tearing the hidden window down: destroying the window may
/// fail (the host may have destroyed the parent first, which is tolerated),
/// but failing to unregister the window class is a lifecycle defect.
#[derive(Clone, Copy, Debug, PartialEq, Eq, Structural)]
pub enum TeardownVerdict {
    Completed,
    Fatal,
}

/// The action the hidden window's procedure takes for a native message:
/// character messages are re-posted with their payload intact, raw key
/// messages are re-posted with the virtual key translated to the library's
/// key-code number (a key release drops its native payload word), and
/// everything else goes to default processing.
pub open spec fn spec_route_message(message: u32, wparam: usize, lparam: isize) -> MessageAction {
    if message == WM_CHAR {
        MessageAction::PostToMain { message: WM_USER_CHAR, wparam, lparam }
    } else if message == WM_KEYDOWN {
        MessageAction::PostToMain {
            message: WM_USER_KEY_DOWN,
            wparam: spec_key_code_number(spec_virtual_key_to_keycode(wparam as u16)) as usize,
            lparam,
        }
    } else if message == WM_KEYUP {
        MessageAction::PostToMain {
            message: WM_USER_KEY_UP,
            wparam: spec_key_code_number(spec_virtual_key_to_keycode(wparam as u16)) as usize,
            lparam: 0,
        }
    } else {
        MessageAction::DefaultProcessing
    }
}

/// Decides what the hidden window's procedure does with one native message.
pub fn route_message(message: u32, wparam: usize, lparam: isize) -> (r: MessageAction)
    ensures
        r == spec_route_message(message, wparam, lparam),
{
    if message == WM_CHAR {
        MessageAction::PostToMain { message: WM_USER_CHAR, wparam, lparam }
    } else if message == WM_KEYDOWN {
        let virtual_key: u16 = #[verifier::truncate] (wparam as u16);
        let keycode = virtual_key_to_keycode(virtual_key);
        MessageAction::PostToMain {
            message: WM_USER_KEY_DOWN,
            wparam: key_code_number(keycode) as usize,
            lparam,
        }
    } else if message == WM_KEYUP {
        let virtual_key: u16 = #[verifier::truncate] (wparam as u16);
        let keycode = virtual_key_to_keycode(virtual_key);
        MessageAction::PostToMain {
            message: WM_USER_KEY_UP,
            wparam: key_code_number(keycode) as usize,
            lparam: 0,
        }
    } else {
        MessageAction::DefaultProcessing
    }
}

/// One step of the message loop: a cleared running flag stops the loop
/// before anything is dispatched; a fetch result of `-1` is fatal; a fetch
/// result of `0` is the platform's quit signal and stops the loop; any other
/// result has its message dispatched.
pub open spec fn spec_run_step(running: bool, fetch_result: i32) -> LoopDecision {
    if !running {
        LoopDecision::Stop
    } else if fetch_result == -1i32 {
        LoopDecision::Fatal
    } else if fetch_result == 0i32 {
        LoopDecision::Stop
    } else {
        LoopDecision::Dispatch
    }
}

/// Whether a character is a lowercase hexadecimal digit.
pub open spec fn is_lower_hex_digit(c: char) -> bool {
    ('0' <= c && c <= '9') || ('a' <= c && c <= 'f')
}

/// Relies on `uuid::Uuid::new_v4` and the `simple` format: a fresh random
/// identifier rendered as exactly 32 lowercase hexadecimal digits. Nothing
/// more is assumed of the value, since it is random.
#[verifier::external_body]
fn fresh_uuid_simple() -> (r: String)
    ensures
        r@.len() == 32,
        forall|i: int| 0 <= i < r@.len() ==> is_lower_hex_digit(#[trigger] r@[i]),
{
    uuid::Uuid::new_v4().simple().to_string()
}

/// The prefix every hidden-window class name starts with.
pub open spec fn spec_class_name_prefix() -> Seq<char> {
    "plugin-canvas-message-window-"@
}

/// Builds a window-class name for one hidden window: the fixed prefix
/// followed by a freshly generated 32-digit identifier, so that several
/// instances loaded into one host process never collide on the class name.
pub fn fresh_class_name() -> (r: String)
    ensures
        r@.len() == spec_class_name_prefix().len() + 32,
        r@.subrange(0, spec_class_name_prefix().len() as int) == spec_class_name_prefix(),
        forall|i: int|
            spec_class_name_prefix().len() <= i < r@.len() ==> is_lower_hex_digit(
                #[trigger] r@[i],
            ),
{
    let mut name = String::from_str("plugin-canvas-message-window-");
    let suffix = fresh_uuid_simple();
    name.append(suffix.as_str());
    proof {
        assert(name@.subrange(0, spec_class_name_prefix().len() as int)
            =~= spec_class_name_prefix());
        assert forall|i: int|
            spec_class_name_prefix().len() <= i < name@.len() implies is_lower_hex_digit(
            name@[i],
        ) by {
            assert(name@[i] == suffix@[i - spec_class_name_prefix().len()]);
        };
    }
    name
}

/// The hidden message window: the native handle of the hidden window, the
/// handle of the main canvas window it forwards to, and the atom of the
/// window class registered for it.
pub struct MessageWindow {
    pub hwnd: usize,
    pub main_window_hwnd: usize,
    pub window_class: u16,
}

impl MessageWindow {
    /// A message window only exists once its class was actually registered.
    pub open spec fn wf(self) -> bool {
        self.window_class != 0
    }

    /// Adopts the native resources the platform glue created for the hidden
    /// window. A class atom of zero means registration failed, which aborts
    /// construction with a platform error.
    pub fn new(main_window_hwnd: usize, window_class: u16, hwnd: usize) -> (r: Result<
        MessageWindow,
        Error,
    >)
        ensures
            window_class == 0 ==> (r matches Err(e) && e.spec_message()
                == "Failed to register window class"@),
            window_class != 0 ==> (r matches Ok(m) && m.hwnd == hwnd && m.main_window_hwnd
                == main_window_hwnd && m.window_class == window_class && m.wf()),
    {
        if window_class == 0 {
            Err(Error::platform("Failed to register window class"))
        } else {
            Ok(MessageWindow { hwnd, main_window_hwnd, window_class })
        }
    }

    /// The window that receives native keyboard focus: the hidden window
    /// when focus is granted, the main window when it is released.
    pub fn set_focus(&self, focus: bool) -> (r: usize)
        ensures
            focus ==> r == self.hwnd,
            !focus ==> r == self.main_window_hwnd,
    {
        if focus {
            self.hwnd
        } else {
            self.main_window_hwnd
        }
    }

    /// Decides one cycle of the message loop.
    pub fn run_step(&self, running: bool, fetch_result: i32) -> (r: LoopDecision)
        ensures
            r == spec_run_step(running, fetch_result),
    {
        if !running {
            LoopDecision::Stop
        } else if fetch_result == -1i32 {
            LoopDecision::Fatal
        } else if fetch_result == 0i32 {
            LoopDecision::Stop
        } else {
            LoopDecision::Dispatch
        }
    }

    /// Runs the message loop over a finite trace of observed cycles and
    /// returns the decision taken at each cycle, in order. Every decision
    /// but the last dispatches a message; the loop ends at the first
    /// stopping or fatal decision. In particular a cycle that observes a
    /// cleared running flag stops the loop at once: no further message is
    /// dispatched after the flag is cleared.
    pub fn run(&self, trace: &Vec<MessageFetch>) -> (r: Vec<LoopDecision>)
        ensures
            r@.len() <= trace@.len(),
            forall|i: int|
                0 <= i < r@.len() ==> r@[i] == spec_run_step(trace@[i].running, trace@[i].result),
            forall|i: int| 0 <= i < r@.len() - 1 ==> r@[i] == LoopDecision::Dispatch,
            r@.len() < trace@.len() ==> r@.len() > 0 && r@[r@.len() - 1] != LoopDecision::Dispatch,
    {
        let mut decisions: Vec<LoopDecision> = Vec::new();
        let mut index: usize = 0;
        while index < trace.len()
            invariant
                index <= trace@.len(),
                decisions@.len() == index,
                forall|i: int|
                    0 <= i < index ==> decisions@[i] == spec_run_step(
                        trace@[i].running,
                        trace@[i].result,
                    ),
                forall|i: int| 0 <= i < index ==> decisions@[i] == LoopDecision::Dispatch,
            decreases trace@.len() - index,
        {
            let fetch = trace[index];
            let decision = self.run_step(fetch.running, fetch.result);
            decisions.push(decision);
            index = index + 1;
            if !matches!(decision, LoopDecision::Dispatch) {
                return decisions;
            }
        }
        decisions
    }

    /// The verdict of the teardown the glue performed: a failed window
    /// destruction is tolerated (the host may already have destroyed the
    /// parent), a failed class unregistration is a lifecycle defect and
    /// fatal.
    pub fn teardown_verdict(&self, destroy_succeeded: bool, unregister_succeeded: bool) -> (r:
        TeardownVerdict)
        ensures
            (r is Fatal) <==> !unregister_succeeded,
    {
        if unregister_succeeded {
            TeardownVerdict::Completed
        } else {
            TeardownVerdict::Fatal
        }
    }
}

} // verus!
