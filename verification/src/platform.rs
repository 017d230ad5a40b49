//! The per-platform window backends and the handle the host receives.

pub mod message_window;
pub mod os_window;
pub mod os_window_handle;
