//! A cross-platform abstraction for a native drawing surface embedded inside
//! a host application's window, together with the translation of raw platform
//! input events into one unified event stream.
//!
//! The library holds the platform-independent core: the event model, the
//! deterministic translation rules from native input data to [`Event`] values,
//! the geometry arithmetic between logical and physical coordinates, the
//! thread-affinity wrapper for native handles, and the decision logic of the
//! hidden message window used on Windows hosts. The thin glue that talks to
//! the actual platform (DOM calls, Win32 calls) lives outside this crate and
//! consumes the plans and decisions computed here.

pub mod decimal;
pub mod dimensions;
pub mod drag_drop;
pub mod error;
pub mod event;
pub mod keyboard;
pub mod platform;
pub mod slint_platform;
pub mod thread_bound;
pub mod window;

pub use dimensions::{LogicalPosition, LogicalSize, PhysicalPosition, PhysicalSize, Scale};
pub use event::{Event, MouseButton};
