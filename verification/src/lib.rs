//! A safety layer over a window-system API: guarded resource handles that are
//! released exactly once, translation of the platform's boolean / pointer /
//! status-code return conventions into typed results, and per-control routing
//! of notification messages to registered handlers.
//!
//! The operating system itself is treated as an external actor: every fact
//! that only the platform knows (a freshly assigned window handle, the
//! last-error code of a failed call, the screen's scaling factor) enters the
//! library as a plain value, and the library's own bookkeeping around those
//! values is verified.

pub mod advapi;
pub mod base_ctrl;
pub mod co;
pub mod combo_box;
pub mod edit;
pub mod events;
pub mod gui;
pub mod handles;
pub mod kernel;
pub mod list_view;
pub mod radio_button;
pub mod user;
pub mod wstring;
