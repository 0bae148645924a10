//! Decision logic of a Windows taskbar auto-hide tray application with an
//! in-process Insider watermark patcher.
//!
//! Everything that talks to the operating system (window enumeration, cursor
//! position, process memory, the tray icon, the event loop) lives outside this
//! crate; this crate holds the geometry, the visibility state machine, the
//! hover and Start menu debouncers, and the data handling of the watermark
//! patch, each with its contract.

pub mod geometry;
pub mod visibility;
pub mod tray;
pub mod hover;
pub mod start_menu;
pub mod text;
pub mod watermark;
pub mod icon;
