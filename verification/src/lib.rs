//! Runtime core of a windowed graphical application.
//!
//! The library owns the logic of such an application: the window/surface
//! lifecycle state machine with its device-keyed renderer pool, and the
//! glyph-layout-and-scene-composition pipeline that turns text plus a font
//! into positioned glyph runs recorded in a reusable scene buffer.
//!
//! The operating-system event loop, the GPU backend and the filesystem are
//! external collaborators: an unverified shell drives the event loop,
//! performs the GPU and filesystem work, and consults this library for every
//! decision, handing it plain values and taking plain values back.

pub mod canvas;
pub mod command_bar;
pub mod app_core;
pub mod font;
pub mod oswin;
pub mod ui_text;
