//! A minimal terminal-UI engine: a rectangular grid of character cells with
//! coordinate addressing, clipping and composition, together with a typed
//! input-event pipeline (a FIFO queue plus continuously-folded mouse and
//! keyboard state).
//!
//! Platform bindings (the real console, window and mouse devices) live
//! outside this crate; the engine only consumes and produces plain values.

pub mod cell;
pub mod cell_buffer;
pub mod color;
pub mod device_state;
pub mod event;
pub mod event_queue;
pub mod geometry;
pub mod input;
pub mod mouse;
pub mod window;
