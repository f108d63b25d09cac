//! A bounds-safe window onto a memory-mapped file, read as a raw RGBA8 image.
//!
//! The window is described by three numbers: the byte offset where the pixel
//! data starts and the width and height of the image in pixels. Whatever a
//! caller asks for, the window is corrected so that it never reaches past the
//! end of the mapped buffer.

pub mod laws;
pub mod mapping;
pub mod state;
pub mod view;

pub use crate::state::{Field, Message, ViewState};
pub use crate::view::{Frame, MemoryView};
