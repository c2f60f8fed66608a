//! A small screenshot-to-clipboard utility library.
//!
//! The library captures the primary screen, publishes the pixels to the
//! system clipboard, and can read an image back from the clipboard and
//! prepare it for saving as a PNG file. All decision logic — subcommand
//! dispatch, image-buffer validation, file naming, message formatting —
//! is verified; the platform clipboard, screen capture and PNG encoder
//! are reached through a small set of trusted wrappers.

pub mod actions;
pub mod clipboard;
pub mod dispatch;
pub mod encode;
pub mod error;
pub mod filename;
pub mod image_buffer;
pub mod screen;
pub mod text;
