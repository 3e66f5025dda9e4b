//! Reading an image from the Wayland clipboard.
//!
//! The clipboard is reached through a command-line utility that is asked,
//! one image format after the other, for what it holds. This library holds
//! everything about that conversation except the running of the utility
//! itself: which question comes next, how an answer is judged, and how the
//! first usable answer becomes the image that is handed on, its bytes
//! written as base64 text.

pub mod encoding;
pub mod format;
pub mod image;
pub mod probe;
pub mod reading;
pub mod session;
