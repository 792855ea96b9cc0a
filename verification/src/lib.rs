//! A heap-backed byte buffer whose storage starts on a 64-byte boundary and
//! is padded to a whole number of 64-byte blocks.
//!
//! [`layout`] holds the padding and alignment arithmetic; [`buffer`] holds the
//! [`Buffer`] type built on it.

pub mod buffer;
pub mod layout;

pub use buffer::Buffer;
pub use layout::ALIGNMENT;
