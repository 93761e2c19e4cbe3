//! Watches a base16 palette file, validates its sixteen hex colors and emits
//! the palette as a length-prefixed JSON frame.

pub mod document;
pub mod frame;
pub mod palette;
pub mod pipeline;
pub mod watch;
