//! A host-side model of a text-mode display writer.
//!
//! The display is a fixed-size region of cells, each a pair of bytes:
//! a character and a color attribute. `framebuffer` holds the region
//! itself with a bounds-checked write pass; `writer` wraps it in a
//! small state machine with explicit idle and fault terminal phases.

pub mod framebuffer;
pub mod writer;
