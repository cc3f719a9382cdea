//! A terminal progress indicator for iteration over sequences of known or
//! unknown length.
//!
//! The library holds the verified core: frame rendering (bar fill arithmetic,
//! decimal annotations, ANSI cursor control bytes) and the per-step state
//! machine. An accompanying adapter crate wires this core to real iterators
//! and to standard output.

pub mod render;
pub mod progress;
