//! Zero-copy cursors over contiguous sequences.
//!
//! A handle is a slice reference that a caller advances over time: each
//! advance hands out a view of the next few elements and rebinds the handle
//! to what follows them. Nothing is copied; only the handle's extent changes.

pub mod advance;
pub mod advance_array;
pub mod error;
pub mod length;
pub mod split;

pub use crate::advance::Advance;
pub use crate::advance_array::AdvanceArray;
pub use crate::error::AdvanceError;
pub use crate::length::Length;
