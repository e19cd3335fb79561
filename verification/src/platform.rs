//! Per-platform request-code layouts.
//!
//! Each submodule describes how one family of kernels packs direction, type,
//! number, and size into the 32-bit request word, and proves the packing
//! exact. Which layout applies is a property of the build target; the
//! crate-level constructors use the generic Linux layout.

pub mod bsd;
pub mod linux;
