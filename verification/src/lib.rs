//! Resolution of on-disk locations for compiled WebAssembly artifacts.
//!
//! Given a package manifest and a release/debug choice, the library works out
//! where the toolchain's target directory places the compiled module for the
//! fixed `wasm32-unknown-unknown` target, and derives the sibling paths for
//! the optimized and metadata-augmented variants of that module.

pub mod error;
pub mod fs_path;
pub mod metadata;
pub mod output_info;
pub mod resolve;
