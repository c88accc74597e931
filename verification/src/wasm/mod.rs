//! Guest blocks in WebAssembly.
pub mod format;
pub mod guest;
pub mod host;
pub mod info;
pub mod invoke;
pub mod loader;
pub mod memory;
pub mod packed;
