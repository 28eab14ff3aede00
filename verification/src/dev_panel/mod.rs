//! The panel for developers of the viewer.
pub mod callstack;
pub mod panel;
pub mod plots;
pub mod progress;
pub mod stats;
pub mod streaming;
pub mod transform_cache;
