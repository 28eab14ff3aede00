//! The welcome screen, shown in place of the viewport when no data is loaded.
pub mod intro;
pub mod recents;
pub mod screen;
