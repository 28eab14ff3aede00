//! What the viewer was built for.
use vstd::prelude::*;

verus! {

/// Where the viewer runs: in a browser page, or as a program of its own.
#[derive(Clone, Copy, Debug, PartialEq, Eq, Structural)]
pub enum Platform {
    Web,
    Native,
}

/// The operating system the viewer is used on.
#[derive(Clone, Copy, Debug, PartialEq, Eq, Structural)]
pub enum OperatingSystem {
    Unknown,
    Android,
    Ios,
    Nix,
    Mac,
    Windows,
}

/// The build of the viewer: its platform, and whether it is a debug build.
#[derive(Clone, Copy, Debug, PartialEq, Eq, Structural)]
pub struct Build {
    pub platform: Platform,
    pub debug: bool,
}

} // verus!
