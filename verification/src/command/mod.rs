//! The commands of the viewer.
use vstd::prelude::*;

use crate::command::shortcut::KeyboardShortcut;
use crate::icons::Icon;
use crate::store_id::StoreId;

pub mod recording_command;
pub mod shortcut;
pub mod ui_command;

verus! {

/// What commands act on.
pub struct CommandEnvironment {
    /// The active recording, if any.
    pub recording: Option<StoreId>,
}

/// A menu button, as it is to be drawn.
pub struct MenuButton {
    pub text: &'static str,
    pub icon: Option<Icon>,
    /// Whether a "debug only" badge follows the text.
    pub debug_badge: bool,
    pub shortcut_text: Option<String>,
    /// Shown on hover.
    pub tooltip: &'static str,
    /// Whether the pointer becomes a hand over it.
    pub pointing_hand: bool,
}

/// What the tooltip of a command shows: its name, with its shortcut where it has one, and
/// below them what it does.
pub struct CommandTooltip {
    pub label: &'static str,
    pub shortcut: Option<KeyboardShortcut>,
    pub details: &'static str,
}

} // verus!
