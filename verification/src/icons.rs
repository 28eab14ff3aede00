//! The icons that the interface chooses between.
use vstd::prelude::*;

verus! {

/// An icon, by name.
#[derive(Clone, Copy, Debug, PartialEq, Eq, Structural)]
pub enum Icon {
    Add,
    Application,
    Blueprint,
    Close,
    CloseSmall,
    DataSource,
    Dataset,
    Discord,
    Entity,
    EntityEmpty,
    EntityReserved,
    EntityReservedEmpty,
    ExternalLink,
    Home,
    Invisible,
    Pause,
    Play,
    Recording,
    Remove,
    Reset,
    Table,
    ViewUnknown,
    Visible,
}

} // verus!
