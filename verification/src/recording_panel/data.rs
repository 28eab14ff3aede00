//! What the panel is about.
use vstd::prelude::*;
use vstd::string::*;

use crate::effects::{EntryId, Item, Origin, RedapEntryKind};
use crate::icons::Icon;
use crate::store_id::StoreId;

verus! {

/// An entry of a server.
#[derive(Debug)]
pub struct EntryData {
    pub origin: Origin,
    pub entry_id: EntryId,
    /// The id in words.
    pub id_text: String,
    pub name: String,
    /// The last part of the name, which is what its row shows.
    pub leaf_name: String,
    pub icon: Icon,
    pub is_selected: bool,
    pub is_active: bool,
}

/// A segment of a dataset that is open: being loaded, from the source of this address, or
/// loaded.
#[derive(Debug)]
pub enum SegmentData {
    Loading(String),
    Loaded(StoreId),
}

/// A dataset and those of its segments that are open.
#[derive(Debug)]
pub struct DatasetData {
    pub entry: EntryData,
    pub segments: Vec<SegmentData>,
}

/// What a server lists.
#[derive(Debug)]
pub enum ServerLeafEntry {
    Dataset(DatasetData),
    Table(EntryData),
    /// An entry that could not be loaded, and why.
    Failed(EntryData, String),
}

/// The entries of a server, in folders.
#[derive(Debug)]
pub enum EntryTreeNode {
    Entry(ServerLeafEntry),
    Folder { name: String, path_prefix: String, children: Vec<EntryTreeNode> },
}

/// What is known of the entries of a server.
#[derive(Debug)]
pub enum ServerEntriesData {
    Loading,
    Error { message: String, is_auth_error: bool },
    Loaded { entry_tree: Vec<EntryTreeNode> },
}

/// A server.
#[derive(Debug)]
pub struct ServerData {
    pub origin: Origin,
    pub is_active: bool,
    pub is_selected: bool,
    /// Whether it is the viewer's own catalog.
    pub is_internal: bool,
    pub entries: ServerEntriesData,
}

/// An application and its recordings.
#[derive(Debug)]
pub struct AppIdData {
    pub app_id: String,
    /// What its row shows.
    pub name: String,
    pub is_active: bool,
    pub is_selected: bool,
    pub loaded_recordings: Vec<StoreId>,
}

impl ServerLeafEntry {
    pub open spec fn spec_entry(self) -> EntryData {
        match self {
            ServerLeafEntry::Dataset(dataset) => dataset.entry,
            ServerLeafEntry::Table(entry) => entry,
            ServerLeafEntry::Failed(entry, _) => entry,
        }
    }

    pub fn entry_id(&self) -> (r: EntryId)
        ensures
            r == self.spec_entry().entry_id,
    {
        match self {
            ServerLeafEntry::Dataset(dataset) => dataset.entry.entry_id,
            ServerLeafEntry::Table(entry) => entry.entry_id,
            ServerLeafEntry::Failed(entry, _) => entry.entry_id,
        }
    }
}

impl EntryData {
    /// What its row selects.
    pub open spec fn spec_item(self) -> Item {
        Item::RedapEntry(self.origin, RedapEntryKind::Entry(self.entry_id))
    }

    /// What its row selects.
    pub fn item(&self) -> (r: Item)
        ensures
            r == self.spec_item(),
    {
        Item::RedapEntry(self.origin.clone(), RedapEntryKind::Entry(self.entry_id))
    }
}

} // verus!
