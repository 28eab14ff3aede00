//! What the interface asks the rest of the viewer to do.
use vstd::prelude::*;
use vstd::string::*;

use crate::store_id::StoreId;

verus! {

/// How a server is spoken to.
#[derive(Clone, Copy, Debug, PartialEq, Eq, Structural)]
pub enum Scheme {
    Rerun,
    RerunHttp,
    RerunHttps,
}

/// Where a server is.
#[derive(Debug)]
pub struct Origin {
    pub scheme: Scheme,
    /// The host, as it is shown.
    pub host: String,
    pub port: u16,
}

impl Clone for Origin {
    fn clone(&self) -> (r: Self)
        ensures
            r == *self,
    {
        Origin { scheme: self.scheme, host: self.host.clone(), port: self.port }
    }
}

impl Origin {
    /// Whether both are the same server.
    pub fn is_same(&self, other: &Origin) -> (r: bool)
        ensures
            r == (self@ == other@),
    {
        self.scheme == other.scheme && self.host == other.host && self.port == other.port
    }
}

impl View for Origin {
    type V = (Scheme, Seq<char>, u16);

    open spec fn view(&self) -> (Scheme, Seq<char>, u16) {
        (self.scheme, self.host@, self.port)
    }
}

/// Identifies an entry of a server.
#[derive(Clone, Copy, Debug, PartialEq, Eq, Structural)]
pub struct EntryId {
    pub id: u128,
}

/// What is named on a server: a folder, by its path, or an entry.
#[derive(Debug)]
pub enum RedapEntryKind {
    Folder(String),
    Entry(EntryId),
}

impl Clone for RedapEntryKind {
    fn clone(&self) -> (r: Self)
        ensures
            r == *self,
    {
        match self {
            RedapEntryKind::Folder(path) => RedapEntryKind::Folder(path.clone()),
            RedapEntryKind::Entry(id) => RedapEntryKind::Entry(*id),
        }
    }
}

/// What can be selected.
#[derive(Debug)]
pub enum Item {
    AppId(String),
    /// A source of data, by its address.
    DataSource(String),
    StoreId(StoreId),
    TableId(String),
    RedapServer(Origin),
    RedapEntry(Origin, RedapEntryKind),
    /// An entity, or one instance of it, by their paths.
    InstancePath(InstancePath),
    /// The same, as it is shown in a view.
    DataResult(u128, InstancePath),
}

/// An entity and, unless all instances are meant, the number of one of them.
#[derive(Debug)]
pub struct InstancePath {
    pub entity_path: String,
    pub instance: Option<u64>,
}

impl Clone for InstancePath {
    fn clone(&self) -> (r: Self)
        ensures
            r == *self,
    {
        InstancePath { entity_path: self.entity_path.clone(), instance: self.instance }
    }
}

impl Clone for Item {
    fn clone(&self) -> (r: Self)
        ensures
            r == *self,
    {
        match self {
            Item::AppId(id) => Item::AppId(id.clone()),
            Item::DataSource(source) => Item::DataSource(source.clone()),
            Item::StoreId(id) => Item::StoreId(id.clone()),
            Item::TableId(id) => Item::TableId(id.clone()),
            Item::RedapServer(origin) => Item::RedapServer(origin.clone()),
            Item::RedapEntry(origin, kind) => Item::RedapEntry(origin.clone(), kind.clone()),
            Item::InstancePath(path) => Item::InstancePath(path.clone()),
            Item::DataResult(view, path) => Item::DataResult(*view, path.clone()),
        }
    }
}

/// What the viewer can show.
#[derive(Debug)]
pub enum Route {
    Welcome,
    LocalRecording(StoreId),
    LocalTable(String),
    RedapServer(Origin),
    RedapEntry(Origin, RedapEntryKind),
}

/// Where an item is shown, for the items that have a place of their own.
pub open spec fn route_of(item: Item) -> Option<Route> {
    match item {
        Item::StoreId(id) => Some(Route::LocalRecording(id)),
        Item::TableId(id) => Some(Route::LocalTable(id)),
        Item::RedapServer(origin) => Some(Route::RedapServer(origin)),
        Item::RedapEntry(origin, kind) => Some(Route::RedapEntry(origin, kind)),
        _ => None,
    }
}

impl Route {
    /// Where an item is shown, for the items that have a place of their own.
    pub fn from_item(item: &Item) -> (r: Option<Route>)
        ensures
            r == route_of(*item),
    {
        match item {
            Item::StoreId(id) => Some(Route::LocalRecording(id.clone())),
            Item::TableId(id) => Some(Route::LocalTable(id.clone())),
            Item::RedapServer(origin) => Some(Route::RedapServer(origin.clone())),
            Item::RedapEntry(origin, kind) => Some(Route::RedapEntry(origin.clone(), kind.clone())),
            _ => None,
        }
    }
}

/// A request to the viewer as a whole.
#[derive(Debug)]
pub enum SystemCommand {
    CloseRecording(StoreId),
    CloseTable(String),
    CloseApp(String),
    ActivateApp(String),
    SetRoute(Route),
    SetSelection(Item),
    CopyViewerUrl(String),
    /// Log the user out.
    Logout,
}

/// A request to the download of a remote dataset.
#[derive(Debug)]
pub enum StreamCommand {
    /// Stop the item of this dataset that is being downloaded.
    PauseCurrentItem(String),
    /// Pause or resume a whole dataset.
    SetDatasetPaused(String, bool),
    /// Take an episode out of the download order.
    Park(StoreId),
    /// Download an episode next.
    Prioritize(StoreId),
    /// Download an episode again once its recording is closed.
    Redownload(StoreId),
}

/// A request to delete converted copies of a dataset, or of one episode of it.
#[derive(Debug)]
pub struct ArtifactDeletionRequest {
    pub application_id: String,
    pub dataset_url: String,
    /// The episode, or `None` for the whole dataset.
    pub episode: Option<usize>,
    pub target_url: String,
}

/// A request to the clock of a recording.
#[derive(Clone, Copy, Debug, PartialEq, Eq, Structural)]
pub enum TimeControlCommand {
    /// Show the timeline that the button is about.
    SetActiveTimeline,
    SetTime(i64),
    Pause,
}

/// What comes of a click.
#[derive(Debug)]
pub enum Effect {
    System(SystemCommand),
    Stream(StreamCommand),
    /// Move an episode out of its list.
    Hide(StoreId),
    /// Move an episode back into its list.
    Unhide(StoreId),
    CopyText(String),
    OpenUrl(String),
    /// Ask the user whether to delete.
    RequestDeletion(ArtifactDeletionRequest),
    /// Disconnect from a source of data, by its address.
    Disconnect(String),
}

/// Recordings, tables, servers and their entries have a page of their own, and no two of them
/// share one; nothing else has a page.
pub proof fn law_each_page_shows_one_item(a: Item, b: Item)
    ensures
        route_of(a) is Some <==> a is StoreId || a is TableId || a is RedapServer || a is RedapEntry,
        route_of(a) is Some && route_of(a) == route_of(b) ==> a == b,
        route_of(a) != Some(Route::Welcome),
        a matches Item::StoreId(id) ==> route_of(a) == Some(Route::LocalRecording(id)),
        a matches Item::TableId(id) ==> route_of(a) == Some(Route::LocalTable(id)),
{
}

} // verus!
