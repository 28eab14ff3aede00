//! How recordings and blueprints are identified.
use vstd::prelude::*;
use vstd::string::*;

verus! {

/// What a store holds.
#[derive(Clone, Copy, Debug, PartialEq, Eq, Structural)]
pub enum StoreKind {
    Recording,
    Blueprint,
}

/// The identity of a store: its kind, the application it belongs to, and its own id.
#[derive(Debug)]
pub struct StoreId {
    pub kind: StoreKind,
    pub application_id: String,
    pub recording_id: String,
}

/// What identifies a store.
pub type StoreKey = (StoreKind, Seq<char>, Seq<char>);

impl View for StoreId {
    type V = StoreKey;

    open spec fn view(&self) -> StoreKey {
        (self.kind, self.application_id@, self.recording_id@)
    }
}

impl Clone for StoreId {
    fn clone(&self) -> (r: Self)
        ensures
            r == *self,
    {
        StoreId {
            kind: self.kind,
            application_id: self.application_id.clone(),
            recording_id: self.recording_id.clone(),
        }
    }
}

impl StoreId {
    pub fn is_recording(&self) -> (r: bool)
        ensures
            r == (self.kind == StoreKind::Recording),
    {
        self.kind == StoreKind::Recording
    }

    /// Whether both name the same store.
    pub fn is_same(&self, other: &StoreId) -> (r: bool)
        ensures
            r == (self@ == other@),
    {
        self.kind == other.kind && self.application_id == other.application_id
            && self.recording_id == other.recording_id
    }
}

} // verus!
