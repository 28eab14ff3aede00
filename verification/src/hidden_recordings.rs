//! Session-level "hidden" flags for recordings (dataset episodes), driving the recording
//! panel's collapsed "Hidden episodes" group.
//!
//! The flags are purely visual: they touch neither the data of an episode nor its download. The
//! button of a row that hides it also takes it out of the download order, and closing it is
//! what frees memory. The flags are not persisted: episodes get fresh recording ids on every
//! dataset open, so there is nothing stable to persist against.
use vstd::prelude::*;
use vstd::string::*;

use crate::store_id::{StoreId, StoreKind};

verus! {

#[verifier::external_type_specification]
#[verifier::external_body]
pub struct ExRandomState(ahash::RandomState);

/// What a set of hidden recordings holds: for each of them whether it is a blueprint, its
/// application and its own id.
pub uninterp spec fn hidden_ids(
    set: std::collections::HashSet<(bool, String, String), ahash::RandomState>,
) -> Set<(bool, Seq<char>, Seq<char>)>;

/// `ahash::HashSet::default` holds nothing.
#[verifier::external_body]
fn ahash_set_new() -> (r: ahash::HashSet<(bool, String, String)>)
    ensures
        hidden_ids(r) == Set::<(bool, Seq<char>, Seq<char>)>::empty(),
{
    ahash::HashSet::default()
}

/// `insert` on an `ahash::HashSet` adds what is equal to nothing in it, and changes nothing
/// else.
#[verifier::external_body]
fn ahash_set_insert(
    set: &mut ahash::HashSet<(bool, String, String)>,
    blueprint: bool,
    app: String,
    id: String,
)
    ensures
        hidden_ids(*final(set)) == hidden_ids(*old(set)).insert((blueprint, app@, id@)),
{
    set.insert((blueprint, app, id));
}

/// `remove` on an `ahash::HashSet` takes out what is equal to its argument, and nothing else.
#[verifier::external_body]
fn ahash_set_remove(
    set: &mut ahash::HashSet<(bool, String, String)>,
    blueprint: bool,
    app: String,
    id: String,
)
    ensures
        hidden_ids(*final(set)) == hidden_ids(*old(set)).remove((blueprint, app@, id@)),
{
    set.remove(&(blueprint, app, id));
}

/// `contains` on an `ahash::HashSet` tells whether something in it is equal to its argument.
#[verifier::external_body]
fn ahash_set_contains(
    set: &ahash::HashSet<(bool, String, String)>,
    blueprint: bool,
    app: String,
    id: String,
) -> (r: bool)
    ensures
        r == hidden_ids(*set).contains((blueprint, app@, id@)),
{
    set.contains(&(blueprint, app, id))
}

/// The recordings that are hidden in this session.
pub struct HiddenRecordings {
    ids: ahash::HashSet<(bool, String, String)>,
}

/// What stands for a store in the set.
pub open spec fn key_of(id: StoreId) -> (bool, Seq<char>, Seq<char>) {
    (id.kind == StoreKind::Blueprint, id.application_id@, id.recording_id@)
}

impl View for HiddenRecordings {
    type V = Set<(bool, Seq<char>, Seq<char>)>;

    closed spec fn view(&self) -> Set<(bool, Seq<char>, Seq<char>)> {
        hidden_ids(self.ids)
    }
}

impl HiddenRecordings {
    /// Whether a recording is hidden.
    pub open spec fn hides(&self, id: StoreId) -> bool {
        self@.contains(key_of(id))
    }

    /// Nothing is hidden.
    pub fn new() -> (r: Self)
        ensures
            r@ == Set::<(bool, Seq<char>, Seq<char>)>::empty(),
    {
        HiddenRecordings { ids: ahash_set_new() }
    }

    /// Hide a recording: the panel moves it into the "Hidden episodes" group.
    pub fn hide_recording(&mut self, store_id: StoreId)
        ensures
            final(self)@ == old(self)@.insert(key_of(store_id)),
    {
        let blueprint: bool = store_id.kind == StoreKind::Blueprint;
        ahash_set_insert(&mut self.ids, blueprint, store_id.application_id, store_id.recording_id);
    }

    /// Un-hide a recording: the panel moves it back into the regular list.
    pub fn unhide(&mut self, store_id: &StoreId)
        ensures
            final(self)@ == old(self)@.remove(key_of(*store_id)),
    {
        let blueprint: bool = store_id.kind == StoreKind::Blueprint;
        ahash_set_remove(
            &mut self.ids,
            blueprint,
            store_id.application_id.clone(),
            store_id.recording_id.clone(),
        );
    }

    pub fn is_hidden(&self, store_id: &StoreId) -> (r: bool)
        ensures
            r == self.hides(*store_id),
    {
        let blueprint: bool = store_id.kind == StoreKind::Blueprint;
        ahash_set_contains(
            &self.ids,
            blueprint,
            store_id.application_id.clone(),
            store_id.recording_id.clone(),
        )
    }
}

/// Hiding hides one recording and leaves all others as they were; un-hiding brings it back;
/// either of them, done twice, is done.
pub proof fn law_hiding_is_per_recording(
    hidden: Set<(bool, Seq<char>, Seq<char>)>,
    id: StoreId,
    other: StoreId,
)
    ensures
        hidden.insert(key_of(id)).contains(key_of(id)),
        !hidden.remove(key_of(id)).contains(key_of(id)),
        other@ != id@ ==> hidden.insert(key_of(id)).contains(key_of(other)) == hidden.contains(
            key_of(other),
        ),
        other@ != id@ ==> hidden.remove(key_of(id)).contains(key_of(other)) == hidden.contains(
            key_of(other),
        ),
        hidden.insert(key_of(id)).insert(key_of(id)) == hidden.insert(key_of(id)),
        hidden.remove(key_of(id)).remove(key_of(id)) == hidden.remove(key_of(id)),
        !hidden.contains(key_of(id)) ==> hidden.insert(key_of(id)).remove(key_of(id)) == hidden,
{
    assert(hidden.insert(key_of(id)).insert(key_of(id)) =~= hidden.insert(key_of(id)));
    assert(hidden.remove(key_of(id)).remove(key_of(id)) =~= hidden.remove(key_of(id)));
    if !hidden.contains(key_of(id)) {
        assert(hidden.insert(key_of(id)).remove(key_of(id)) =~= hidden);
    }
}

} // verus!
