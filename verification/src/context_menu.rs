//! Context-menu actions for the converted copies of episodes.
use vstd::prelude::*;
use vstd::string::*;

use crate::effects::{ArtifactDeletionRequest, Item};
use crate::recording_panel::app_rows::ArtifactsPlace;
use crate::store_id::StoreId;
use crate::text;

verus! {

/// Copy the artifacts-store address of an episode's converted rrd (shown only when one
/// exists).
#[derive(Clone, Copy, Debug, PartialEq, Eq, Structural)]
pub struct CopyRrdArtifactUrl;

/// Ask to delete one episode's converted rrd from the artifacts store.
///
/// Deletion is destructive, so this only *queues a request*: the viewer shows a confirmation
/// dialog and deletes on confirm.
#[derive(Clone, Copy, Debug, PartialEq, Eq, Structural)]
pub struct DeleteRrdArtifact;

/// Ask to delete ALL converted rrds of a dataset from the artifacts store (same confirmation
/// flow as [`DeleteRrdArtifact`]).
#[derive(Clone, Copy, Debug, PartialEq, Eq, Structural)]
pub struct DeleteDatasetRrdArtifacts;

impl CopyRrdArtifactUrl {
    /// Whether the action is for this item. `artifact_url` is the address of the converted
    /// rrd of the store that the item is, if it is one.
    pub fn supports_item(&self, item: &Item, artifact_url: &Option<String>) -> (r: bool)
        ensures
            r == (item is StoreId && artifact_url is Some),
    {
        match item {
            Item::StoreId(_) => artifact_url.is_some(),
            _ => false,
        }
    }

    pub fn label(&self) -> (r: &'static str)
        ensures
            r@ == "Copy rrd artifact address"@,
    {
        "Copy rrd artifact address"
    }

    /// The text to copy.
    pub fn process_store_id(&self, artifact_url: &Option<String>) -> (r: Option<String>)
        ensures
            r == *artifact_url,
    {
        match artifact_url {
            Some(url) => Some(url.clone()),
            None => None,
        }
    }
}

impl DeleteRrdArtifact {
    /// Whether the action is for this item.
    pub fn supports_item(&self, item: &Item, artifact_url: &Option<String>) -> (r: bool)
        ensures
            r == (item is StoreId && artifact_url is Some),
    {
        match item {
            Item::StoreId(_) => artifact_url.is_some(),
            _ => false,
        }
    }

    pub fn label(&self) -> (r: &'static str)
        ensures
            r@ == "Delete rrd artifact…"@,
    {
        "Delete rrd artifact…"
    }

    /// The request to queue. `dataset_url` is the address of the dataset, where it is known,
    /// and `episode` the number of the episode in it.
    pub fn process_store_id(
        &self,
        store_id: &StoreId,
        artifact_url: &Option<String>,
        dataset_url: &Option<String>,
        episode: Option<usize>,
    ) -> (r: Option<ArtifactDeletionRequest>)
        ensures
            r == (match *artifact_url {
                Some(target_url) => Some(
                    ArtifactDeletionRequest {
                        application_id: store_id.application_id,
                        dataset_url: match *dataset_url {
                            Some(url) => url,
                            None => store_id.application_id,
                        },
                        episode,
                        target_url,
                    },
                ),
                None => None,
            }),
    {
        match artifact_url {
            Some(target_url) => Some(
                ArtifactDeletionRequest {
                    application_id: store_id.application_id.clone(),
                    dataset_url: match dataset_url {
                        Some(url) => url.clone(),
                        None => store_id.application_id.clone(),
                    },
                    episode,
                    target_url: target_url.clone(),
                },
            ),
            None => None,
        }
    }
}

impl DeleteDatasetRrdArtifacts {
    /// Whether the action is for this item. `artifact_count` is the number of converted rrds
    /// of the application that the item is, and `artifacts` the place where they are.
    pub fn supports_item(
        &self,
        item: &Item,
        artifact_count: u64,
        artifacts: &Option<ArtifactsPlace>,
    ) -> (r: bool)
        ensures
            r == (item is AppId && artifact_count > 0 && artifacts is Some),
    {
        match item {
            Item::AppId(_) => artifact_count > 0 && artifacts.is_some(),
            _ => false,
        }
    }

    pub fn label(&self) -> (r: &'static str)
        ensures
            r@ == "Delete all rrd artifacts…"@,
    {
        "Delete all rrd artifacts…"
    }

    /// The request to queue.
    pub fn process_app_id(
        &self,
        app_id: &String,
        artifacts: &Option<ArtifactsPlace>,
        dataset_url: &Option<String>,
    ) -> (r: Option<ArtifactDeletionRequest>)
        ensures
            r is Some <==> artifacts is Some,
            r matches Some(request) ==> {
                &&& request.application_id == *app_id
                &&& request.dataset_url == (match *dataset_url {
                    Some(url) => url,
                    None => *app_id,
                })
                &&& request.episode is None
                &&& request.target_url@ == "tos://"@ + artifacts->0.bucket@ + "/"@
                    + artifacts->0.dir@
            },
    {
        match artifacts {
            Some(place) => Some(
                ArtifactDeletionRequest {
                    application_id: app_id.clone(),
                    dataset_url: match dataset_url {
                        Some(url) => url.clone(),
                        None => app_id.clone(),
                    },
                    episode: None,
                    target_url: text::cat4("tos://", place.bucket.as_str(), "/", place.dir.as_str()),
                },
            ),
            None => None,
        }
    }
}

/// Who asks to delete the copy of an episode asks for that copy and that episode; who asks to
/// delete those of a dataset asks for the place of all of them, and for no single episode. The
/// dataset is named by where it was opened from, where that is known.
pub proof fn law_deletion_is_about_what_was_clicked(
    store_id: StoreId,
    artifact_url: Option<String>,
    dataset_url: Option<String>,
    episode: Option<usize>,
    place: Option<ArtifactsPlace>,
    of_episode: Option<ArtifactDeletionRequest>,
    of_dataset: Option<ArtifactDeletionRequest>,
)
    requires
        call_ensures(
            DeleteRrdArtifact::process_store_id,
            (&DeleteRrdArtifact, &store_id, &artifact_url, &dataset_url, episode),
            of_episode,
        ),
        call_ensures(
            DeleteDatasetRrdArtifacts::process_app_id,
            (&DeleteDatasetRrdArtifacts, &store_id.application_id, &place, &dataset_url),
            of_dataset,
        ),
    ensures
        of_episode is Some <==> artifact_url is Some,
        of_dataset is Some <==> place is Some,
        of_episode matches Some(request) ==> request.target_url == artifact_url->0
            && request.episode == episode && request.application_id == store_id.application_id,
        of_dataset matches Some(request) ==> request.episode is None && request.application_id
            == store_id.application_id,
        of_episode matches Some(one) ==> (of_dataset matches Some(all) ==> one.dataset_url
            == all.dataset_url),
        dataset_url is Some ==> (of_episode matches Some(request) ==> request.dataset_url
            == dataset_url->0),
{
}

} // verus!
