//! Where datasets are read from, and where their converted copies are stored.
use vstd::prelude::*;
use vstd::string::*;

verus! {

/// A place in an object store.
#[derive(Debug)]
pub struct TosLocation {
    pub bucket: String,
    pub prefix: String,
}

impl Clone for TosLocation {
    fn clone(&self) -> (r: Self)
        ensures
            r == *self,
    {
        TosLocation { bucket: self.bucket.clone(), prefix: self.prefix.clone() }
    }
}

/// How to connect to an object store.
#[derive(Debug)]
pub struct TosCredentials {
    pub endpoint: String,
    /// The region to sign for; empty for that of the endpoint.
    pub region: String,
    pub access_key: String,
    pub secret_key: String,
}

impl View for TosCredentials {
    type V = (Seq<char>, Seq<char>, Seq<char>, Seq<char>);

    /// Endpoint, region, access key and secret key.
    open spec fn view(&self) -> (Seq<char>, Seq<char>, Seq<char>, Seq<char>) {
        (self.endpoint@, self.region@, self.access_key@, self.secret_key@)
    }
}

/// Where converted copies are stored.
#[derive(Debug)]
pub struct RrdArtifactsConfig {
    pub location: TosLocation,
    pub credentials: TosCredentials,
    /// Whether new copies are uploaded.
    pub write_back: bool,
    /// How many to fetch at once; zero for automatic.
    pub prefetch_items: usize,
}

/// A dataset in an object store.
#[derive(Debug)]
pub struct TosDatasetSource {
    pub location: TosLocation,
    pub credentials: TosCredentials,
    pub rrd_artifacts: Option<RrdArtifactsConfig>,
}

/// A dataset, or a single file of one, on Hugging Face.
#[derive(Debug)]
pub struct HfDatasetSource {
    pub repo: String,
    pub file_path: Option<String>,
    pub token: String,
    pub rrd_artifacts: Option<RrdArtifactsConfig>,
}

/// A remote dataset.
#[derive(Debug)]
pub enum LogDataSource {
    TosDataset(TosDatasetSource),
    HfDataset(HfDatasetSource),
}

/// The converted copies of a dataset, as views: location, connection, upload, prefetch.
pub type ArtifactsView = (
    (Seq<char>, Seq<char>),
    (Seq<char>, Seq<char>, Seq<char>, Seq<char>),
    bool,
    usize,
);

impl View for RrdArtifactsConfig {
    type V = ArtifactsView;

    open spec fn view(&self) -> ArtifactsView {
        (
            (self.location.bucket@, self.location.prefix@),
            self.credentials@,
            self.write_back,
            self.prefetch_items,
        )
    }
}

/// The view of an optional place for converted copies.
pub open spec fn opt_artifacts(a: Option<RrdArtifactsConfig>) -> Option<ArtifactsView> {
    match a {
        Some(a) => Some(a@),
        None => None,
    }
}

} // verus!
