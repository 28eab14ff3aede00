//! Session restore: on startup, re-open the remote datasets that were still open when the
//! viewer last shut down, so a restart looks like the page was never closed.
//!
//! Only entries stamped `open_at_exit` come back (a dataset the user closed stays closed).
//! Credentials are resolved silently from the deployment/user config; entries whose
//! credentials cannot be resolved are skipped and stay in the welcome screen's recents list
//! for manual opening.
use vstd::prelude::*;
use vstd::string::*;

use crate::data_source;
use crate::data_source::{
    ArtifactsView, HfDatasetSource, LogDataSource, TosCredentials, TosDatasetSource, TosLocation,
};
use crate::dialogs::open_hf::HfDatasetInput;
use crate::recent_datasets::{RecentDataset, RecentKind};
use crate::text;
use crate::viewer_config;
use crate::viewer_config::ViewerConfig;

verus! {

/// How long to wait for the config fetch before restoring without it, in nanoseconds.
pub const CONFIG_WAIT_NANOS: u64 = 5_000_000_000;

/// How far the restoring of the session has come.
#[derive(Clone, Copy, Debug, PartialEq, Eq, Structural)]
pub struct SessionRestore {
    /// Whether it is done with, one way or another.
    pub attempted: bool,
    /// Since when it waits for the config, in nanoseconds.
    pub wait_since: Option<u64>,
}

/// What is known at startup.
#[derive(Clone, Copy, Debug, PartialEq, Eq, Structural)]
pub struct StartupFacts {
    /// Whether the viewer keeps its state at all.
    pub persist_state: bool,
    /// Whether a recording is open.
    pub has_recordings: bool,
    /// Whether something is being loaded.
    pub has_sources: bool,
}

/// Whether a dataset was open when the viewer was shut down.
pub open spec fn any_open_at_exit(recents: Seq<RecentDataset>) -> bool {
    exists|i: int| 0 <= i < recents.len() && (#[trigger] recents[i]).open_at_exit
}

/// There is a session to restore. If something else is already loading or loaded (an
/// argument, a `?url=` parameter, a dropped file), the user asked for that data: don't butt
/// in with the old session.
pub open spec fn wants_restore(facts: StartupFacts, recents: Seq<RecentDataset>) -> bool {
    &&& facts.persist_state
    &&& any_open_at_exit(recents)
    &&& !facts.has_recordings
    &&& !facts.has_sources
}

/// What to do about the config.
#[derive(Clone, Copy, Debug, PartialEq, Eq, Structural)]
pub enum ConfigWait {
    /// It is there.
    Ready,
    /// Try again next frame.
    Wait,
    /// It never arrived: restore what works without it.
    GiveUp,
}

impl SessionRestore {
    pub fn new() -> (r: Self)
        ensures
            !r.attempted,
            r.wait_since is None,
    {
        SessionRestore { attempted: false, wait_since: None }
    }

    /// Whether there is a session to restore: the config is then needed. If there is none,
    /// the matter is closed.
    pub fn needs_config(&mut self, facts: StartupFacts, recents: &Vec<RecentDataset>) -> (r: bool)
        ensures
            r == asks_config(*old(self), facts, recents@),
            *final(self) == (SessionRestore { attempted: !r, ..*old(self) }),
    {
        if self.attempted {
            return false;
        }
        let n: usize = recents.len();
        let mut any: bool = false;
        let mut i: usize = 0;
        while i < n
            invariant
                i <= n,
                n == recents@.len(),
                any == exists|j: int| 0 <= j < i && (#[trigger] recents@[j]).open_at_exit,
            decreases n - i,
        {
            if recents[i].open_at_exit {
                any = true;
            }
            i += 1;
        }
        if facts.persist_state && any && !facts.has_recordings && !facts.has_sources {
            true
        } else {
            self.attempted = true;
            false
        }
    }

    /// Wait, briefly, for the config: `Wait` asks to be called again in the next frame, the
    /// other answers end the waiting.
    pub fn await_config(&mut self, config_is_there: bool, now: u64) -> (r: ConfigWait)
        ensures
            r == config_wait(*old(self), config_is_there, now),
            *final(self) == after_wait(*old(self), config_is_there, now),
    {
        if config_is_there {
            self.attempted = true;
            return ConfigWait::Ready;
        }
        let started: u64 = match self.wait_since {
            Some(started) => started,
            None => now,
        };
        self.wait_since = Some(started);
        if now.saturating_sub(started) < CONFIG_WAIT_NANOS {
            ConfigWait::Wait
        } else {
            self.attempted = true;
            ConfigWait::GiveUp
        }
    }
}

/// When the waiting began: now, if it had not.
pub open spec fn waiting_since(s: SessionRestore, now: u64) -> u64 {
    match s.wait_since {
        Some(started) => started,
        None => now,
    }
}

/// How long the config was waited for.
pub open spec fn waited(s: SessionRestore, now: u64) -> int {
    now - waiting_since(s, now)
}

/// Whether the session is still to be restored, so that the config is needed.
pub open spec fn asks_config(
    s: SessionRestore,
    facts: StartupFacts,
    recents: Seq<RecentDataset>,
) -> bool {
    !s.attempted && wants_restore(facts, recents)
}

/// What to do about the config.
pub open spec fn config_wait(s: SessionRestore, config_is_there: bool, now: u64) -> ConfigWait {
    if config_is_there {
        ConfigWait::Ready
    } else if waited(s, now) < CONFIG_WAIT_NANOS {
        ConfigWait::Wait
    } else {
        ConfigWait::GiveUp
    }
}

/// How far the restoring has come after that.
pub open spec fn after_wait(s: SessionRestore, config_is_there: bool, now: u64) -> SessionRestore {
    SessionRestore {
        attempted: s.attempted || config_wait(s, config_is_there, now) != ConfigWait::Wait,
        wait_since: if config_is_there {
            s.wait_since
        } else {
            Some(waiting_since(s, now))
        },
    }
}

// ---------------------------------------------------------------------------------------
// Sources

/// A dataset to restore, with what its address means.
#[derive(Debug)]
pub struct RestoreCandidate {
    pub recent: RecentDataset,
    /// The place in an object store that the address names.
    pub tos_location: Option<TosLocation>,
    /// The endpoint of the region of the dataset.
    pub tos_endpoint: String,
    /// What the address names on Hugging Face.
    pub hf: Option<HfDatasetInput>,
}

/// Whether a dataset is restored: if it was open, its address makes sense and, for one in an
/// object store, there are credentials.
pub open spec fn is_restored(c: RestoreCandidate, config: ViewerConfig) -> bool {
    c.recent.open_at_exit && match c.recent.kind {
        RecentKind::Tos => c.tos_location is Some && viewer_config::are_keys(
            config.tos_access_key@,
            config.tos_secret_key@,
        ),
        RecentKind::Hf => c.hf is Some,
    }
}

/// What a restored dataset is read from, as views.
pub enum SourceView {
    Tos(
        (Seq<char>, Seq<char>),
        (Seq<char>, Seq<char>, Seq<char>, Seq<char>),
        Option<ArtifactsView>,
    ),
    Hf(Seq<char>, Option<Seq<char>>, Seq<char>, Option<ArtifactsView>),
}

pub open spec fn source_view(source: LogDataSource) -> SourceView {
    match source {
        LogDataSource::TosDataset(s) => SourceView::Tos(
            (s.location.bucket@, s.location.prefix@),
            s.credentials@,
            data_source::opt_artifacts(s.rrd_artifacts),
        ),
        LogDataSource::HfDataset(s) => SourceView::Hf(
            s.repo@,
            match s.file_path {
                Some(path) => Some(path@),
                None => None,
            },
            s.token@,
            data_source::opt_artifacts(s.rrd_artifacts),
        ),
    }
}

pub open spec fn source_views(list: Seq<LogDataSource>) -> Seq<SourceView> {
    Seq::new(list.len(), |i: int| source_view(list[i]))
}

/// What a restored dataset is read from: with the config's credentials, and with its place
/// for converted copies.
pub open spec fn restored_source(
    c: RestoreCandidate,
    config: ViewerConfig,
    store: Option<TosLocation>,
) -> SourceView {
    let artifacts = viewer_config::resolved_artifacts(config, store, true);
    match c.recent.kind {
        RecentKind::Tos => SourceView::Tos(
            (c.tos_location->0.bucket@, c.tos_location->0.prefix@),
            (
                c.tos_endpoint@,
                Seq::<char>::empty(),
                config.tos_access_key@,
                config.tos_secret_key@,
            ),
            artifacts,
        ),
        RecentKind::Hf => SourceView::Hf(
            c.hf->0.repo@,
            match c.hf->0.file_path {
                Some(path) => Some(path@),
                None => None,
            },
            config.hf_token@,
            artifacts,
        ),
    }
}

/// The datasets that come back, in the order of the list.
pub open spec fn restored_sources(
    candidates: Seq<RestoreCandidate>,
    config: ViewerConfig,
    store: Option<TosLocation>,
) -> Seq<SourceView>
    decreases candidates.len(),
{
    if candidates.len() == 0 {
        Seq::empty()
    } else {
        let before = restored_sources(candidates.drop_last(), config, store);
        if is_restored(candidates.last(), config) {
            before.push(restored_source(candidates.last(), config, store))
        } else {
            before
        }
    }
}

fn restore_one(c: &RestoreCandidate, config: &ViewerConfig, store: &Option<TosLocation>) -> (r:
    Option<LogDataSource>)
    ensures
        r is Some <==> is_restored(*c, *config),
        r matches Some(source) ==> source_view(source) == restored_source(*c, *config, *store),
{
    if !c.recent.open_at_exit {
        return None;
    }
    match c.recent.kind {
        RecentKind::Tos => match &c.tos_location {
            None => None,
            Some(location) => {
                if !config.has_tos_credentials() {
                    return None;
                }
                Some(
                    LogDataSource::TosDataset(
                        TosDatasetSource {
                            location: location.clone(),
                            credentials: TosCredentials {
                                endpoint: c.tos_endpoint.clone(),
                                region: String::new(),
                                access_key: config.tos_access_key.clone(),
                                secret_key: config.tos_secret_key.clone(),
                            },
                            rrd_artifacts: config.rrd_artifacts(store, true),
                        },
                    ),
                )
            },
        },
        RecentKind::Hf => match &c.hf {
            None => None,
            Some(input) => Some(
                LogDataSource::HfDataset(
                    HfDatasetSource {
                        repo: input.repo.clone(),
                        file_path: match &input.file_path {
                            Some(path) => Some(path.clone()),
                            None => None,
                        },
                        token: config.hf_token.clone(),
                        rrd_artifacts: config.rrd_artifacts(store, true),
                    },
                ),
            ),
        },
    }
}

/// What is said of a dataset that was open: that it comes back, or that it does not for want
/// of credentials. Of one whose address makes no sense nothing is said.
pub open spec fn restore_words(c: RestoreCandidate, config: ViewerConfig) -> Option<Seq<char>> {
    if is_restored(c, config) {
        Some("Restoring dataset from the previous session: "@ + c.recent.url@)
    } else if c.recent.open_at_exit && c.recent.kind == RecentKind::Tos && c.tos_location is Some {
        Some(
            "Not re-opening "@ + c.recent.url@
                + " from the last session — no stored credentials; open it from the welcome screen instead."@,
        )
    } else {
        None
    }
}

/// What is said of a dataset that was open when the viewer was shut down.
pub fn restore_message(c: &RestoreCandidate, config: &ViewerConfig) -> (r: Option<String>)
    ensures
        text::opt_view(r) == restore_words(*c, *config),
{
    if !c.recent.open_at_exit {
        return None;
    }
    let found: bool = match c.recent.kind {
        RecentKind::Tos => c.tos_location.is_some(),
        RecentKind::Hf => c.hf.is_some(),
    };
    if !found {
        return None;
    }
    if c.recent.kind == RecentKind::Tos && !config.has_tos_credentials() {
        Some(
            text::cat3(
                "Not re-opening ",
                c.recent.url.as_str(),
                " from the last session — no stored credentials; open it from the welcome screen instead.",
            ),
        )
    } else {
        Some(
            text::cat2(
                "Restoring dataset from the previous session: ",
                c.recent.url.as_str(),
            ),
        )
    }
}

/// The datasets that come back, in the order of the list. `store` is what the config's
/// address for converted copies names.
pub fn sources_to_restore(
    candidates: &Vec<RestoreCandidate>,
    config: &ViewerConfig,
    store: &Option<TosLocation>,
) -> (r: Vec<LogDataSource>)
    ensures
        source_views(r@) == restored_sources(candidates@, *config, *store),
{
    let n: usize = candidates.len();
    let mut out: Vec<LogDataSource> = Vec::new();
    let mut i: usize = 0;
    assert(source_views(out@) =~= Seq::empty());
    while i < n
        invariant
            i <= n,
            n == candidates@.len(),
            source_views(out@) == restored_sources(candidates@.take(i as int), *config, *store),
        decreases n - i,
    {
        assert(candidates@.take(i + 1).drop_last() =~= candidates@.take(i as int));
        if let Some(source) = restore_one(&candidates[i], config, store) {
            let ghost before = out@;
            out.push(source);
            assert(source_views(out@) =~= source_views(before).push(source_view(source)));
        }
        i += 1;
    }
    assert(candidates@.take(n as int) =~= candidates@);
    out
}

// ---------------------------------------------------------------------------------------
// Laws

/// Each restored dataset is one that was open at exit, and each that was, and can be, is
/// restored.
pub proof fn law_what_was_open_comes_back(
    candidates: Seq<RestoreCandidate>,
    config: ViewerConfig,
    store: Option<TosLocation>,
    source: SourceView,
)
    ensures
        restored_sources(candidates, config, store).contains(source) <==> exists|i: int|
            0 <= i < candidates.len() && #[trigger] brings_back(candidates[i], config, store, source),
    decreases candidates.len(),
{
    if candidates.len() > 0 {
        let front = candidates.drop_last();
        law_what_was_open_comes_back(front, config, store, source);
        let before = restored_sources(front, config, store);
        let all = restored_sources(candidates, config, store);
        if all.contains(source) {
            let k = choose|k: int| 0 <= k < all.len() && all[k] == source;
            if k < before.len() {
                assert(before[k] == source);
                let i = choose|i: int|
                    0 <= i < front.len() && #[trigger] brings_back(front[i], config, store, source);
                assert(brings_back(candidates[i], config, store, source));
            } else {
                assert(brings_back(candidates[candidates.len() - 1], config, store, source));
            }
        }
        if exists|i: int|
            0 <= i < candidates.len() && #[trigger] brings_back(
                candidates[i],
                config,
                store,
                source,
            ) {
            let i = choose|i: int|
                0 <= i < candidates.len() && #[trigger] brings_back(
                    candidates[i],
                    config,
                    store,
                    source,
                );
            if i < front.len() {
                assert(brings_back(front[i], config, store, source));
                let k = choose|k: int| 0 <= k < before.len() && before[k] == source;
                assert(all[k] == source);
            } else {
                assert(all[all.len() - 1] == source);
            }
        }
    }
}

/// Whether restoring a dataset brings back this source.
pub open spec fn brings_back(
    c: RestoreCandidate,
    config: ViewerConfig,
    store: Option<TosLocation>,
    source: SourceView,
) -> bool {
    is_restored(c, config) && restored_source(c, config, store) == source
}

/// Without any config only datasets on Hugging Face come back, without a token and without a
/// place for converted copies.
pub proof fn law_without_config_only_public_data(
    c: RestoreCandidate,
    config: ViewerConfig,
    artifacts_url: Seq<char>,
    store: Option<TosLocation>,
)
    requires
        viewer_config::is_default(config, artifacts_url),
        is_restored(c, config),
    ensures
        restored_source(c, config, store) matches SourceView::Hf(_, _, token, artifacts)
            && token.len() == 0 && artifacts is None,
{
}

/// The session is restored at most once: after the config was there, or was given up on, it
/// is not asked for again, whatever happens.
pub proof fn law_restore_happens_once(
    s: SessionRestore,
    config_is_there: bool,
    now: u64,
    facts: StartupFacts,
    recents: Seq<RecentDataset>,
)
    requires
        config_wait(s, config_is_there, now) != ConfigWait::Wait,
    ensures
        !asks_config(after_wait(s, config_is_there, now), facts, recents),
{
}

/// The waiting for the config ends: once it has begun it is over after five seconds, however
/// often it is asked for in between.
pub proof fn law_waiting_ends(s: SessionRestore, now: u64, later: u64)
    requires
        config_wait(s, false, now) == ConfigWait::Wait,
        later >= waiting_since(s, now) + CONFIG_WAIT_NANOS,
    ensures
        config_wait(after_wait(s, false, now), false, later) == ConfigWait::GiveUp,
        waiting_since(after_wait(s, false, now), later) == waiting_since(s, now),
{
}

/// What comes back is the data that was open, from where its address leads, with the keys of
/// the settings: each part of the source is that of the dataset or of the settings.
pub proof fn law_restored_source_names_its_data(
    c: RestoreCandidate,
    config: ViewerConfig,
    store: Option<TosLocation>,
    source: LogDataSource,
)
    requires
        is_restored(c, config),
        source_view(source) == restored_source(c, config, store),
    ensures
        c.recent.open_at_exit,
        c.recent.kind == RecentKind::Hf ==> (source matches LogDataSource::HfDataset(s) && {
            &&& c.hf matches Some(input) && s.repo@ == input.repo@ && text::opt_view(s.file_path)
                == text::opt_view(input.file_path)
            &&& s.token@ == config.hf_token@
        }),
        c.recent.kind == RecentKind::Tos ==> (source matches LogDataSource::TosDataset(s) && {
            &&& c.tos_location matches Some(place) && s.location.bucket@ == place.bucket@
                && s.location.prefix@ == place.prefix@
            &&& s.credentials.endpoint@ == c.tos_endpoint@
            &&& s.credentials.region@.len() == 0
            &&& s.credentials.access_key@ == config.tos_access_key@
            &&& s.credentials.secret_key@ == config.tos_secret_key@
            &&& s.credentials.access_key@.len() > 0
            &&& s.credentials.secret_key@.len() > 0
        }),
        data_source::opt_artifacts(
            match source {
                LogDataSource::TosDataset(s) => s.rrd_artifacts,
                LogDataSource::HfDataset(s) => s.rrd_artifacts,
            },
        ) == viewer_config::resolved_artifacts(config, store, true),
{
}

/// A dataset that was open comes back unless its address makes no sense or, in an object
/// store, one of the two keys is missing. One that was closed never does.
pub proof fn law_when_a_dataset_comes_back(c: RestoreCandidate, config: ViewerConfig)
    ensures
        !c.recent.open_at_exit ==> !is_restored(c, config),
        c.recent.open_at_exit && c.recent.kind == RecentKind::Hf ==> (is_restored(c, config)
            <==> c.hf is Some),
        c.recent.open_at_exit && c.recent.kind == RecentKind::Tos ==> (is_restored(c, config)
            <==> c.tos_location is Some && config.tos_access_key@.len() > 0
            && config.tos_secret_key@.len() > 0),
{
}

/// The datasets come back in the order of the list, each on its own: a list that is put
/// together brings back what its parts do, one part after the other.
pub proof fn law_datasets_come_back_in_order(
    a: Seq<RestoreCandidate>,
    b: Seq<RestoreCandidate>,
    c: RestoreCandidate,
    config: ViewerConfig,
    store: Option<TosLocation>,
)
    ensures
        restored_sources(a + b, config, store) == restored_sources(a, config, store)
            + restored_sources(b, config, store),
        restored_sources(seq![c], config, store) == (if is_restored(c, config) {
            seq![restored_source(c, config, store)]
        } else {
            Seq::empty()
        }),
    decreases b.len(),
{
    reveal_with_fuel(restored_sources, 2);
    assert(seq![c].drop_last() =~= Seq::<RestoreCandidate>::empty());
    if is_restored(c, config) {
        assert(restored_sources(seq![c], config, store) =~= seq![
            restored_source(c, config, store),
        ]);
    }
    if b.len() == 0 {
        assert(a + b =~= a);
    } else {
        law_datasets_come_back_in_order(a, b.drop_last(), c, config, store);
        assert((a + b).drop_last() =~= a + b.drop_last());
    }
}

/// Whatever is said of a dataset names it. It is said that it comes back exactly if it does.
pub proof fn law_message_fits_what_happens(c: RestoreCandidate, config: ViewerConfig)
    ensures
        is_restored(c, config) <==> (restore_words(c, config) matches Some(words)
            && text::starts_with(words, "Restoring dataset"@)),
        restore_words(c, config) matches Some(words) ==> c.recent.open_at_exit && text::occurs_in(
            words,
            c.recent.url@,
        ),
        c.recent.open_at_exit && c.recent.kind == RecentKind::Tos && c.tos_location is Some
            ==> restore_words(c, config) is Some,
{
    let url = c.recent.url@;
    let restoring = "Restoring dataset from the previous session: "@;
    let not_opening = "Not re-opening "@;
    let why =
        " from the last session — no stored credentials; open it from the welcome screen instead."@;
    reveal_strlit("Restoring dataset from the previous session: ");
    reveal_strlit("Restoring dataset");
    reveal_strlit("Not re-opening ");
    assert((restoring + url).subrange(0, 17) =~= "Restoring dataset"@);
    assert(text::starts_with(restoring + url, "Restoring dataset"@));
    assert((restoring + url).subrange(restoring.len() as int, (restoring + url).len() as int) =~= url);
    assert(text::occurs_at(restoring + url, url, restoring.len() as int));
    let other = not_opening + url + why;
    assert(other.subrange(not_opening.len() as int, not_opening.len() as int + url.len()) =~= url);
    assert(text::occurs_at(other, url, not_opening.len() as int));
    if text::starts_with(other, "Restoring dataset"@) {
        assert(other.subrange(0, 17)[0] == other[0]);
        assert("Restoring dataset"@[0] == 'R');
        assert(other[0] == 'N');
    }
}

/// A session is restored only into a viewer that keeps its state and has nothing else to show,
/// and only if something was open.
pub proof fn law_restores_only_into_an_empty_viewer(
    s: SessionRestore,
    facts: StartupFacts,
    recents: Seq<RecentDataset>,
)
    ensures
        asks_config(s, facts, recents) <==> {
            &&& !s.attempted
            &&& facts.persist_state
            &&& !facts.has_recordings
            &&& !facts.has_sources
            &&& exists|i: int| 0 <= i < recents.len() && (#[trigger] recents[i]).open_at_exit
        },
{
}

/// The settings are taken as soon as they are there, and waited for from the first time on
/// that they are missing, for five seconds.
pub proof fn law_settings_are_waited_for(s: SessionRestore, now: u64)
    ensures
        config_wait(s, true, now) == ConfigWait::Ready,
        s.wait_since is None ==> config_wait(s, false, now) == ConfigWait::Wait && after_wait(
            s,
            false,
            now,
        ).wait_since == Some(now),
        s.wait_since matches Some(since) ==> {
            &&& config_wait(s, false, now) == ConfigWait::Wait <==> now - since < 5_000_000_000
            &&& config_wait(s, false, now) == ConfigWait::GiveUp <==> now - since >= 5_000_000_000
            &&& after_wait(s, false, now).wait_since == Some(since)
        },
{
}

/// Where every dataset can come back, each of them does: in the order in which they were
/// remembered, one source for each, and a single file as that file.
pub proof fn law_every_dataset_gets_its_source(
    candidates: Vec<RestoreCandidate>,
    config: ViewerConfig,
    store: Option<TosLocation>,
    sources: Vec<LogDataSource>,
    at: int,
)
    requires
        call_ensures(sources_to_restore, (&candidates, &config, &store), sources),
        forall|i: int| 0 <= i < candidates@.len() ==> #[trigger] is_restored(candidates@[i], config),
        0 <= at < candidates@.len(),
    ensures
        sources@.len() == candidates@.len(),
        sources@[at] matches LogDataSource::HfDataset(s) ==> {
            &&& candidates@[at].recent.kind == RecentKind::Hf
            &&& s.repo@ == candidates@[at].hf->0.repo@
            &&& text::opt_view(s.file_path) == text::opt_view(candidates@[at].hf->0.file_path)
            &&& s.token@ == config.hf_token@
        },
        sources@[at] matches LogDataSource::TosDataset(s) ==> {
            &&& candidates@[at].recent.kind == RecentKind::Tos
            &&& s.location.bucket@ == candidates@[at].tos_location->0.bucket@
            &&& s.location.prefix@ == candidates@[at].tos_location->0.prefix@
            &&& s.credentials.access_key@ == config.tos_access_key@
            &&& s.credentials.secret_key@ == config.tos_secret_key@
        },
{
    lemma_all_restored(candidates@, config, store);
    let views = source_views(sources@);
    assert(views.len() == sources@.len());
    assert(views[at] == source_view(sources@[at]));
    assert(views[at] == restored_source(candidates@[at], config, store));
    law_restored_source_names_its_data(candidates@[at], config, store, sources@[at]);
}

proof fn lemma_all_restored(
    candidates: Seq<RestoreCandidate>,
    config: ViewerConfig,
    store: Option<TosLocation>,
)
    requires
        forall|i: int| 0 <= i < candidates.len() ==> #[trigger] is_restored(candidates[i], config),
    ensures
        restored_sources(candidates, config, store).len() == candidates.len(),
        forall|i: int|
            0 <= i < candidates.len() ==> #[trigger] restored_sources(candidates, config, store)[i]
                == restored_source(candidates[i], config, store),
    decreases candidates.len(),
{
    if candidates.len() > 0 {
        let front = candidates.drop_last();
        assert forall|i: int| 0 <= i < front.len() implies #[trigger] is_restored(
            front[i],
            config,
        ) by {
            assert(is_restored(candidates[i], config));
        }
        lemma_all_restored(front, config, store);
        assert(is_restored(candidates[candidates.len() - 1], config));
        let all = restored_sources(candidates, config, store);
        let before = restored_sources(front, config, store);
        assert(all =~= before.push(restored_source(candidates.last(), config, store)));
        assert forall|i: int| 0 <= i < candidates.len() implies #[trigger] all[i]
            == restored_source(candidates[i], config, store) by {
            if i < front.len() {
                assert(all[i] == before[i]);
            }
        }
    }
}

} // verus!
