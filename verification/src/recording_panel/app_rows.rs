//! The row of an application: of a dataset with its episodes, or of local recordings.
use vstd::prelude::*;
use vstd::string::*;

use crate::daft_link;
use crate::daft_link::Console;
use crate::effects::{ArtifactDeletionRequest, Effect, Item, StreamCommand, SystemCommand};
use crate::hidden_recordings::HiddenRecordings;
use crate::i18n;
use crate::i18n::{tr, Language};
use crate::icons::Icon;
use crate::lists;
use crate::recording_panel::data::AppIdData;
use crate::store_id::StoreId;
use crate::text;

verus! {

/// Where the converted copies of a dataset are stored.
#[derive(Debug)]
pub struct ArtifactsPlace {
    pub bucket: String,
    /// The directory that holds those of this dataset.
    pub dir: String,
}

/// What is known of the dataset that an application stands for.
#[derive(Debug)]
pub struct AppFacts {
    /// Whether it is streamed from a remote store.
    pub streaming: bool,
    /// Whether its download is paused.
    pub dataset_paused: bool,
    /// The address of the dataset. The id of the application is a normalized form of it.
    pub dataset_url: Option<String>,
    /// The region of its bucket.
    pub region: Option<String>,
    /// How many converted copies of its episodes are stored.
    pub artifact_count: u64,
    pub artifacts: Option<ArtifactsPlace>,
    /// Whether a deletion of all of them is under way.
    pub deleting: bool,
    /// Whether the credentials allow deletions, where that is known.
    pub delete_permission: Option<bool>,
}

/// The buttons of the row.
#[derive(Debug)]
pub struct AppButtons {
    /// Whether they are there without hovering.
    pub always_shown: bool,
    /// The icon and the hint of the button that pauses or resumes the download.
    pub pause: Option<(Icon, &'static str)>,
    /// The hint of the close button.
    pub close_hint: &'static str,
    /// Where the "Diagnose" button leads.
    pub diagnose: Option<String>,
}

/// What the buttons of the row do.
#[derive(Clone, Copy, Debug, PartialEq, Eq, Structural)]
pub enum AppAction {
    TogglePause,
    Close,
}

/// Only a download can be paused.
pub open spec fn is_paused(f: AppFacts) -> bool {
    f.streaming && f.dataset_paused
}

/// The text of the row. A paused one says so, at its start: names are long, and the panel
/// cuts off their ends.
pub open spec fn row_text(app: AppIdData, f: AppFacts, lang: Language) -> Seq<char> {
    if is_paused(f) {
        i18n::translated(lang, "⏸ paused · "@, "⏸ 已暂停 · "@) + app.name@
    } else {
        app.name@
    }
}

/// The address of the dataset, as far as it is known.
pub open spec fn link_url(app: AppIdData, f: AppFacts) -> Seq<char> {
    match f.dataset_url {
        Some(url) => url@,
        None => app.app_id@,
    }
}

/// The icon and the hint of the button that pauses or resumes the download.
pub open spec fn pause_button(f: AppFacts, lang: Language) -> Option<(Icon, Seq<char>)> {
    if !f.streaming {
        None
    } else if is_paused(f) {
        Some(
            (
                Icon::Play,
                i18n::translated(lang, "Resume downloading this dataset"@, "继续下载该数据集"@),
            ),
        )
    } else {
        Some(
            (
                Icon::Pause,
                i18n::translated(lang, "Pause downloading this dataset"@, "暂停下载该数据集"@),
            ),
        )
    }
}

impl AppIdData {
    /// What the row selects.
    pub fn item(&self) -> (r: Item)
        ensures
            r == Item::AppId(self.app_id),
    {
        Item::AppId(self.app_id.clone())
    }

    /// The text of the row.
    pub fn row_text(&self, f: &AppFacts, lang: Language) -> (r: String)
        ensures
            r@ == row_text(*self, *f, lang),
    {
        if f.streaming && f.dataset_paused {
            text::cat2(tr(lang, "⏸ paused · ", "⏸ 已暂停 · "), self.name.as_str())
        } else {
            self.name.clone()
        }
    }

    /// The buttons of the row: there are some if there is something to close or to pause. A
    /// paused dataset shows without hovering how to get going again.
    pub fn buttons(&self, f: &AppFacts, console: &Console, lang: Language) -> (r: Option<AppButtons>)
        ensures
            r is Some <==> self.loaded_recordings@.len() > 0 || f.streaming,
            r matches Some(b) ==> {
                &&& b.always_shown == is_paused(*f)
                &&& (match b.pause {
                    Some((icon, hint)) => Some((icon, hint@)),
                    None => None,
                }) == pause_button(*f, lang)
                &&& b.close_hint@ == i18n::translated(lang, "Close dataset"@, "关闭数据集"@)
                &&& text::opt_view(b.diagnose) == daft_link::diagnose_link(
                    *console,
                    link_url(*self, *f),
                    text::opt_view(f.region),
                )
            },
    {
        if self.loaded_recordings.len() == 0 && !f.streaming {
            return None;
        }
        let paused: bool = f.streaming && f.dataset_paused;
        let pause: Option<(Icon, &'static str)> = if !f.streaming {
            None
        } else if paused {
            Some((Icon::Play, tr(lang, "Resume downloading this dataset", "继续下载该数据集")))
        } else {
            Some((Icon::Pause, tr(lang, "Pause downloading this dataset", "暂停下载该数据集")))
        };
        let url: &str = match &f.dataset_url {
            Some(url) => url.as_str(),
            None => self.app_id.as_str(),
        };
        let region: Option<&str> = match &f.region {
            Some(region) => Some(region.as_str()),
            None => None,
        };
        Some(
            AppButtons {
                always_shown: paused,
                pause,
                close_hint: tr(lang, "Close dataset", "关闭数据集"),
                diagnose: daft_link::diagnose_url(console, url, region),
            },
        )
    }

    /// What a button of the row does.
    pub fn on_action(&self, f: &AppFacts, action: AppAction) -> (r: Effect)
        ensures
            r == (match action {
                AppAction::TogglePause => Effect::Stream(
                    StreamCommand::SetDatasetPaused(self.app_id, !is_paused(*f)),
                ),
                AppAction::Close => Effect::System(SystemCommand::CloseApp(self.app_id)),
            }),
    {
        match action {
            AppAction::TogglePause => Effect::Stream(
                StreamCommand::SetDatasetPaused(
                    self.app_id.clone(),
                    !(f.streaming && f.dataset_paused),
                ),
            ),
            AppAction::Close => Effect::System(SystemCommand::CloseApp(self.app_id.clone())),
        }
    }

    /// What a click on the row, or reaching it with the arrow keys, does.
    pub fn on_activate(&self) -> (r: Effect)
        ensures
            r == Effect::System(SystemCommand::ActivateApp(self.app_id)),
    {
        Effect::System(SystemCommand::ActivateApp(self.app_id.clone()))
    }
}

/// What the "Diagnose" button reads as, and what it says on hover.
pub fn diagnose_label(lang: Language) -> (r: (&'static str, &'static str))
    ensures
        r.0@ == i18n::translated(lang, "Diagnose"@, "质检"@),
        r.1@ == i18n::translated(lang, "Run data curation on this dataset"@, "对该数据集进行数据质检"@),
{
    (
        tr(lang, "Diagnose", "质检"),
        tr(lang, "Run data curation on this dataset", "对该数据集进行数据质检"),
    )
}

/// Pausing and resuming undo each other: the button asks for the state that the dataset is
/// not in, and then offers the other one.
pub proof fn law_pause_toggles(before: AppFacts, after: AppFacts, lang: Language)
    requires
        before.streaming,
        after.streaming,
        after.dataset_paused == !is_paused(before),
    ensures
        is_paused(after) == !is_paused(before),
        pause_button(before, lang) matches Some(old_button) && pause_button(after, lang) matches Some(
            new_button,
        ) && old_button.0 != new_button.0,
{
}

/// A dataset is marked as paused if and only if it is streamed and paused, in front of its
/// name; a button to pause or to resume is there for each streamed dataset, and asks for the
/// state that it is not in; a link leads to where the dataset was opened from, where that is
/// known.
pub proof fn law_row_tells_the_state(app: AppIdData, f: AppFacts, lang: Language)
    ensures
        row_text(app, f, lang) == app.name@ <==> !(f.streaming && f.dataset_paused),
        row_text(app, f, lang).len() >= app.name@.len(),
        row_text(app, f, lang).skip(row_text(app, f, lang).len() - app.name@.len()) == app.name@,
        pause_button(f, lang) is Some <==> f.streaming,
        pause_button(f, lang) matches Some(button) ==> button.0 == (if f.dataset_paused {
            Icon::Play
        } else {
            Icon::Pause
        }),
        f.dataset_url is Some ==> link_url(app, f) == f.dataset_url->0@,
        f.dataset_url is None ==> link_url(app, f) == app.app_id@,
        offers_delete_all(f) ==> f.streaming && f.artifacts is Some && f.artifact_count >= 1,
        f.streaming && f.artifacts is Some && f.artifact_count >= 1 ==> offers_delete_all(f),
{
    reveal_strlit("⏸ paused · ");
    reveal_strlit("⏸ 已暂停 · ");
    let name = app.name@;
    let row = row_text(app, f, lang);
    assert(row.skip(row.len() - name.len()) =~= name);
}

// ---------------------------------------------------------------------------------------
// Hidden episodes

/// The recordings to show in the list.
pub open spec fn visible_of(list: Seq<StoreId>, hidden: HiddenRecordings) -> Seq<StoreId> {
    list.filter(|id: StoreId| !hidden.hides(id))
}

/// The recordings to show in the group of hidden ones.
pub open spec fn hidden_of(list: Seq<StoreId>, hidden: HiddenRecordings) -> Seq<StoreId> {
    list.filter(|id: StoreId| hidden.hides(id))
}

impl AppIdData {
    /// The recordings of the list, and those of the group of hidden ones at its end.
    pub fn partition(&self, hidden: &HiddenRecordings) -> (r: (Vec<StoreId>, Vec<StoreId>))
        ensures
            r.0@ == visible_of(self.loaded_recordings@, *hidden),
            r.1@ == hidden_of(self.loaded_recordings@, *hidden),
    {
        let ghost list = self.loaded_recordings@;
        let ghost shows = |id: StoreId| !hidden.hides(id);
        let ghost hides = |id: StoreId| hidden.hides(id);
        let n: usize = self.loaded_recordings.len();
        let mut shown: Vec<StoreId> = Vec::new();
        let mut rest: Vec<StoreId> = Vec::new();
        let mut i: usize = 0;
        proof {
            reveal(Seq::filter);
        }
        while i < n
            invariant
                i <= n,
                n == list.len(),
                list == self.loaded_recordings@,
                shows == (|id: StoreId| !hidden.hides(id)),
                hides == (|id: StoreId| hidden.hides(id)),
                shown@ == list.take(i as int).filter(shows),
                rest@ == list.take(i as int).filter(hides),
            decreases n - i,
        {
            proof {
                reveal(Seq::filter);
                assert(list.take(i + 1).drop_last() =~= list.take(i as int));
            }
            let id: StoreId = self.loaded_recordings[i].clone();
            if hidden.is_hidden(&id) {
                rest.push(id);
            } else {
                shown.push(id);
            }
            i += 1;
        }
        assert(list.take(n as int) =~= list);
        (shown, rest)
    }
}

/// The label of the group of hidden episodes, if there are any.
pub fn hidden_group_label(hidden: &Vec<StoreId>, lang: Language) -> (r: Option<String>)
    ensures
        text::opt_view(r) == (if hidden@.len() > 0 {
            Some(
                i18n::translated(lang, "Hidden episodes ("@, "已隐藏的 episode（"@) + text::decimal(
                    hidden@.len(),
                ) + i18n::translated(lang, ")"@, "）"@),
            )
        } else {
            None
        }),
{
    if hidden.len() == 0 {
        return None;
    }
    let mut out: String = tr(lang, "Hidden episodes (", "已隐藏的 episode（").to_owned();
    text::push_decimal(&mut out, hidden.len() as u64);
    out.append(tr(lang, ")", "）"));
    Some(out)
}

/// Each recording is in the list or in the group of hidden ones, and never in both; none is
/// lost and none is new.
pub proof fn law_partition_keeps_every_recording(
    list: Seq<StoreId>,
    hidden: HiddenRecordings,
    id: StoreId,
)
    ensures
        visible_of(list, hidden).contains(id) <==> list.contains(id) && !hidden.hides(id),
        hidden_of(list, hidden).contains(id) <==> list.contains(id) && hidden.hides(id),
        visible_of(list, hidden).len() + hidden_of(list, hidden).len() == list.len(),
{
    lists::lemma_filter(list, |id: StoreId| !hidden.hides(id));
    lists::lemma_filter(list, |id: StoreId| hidden.hides(id));
    lemma_partition_len(list, hidden);
}

/// Hidden or not, recordings keep the order that they have: those of a list come before those
/// of the list that is put behind it, and each list of one recording is shown, or hidden, as
/// it is.
pub proof fn law_partition_keeps_the_order(
    a: Seq<StoreId>,
    b: Seq<StoreId>,
    hidden: HiddenRecordings,
    id: StoreId,
)
    ensures
        visible_of(a + b, hidden) == visible_of(a, hidden) + visible_of(b, hidden),
        hidden_of(a + b, hidden) == hidden_of(a, hidden) + hidden_of(b, hidden),
        visible_of(seq![id], hidden) == (if hidden.hides(id) {
            seq![]
        } else {
            seq![id]
        }),
        hidden_of(seq![id], hidden) == (if hidden.hides(id) {
            seq![id]
        } else {
            seq![]
        }),
{
    reveal(Seq::filter);
    Seq::filter_distributes_over_add(a, b, |id: StoreId| !hidden.hides(id));
    Seq::filter_distributes_over_add(a, b, |id: StoreId| hidden.hides(id));
    let one = seq![id];
    assert(one.drop_last() =~= Seq::empty());
    assert(one.last() == id);
    assert(one.drop_last().filter(|id: StoreId| !hidden.hides(id)) =~= Seq::empty());
    assert(one.drop_last().filter(|id: StoreId| hidden.hides(id)) =~= Seq::empty());
}

proof fn lemma_partition_len(list: Seq<StoreId>, hidden: HiddenRecordings)
    ensures
        visible_of(list, hidden).len() + hidden_of(list, hidden).len() == list.len(),
    decreases list.len(),
{
    reveal(Seq::filter);
    if list.len() > 0 {
        lemma_partition_len(list.drop_last(), hidden);
    }
}

// ---------------------------------------------------------------------------------------
// Converted copies

/// The entry of the context menu that deletes all converted copies.
#[derive(Debug)]
pub struct DeleteAllEntry {
    pub label: String,
    pub enabled: bool,
    /// Why it is not enabled.
    pub disabled_hint: &'static str,
}

/// The entry is there if there is something to delete.
pub open spec fn offers_delete_all(f: AppFacts) -> bool {
    f.streaming && f.artifact_count > 0 && f.artifacts is Some
}

impl AppFacts {
    /// The entry of the context menu that deletes all converted copies of the dataset.
    pub fn delete_all_entry(&self, lang: Language) -> (r: Option<DeleteAllEntry>)
        ensures
            r is Some <==> offers_delete_all(*self),
            r matches Some(e) ==> {
                &&& e.label@ == i18n::translated(
                    lang,
                    "Delete all rrd artifacts ("@,
                    "删除全部 rrd 转换产物（"@,
                ) + text::decimal(self.artifact_count as nat) + i18n::translated(lang, ")…"@, "）…"@)
                &&& e.enabled == (!self.deleting && self.delete_permission != Some(false))
                &&& e.disabled_hint@ == (if self.delete_permission == Some(false) {
                    i18n::translated(
                        lang,
                        "These credentials have no delete permission"@,
                        "当前凭证没有删除权限"@,
                    )
                } else {
                    i18n::translated(lang, "Deletion in progress…"@, "正在删除…"@)
                })
            },
    {
        if !self.streaming || self.artifact_count == 0 || self.artifacts.is_none() {
            return None;
        }
        let forbidden: bool = match self.delete_permission {
            Some(allowed) => !allowed,
            None => false,
        };
        let mut label: String = tr(
            lang,
            "Delete all rrd artifacts (",
            "删除全部 rrd 转换产物（",
        ).to_owned();
        text::push_decimal(&mut label, self.artifact_count);
        label.append(tr(lang, ")…", "）…"));
        Some(
            DeleteAllEntry {
                label,
                enabled: !self.deleting && !forbidden,
                disabled_hint: if forbidden {
                    tr(
                        lang,
                        "These credentials have no delete permission",
                        "当前凭证没有删除权限",
                    )
                } else {
                    tr(lang, "Deletion in progress…", "正在删除…")
                },
            },
        )
    }
}

impl AppIdData {
    /// What that entry asks for. The user confirms it. The directory of the copies is named
    /// after the address of the dataset, not after the application.
    pub fn on_delete_all(&self, f: &AppFacts) -> (r: Option<ArtifactDeletionRequest>)
        ensures
            r is Some <==> f.artifacts is Some,
            r matches Some(request) ==> {
                &&& request.application_id == self.app_id
                &&& request.dataset_url@ == link_url(*self, *f)
                &&& request.episode is None
                &&& request.target_url@ == "tos://"@ + f.artifacts->0.bucket@ + "/"@
                    + f.artifacts->0.dir@
            },
    {
        match &f.artifacts {
            Some(place) => Some(
                ArtifactDeletionRequest {
                    application_id: self.app_id.clone(),
                    dataset_url: match &f.dataset_url {
                        Some(url) => url.clone(),
                        None => self.app_id.clone(),
                    },
                    episode: None,
                    target_url: text::cat4("tos://", place.bucket.as_str(), "/", place.dir.as_str()),
                },
            ),
            None => None,
        }
    }
}

} // verus!
