//! "Recently opened" section of the welcome screen.
//!
//! Converted data is RAM-only, so a restarted viewer is blank; this section shows which
//! remote datasets were open before (with their metadata) and re-opens one with a click, by
//! bringing up the matching "Open from …" dialog pre-filled, so credential handling stays in
//! one place.
use vstd::prelude::*;
use vstd::string::*;

use crate::daft_link;
use crate::daft_link::Console;
use crate::i18n::Language;
use crate::recent_datasets;
use crate::recent_datasets::{RecentDataset, RecentKind};
use crate::text;

verus! {

/// What the user did in the section this frame.
#[derive(Clone, Copy, Debug, PartialEq, Eq, Structural)]
pub enum RecentAction {
    /// Re-open this entry (index into the recents list).
    Open(usize),
    /// Forget this entry.
    Remove(usize),
}

/// The button that sends a dataset to the curation console.
#[derive(Debug)]
pub struct DiagnoseButton {
    pub url: String,
    /// Only a dataset whose format is confirmed can be sent.
    pub enabled: bool,
    pub hint: String,
}

/// The row of a dataset.
#[derive(Debug)]
pub struct RecentRow {
    pub label: String,
    /// What is known of it.
    pub meta: String,
    pub diagnose: Option<DiagnoseButton>,
}

/// What is known of a dataset: where it is, when it was opened and how much is in it.
pub open spec fn meta_words(recent: RecentDataset, now: i64, lang: Language) -> Seq<char> {
    let start = (match recent.kind {
        RecentKind::Tos => "TOS"@,
        RecentKind::Hf => "Hugging Face"@,
    }) + " · "@ + recent_datasets::elapsed_label(
        lang,
        recent_datasets::elapsed_secs(recent.last_opened_unix, now),
    );
    match recent.item_count {
        Some(count) => start + " · "@ + text::decimal(count as nat) + " items"@,
        None => start,
    }
}

/// Where the "Diagnose" button leads: only datasets in TOS have one.
pub open spec fn diagnose_target(recent: RecentDataset, console: Console) -> Option<Seq<char>> {
    match recent.kind {
        RecentKind::Tos => daft_link::diagnose_link(console, recent.url@, None),
        RecentKind::Hf => None,
    }
}

/// The row of a dataset.
///
/// The number of items is known from the first time a stream reported progress, and only
/// datasets of a supported format get that far: so it doubles as "format confirmed".
pub fn recent_row(recent: &RecentDataset, now: i64, console: &Console, lang: Language) -> (r:
    RecentRow)
    ensures
        r.label@ == recent_datasets::short_name(recent.url@) + "  ·  "@ + recent.url@,
        r.meta@ == meta_words(*recent, now, lang),
        (match r.diagnose {
            Some(button) => Some(button.url@),
            None => None,
        }) == diagnose_target(*recent, *console),
        r.diagnose matches Some(button) ==> {
            &&& button.enabled == recent.item_count is Some
            &&& button.hint@ == "Run data curation on this dataset in Daft\n"@ + button.url@
        },
{
    let source: &str = match recent.kind {
        RecentKind::Tos => "TOS",
        RecentKind::Hf => "Hugging Face",
    };
    let age: String = recent_datasets::relative_time_label(lang, recent.last_opened_unix, now);
    let mut meta: String = text::cat3(source, " · ", age.as_str());
    if let Some(count) = recent.item_count {
        meta.append(" · ");
        text::push_decimal(&mut meta, count as u64);
        meta.append(" items");
    }
    let target: Option<String> = match recent.kind {
        RecentKind::Tos => daft_link::diagnose_url(console, recent.url.as_str(), None),
        RecentKind::Hf => None,
    };
    RecentRow {
        label: text::cat3(recent.display_name(), "  ·  ", recent.url.as_str()),
        meta,
        diagnose: match target {
            Some(url) => {
                let hint: String = text::cat2(
                    "Run data curation on this dataset in Daft\n",
                    url.as_str(),
                );
                Some(DiagnoseButton { url, enabled: recent.item_count.is_some(), hint })
            },
            None => None,
        },
    }
}

/// The fixed texts of the section.
#[derive(Clone, Copy, Debug)]
pub struct RecentTexts {
    pub title: &'static str,
    pub explanation: &'static str,
    pub diagnose: &'static str,
    /// Why a dataset cannot be sent to the curation console.
    pub unconfirmed: &'static str,
    pub remove: &'static str,
}

pub fn recent_texts() -> (r: RecentTexts)
    ensures
        r.title@ == "Recently opened"@,
        r.explanation@
            == "Remote datasets stream in on demand and are not kept after a restart — click one to open it again."@,
        r.diagnose@ == "Diagnose"@,
        r.unconfirmed@
            == "Dataset format not confirmed yet — open the dataset once first (only LeRobot v2/v3 can be diagnosed)"@,
        r.remove@ == "Remove from this list"@,
{
    RecentTexts {
        title: "Recently opened",
        explanation: "Remote datasets stream in on demand and are not kept after a restart — click one to open it again.",
        diagnose: "Diagnose",
        unconfirmed: "Dataset format not confirmed yet — open the dataset once first (only LeRobot v2/v3 can be diagnosed)",
        remove: "Remove from this list",
    }
}

/// What was clicked in a row.
#[derive(Clone, Copy, Debug, PartialEq, Eq, Structural)]
pub struct RowClicks {
    pub open: bool,
    pub remove: bool,
}

/// What the clicks in the rows amount to: the last of them counts, and in one row the button
/// that removes it.
pub open spec fn clicked_action(clicks: Seq<RowClicks>) -> Option<RecentAction>
    decreases clicks.len(),
{
    if clicks.len() == 0 {
        None
    } else {
        let last = clicks.last();
        let index = (clicks.len() - 1) as usize;
        if last.remove {
            Some(RecentAction::Remove(index))
        } else if last.open {
            Some(RecentAction::Open(index))
        } else {
            clicked_action(clicks.drop_last())
        }
    }
}

/// What the clicks in the rows amount to.
pub fn recent_action(clicks: &Vec<RowClicks>) -> (r: Option<RecentAction>)
    ensures
        r == clicked_action(clicks@),
        r matches Some(RecentAction::Open(i)) ==> i < clicks@.len() && clicks@[i as int].open,
        r matches Some(RecentAction::Remove(i)) ==> i < clicks@.len() && clicks@[i as int].remove,
{
    let n: usize = clicks.len();
    let mut action: Option<RecentAction> = None;
    let mut i: usize = 0;
    while i < n
        invariant
            i <= n,
            n == clicks@.len(),
            action == clicked_action(clicks@.take(i as int)),
            action matches Some(RecentAction::Open(k)) ==> k < i && clicks@[k as int].open,
            action matches Some(RecentAction::Remove(k)) ==> k < i && clicks@[k as int].remove,
        decreases n - i,
    {
        assert(clicks@.take(i + 1).drop_last() =~= clicks@.take(i as int));
        if clicks[i].open {
            action = Some(RecentAction::Open(i));
        }
        if clicks[i].remove {
            action = Some(RecentAction::Remove(i));
        }
        i += 1;
    }
    assert(clicks@.take(n as int) =~= clicks@);
    action
}

/// Only datasets in TOS can be diagnosed, and only from a viewer that knows a console.
pub proof fn law_only_tos_is_diagnosed(recent: RecentDataset, console: Console)
    requires
        diagnose_target(recent, console) is Some,
    ensures
        recent.kind == RecentKind::Tos,
        daft_link::address(console) is Some,
        daft_link::dataset_segment(recent.url@) is Some,
{
}

/// Of all clicks the one furthest down counts, and in a row the one that forgets it; without
/// any click nothing is done.
pub proof fn law_last_click_counts(clicks: Seq<RowClicks>)
    requires
        clicks.len() <= usize::MAX,
    ensures
        clicked_action(clicks) is None <==> forall|i: int|
            0 <= i < clicks.len() ==> !(#[trigger] clicks[i]).remove && !clicks[i].open,
        clicked_action(clicks) matches Some(RecentAction::Remove(at)) ==> at < clicks.len()
            && clicks[at as int].remove && forall|i: int|
            at < i < clicks.len() ==> !(#[trigger] clicks[i]).remove && !clicks[i].open,
        clicked_action(clicks) matches Some(RecentAction::Open(at)) ==> at < clicks.len()
            && clicks[at as int].open && !clicks[at as int].remove && forall|i: int|
            at < i < clicks.len() ==> !(#[trigger] clicks[i]).remove && !clicks[i].open,
    decreases clicks.len(),
{
    if clicks.len() > 0 {
        let front = clicks.drop_last();
        law_last_click_counts(front);
        let last = clicks[clicks.len() - 1];
        if !last.remove && !last.open {
            assert(forall|i: int| 0 <= i < front.len() ==> front[i] == clicks[i]);
            assert(clicked_action(clicks) == clicked_action(front));
            if clicked_action(front) is None {
                assert forall|i: int| 0 <= i < clicks.len() implies !(#[trigger] clicks[i]).remove
                    && !clicks[i].open by {
                    if i < front.len() {
                        assert(!front[i].remove && !front[i].open);
                    }
                }
            } else {
                if forall|i: int|
                    0 <= i < clicks.len() ==> !(#[trigger] clicks[i]).remove && !clicks[i].open {
                    assert(forall|i: int|
                        0 <= i < front.len() ==> !(#[trigger] front[i]).remove && !front[i].open);
                }
                let at = match clicked_action(front)->0 {
                    RecentAction::Open(at) => at,
                    RecentAction::Remove(at) => at,
                };
                assert forall|i: int| at < i < clicks.len() implies !(#[trigger] clicks[i]).remove
                    && !clicks[i].open by {
                    if i < front.len() {
                        assert(!front[i].remove && !front[i].open);
                    }
                }
            }
        }
    }
}

/// A recent dataset is described by where it is, when it was opened, and, where that is known,
/// by how many items it has.
pub proof fn law_description_has_its_parts(recent: RecentDataset, now: i64, lang: Language)
    ensures
        recent.item_count is None ==> meta_words(recent, now, lang) == (if recent.kind
            == RecentKind::Tos {
            "TOS"@
        } else {
            "Hugging Face"@
        }) + " · "@ + recent_datasets::elapsed_label(
            lang,
            recent_datasets::elapsed_secs(recent.last_opened_unix, now),
        ),
        recent.item_count is Some ==> meta_words(recent, now, lang) == meta_words(
            (RecentDataset { item_count: None, ..recent }),
            now,
            lang,
        ) + " · "@ + text::decimal(recent.item_count->0 as nat) + " items"@,
{
}

} // verus!
