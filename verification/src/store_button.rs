//! The row of a recording or blueprint: what it is called, how it looks, which buttons it
//! offers and what they do.
use vstd::prelude::*;
use vstd::string::*;

use crate::effects::{ArtifactDeletionRequest, Effect, Route, StreamCommand, SystemCommand};
use crate::i18n;
use crate::i18n::{tr, Language};
use crate::icons::Icon;
use crate::store_id::{StoreId, StoreKind};
use crate::text;

verus! {

/// What an episode's download is doing.
#[derive(Clone, Copy, Debug, PartialEq, Eq, Structural)]
pub enum LoadPhase {
    Downloading,
    Converting,
}

/// How large a download is, where that is known.
#[derive(Debug)]
pub struct DownloadTotal {
    /// The size, in words.
    pub text: String,
    /// How much of it has arrived, in percent, rounded.
    pub percent: u64,
}

/// How far a download has come.
#[derive(Debug)]
pub struct DownloadProgress {
    pub phase: LoadPhase,
    /// The type of the file, where it is known.
    pub kind: Option<String>,
    /// How much has arrived, in words.
    pub done: String,
    pub total: Option<DownloadTotal>,
    /// How much arrives each second, in words.
    pub rate: String,
    /// How much longer it takes, in nanoseconds, where that can be told.
    pub eta_nanos: Option<u64>,
}

/// What the row of a store is about.
#[derive(Debug)]
pub struct StoreFacts {
    pub store_id: StoreId,
    /// The name that the user gave the recording.
    pub recording_name: Option<String>,
    /// The segment that it is on a server.
    pub segment_id: Option<String>,
    /// When it was started, in nanoseconds since the unix epoch.
    pub started: Option<i64>,
    /// How far the clocks of the user are ahead of UTC, in seconds.
    pub utc_offset: i32,
    /// The size of its data in memory.
    pub size: u64,
    /// The same, in words.
    pub size_text: String,
    /// Whether it is an episode that is being downloaded.
    pub loading: bool,
    /// Why its download failed.
    pub failure: Option<String>,
    pub progress: Option<DownloadProgress>,
    /// Whether its dataset is streamed from a remote store.
    pub streaming: bool,
    /// Whether the download of its dataset is paused.
    pub dataset_paused: bool,
    /// Whether it was taken out of the download order.
    pub parked: bool,
    /// Whether its dataset counts it as failed.
    pub failed: bool,
    /// Whether it is the row that stands for further episodes.
    pub more_placeholder: bool,
    /// Whether the user hid it.
    pub hidden: bool,
    /// Where a converted copy of it is stored.
    pub artifact_url: Option<String>,
}

/// An announced episode holds a small chunk of properties before its data arrives: up to
/// this size it counts as not downloaded.
pub const ANNOUNCED_MAX_BYTES: u64 = 16_384;

// ---------------------------------------------------------------------------------------
// Names

/// A number below one hundred, in two digits.
pub open spec fn two_digits(n: nat) -> Seq<char> {
    seq![text::digit(n / 10), text::digit(n % 10)]
}

/// The time of day, in hours, minutes and seconds, of a time since the unix epoch, on clocks
/// that are ahead of UTC.
pub open spec fn time_of_day(nanos: int, utc_offset: int) -> Seq<char> {
    let second = ((nanos / 1_000_000_000 + utc_offset) % 86_400) as nat;
    two_digits(second / 3600) + seq![':'] + two_digits(second / 60 % 60) + seq![':'] + two_digits(
        second % 60,
    )
}

/// `jiff` knows offsets from UTC of less than 26 hours.
pub open spec fn is_utc_offset(seconds: int) -> bool {
    -93_599 <= seconds <= 93_599
}

/// `Zoned::strftime` of `jiff` with `%H:%M:%S`, at a fixed offset from UTC: hours, minutes and
/// seconds, two digits each. All times that an `i64` of nanoseconds holds are in its range.
#[verifier::external_body]
fn jiff_time_of_day(nanos: i64, utc_offset: i32) -> (r: Option<String>)
    ensures
        text::opt_view(r) == (if is_utc_offset(utc_offset as int) {
            Some(time_of_day(nanos as int, utc_offset as int))
        } else {
            None
        }),
{
    let offset = jiff::tz::Offset::from_seconds(utc_offset).ok()?;
    let time = jiff::Timestamp::from_nanosecond(nanos.into()).ok()?;
    Some(time.to_zoned(jiff::tz::TimeZone::fixed(offset)).strftime("%H:%M:%S").to_string())
}

/// The name that has the most chance to be familiar to the user: the one they gave it, else
/// the segment it is on a server, else when it was started.
pub open spec fn familiar_name(f: StoreFacts) -> Seq<char> {
    if f.recording_name is Some {
        f.recording_name->0@
    } else if f.segment_id is Some {
        f.segment_id->0@
    } else if f.started is Some && is_utc_offset(f.utc_offset as int) {
        time_of_day(f.started->0 as int, f.utc_offset as int)
    } else {
        "<unknown>"@
    }
}

impl StoreFacts {
    /// The name to show.
    pub fn name(&self) -> (r: String)
        ensures
            r@ == familiar_name(*self),
    {
        if let Some(name) = &self.recording_name {
            return name.clone();
        }
        if let Some(segment) = &self.segment_id {
            return segment.clone();
        }
        if let Some(started) = self.started {
            if let Some(time) = jiff_time_of_day(started, self.utc_offset) {
                return time;
            }
        }
        "<unknown>".to_owned()
    }
}

// ---------------------------------------------------------------------------------------
// Titles

/// A quotient rounded to the nearest whole number, and to the even one of two.
pub open spec fn rounded_to_even(n: nat, d: nat) -> nat {
    let q = n / d;
    let rest = n % d;
    if 2 * rest < d || (2 * rest == d && q % 2 == 0) {
        q
    } else {
        q + 1
    }
}

/// How much longer a download takes: in minutes, rounded up, from a minute and a half on;
/// below that in seconds, rounded.
pub open spec fn eta_words(nanos: nat) -> Seq<char> {
    if nanos >= 90_000_000_000 {
        " · 约剩 "@ + text::decimal((nanos + 59_999_999_999) / 60_000_000_000) + " 分钟"@
    } else {
        " · 约剩 "@ + text::decimal(rounded_to_even(nanos, 1_000_000_000)) + " 秒"@
    }
}

/// What a download is doing, as it stands in the title.
pub open spec fn progress_words(p: DownloadProgress) -> Seq<char> {
    match p.phase {
        LoadPhase::Converting => " · 正在转换…"@,
        LoadPhase::Downloading => {
            let start = " · 正在下载"@;
            let typed = match p.kind {
                Some(kind) => start + " "@ + kind@,
                None => start,
            };
            let measured = match p.total {
                Some(total) => typed + " "@ + text::decimal(
                    (if total.percent <= 100 {
                        total.percent
                    } else {
                        100
                    }) as nat,
                ) + "%"@,
                None => typed + " "@ + p.done@,
            };
            match p.eta_nanos {
                Some(nanos) => measured + eta_words(nanos as nat),
                None => measured,
            }
        },
    }
}

/// The application that a title begins with, if it is to name one.
pub open spec fn title_prefix(f: StoreFacts, include_app_id: bool) -> Seq<char> {
    if include_app_id {
        f.store_id.application_id@ + " - "@
    } else {
        Seq::empty()
    }
}

/// The progress to show: only while the episode is being downloaded.
pub open spec fn live_progress(f: StoreFacts) -> Option<DownloadProgress> {
    if f.loading {
        f.progress
    } else {
        None
    }
}

/// The title: name and size or, while the episode is being downloaded, the start of its name
/// and how far the download has come.
pub open spec fn title(f: StoreFacts, include_app_id: bool) -> Seq<char> {
    let prefix = title_prefix(f, include_app_id);
    match live_progress(f) {
        Some(p) => prefix + text::before_first(familiar_name(f), " · "@) + progress_words(p),
        None => prefix + familiar_name(f) + " - "@ + f.size_text@,
    }
}

fn push_eta(out: &mut String, nanos: u64)
    ensures
        final(out)@ == old(out)@ + eta_words(nanos as nat),
{
    let number: u64;
    let unit: &str;
    if nanos >= 90_000_000_000 {
        number = (nanos - 1) / 60_000_000_000 + 1;
        assert(number == (nanos + 59_999_999_999) / 60_000_000_000);
        unit = " 分钟";
    } else {
        let q: u64 = nanos / 1_000_000_000;
        let rest: u64 = nanos % 1_000_000_000;
        number = if 2 * rest < 1_000_000_000 || (2 * rest == 1_000_000_000 && q % 2 == 0) {
            q
        } else {
            q + 1
        };
        unit = " 秒";
    }
    out.append(" · 约剩 ");
    text::push_decimal(out, number);
    out.append(unit);
    assert(out@ == old(out)@ + eta_words(nanos as nat));
}

fn push_progress(out: &mut String, p: &DownloadProgress)
    ensures
        final(out)@ == old(out)@ + progress_words(*p),
{
    match p.phase {
        LoadPhase::Converting => {
            out.append(" · 正在转换…");
        },
        LoadPhase::Downloading => {
            out.append(" · 正在下载");
            if let Some(kind) = &p.kind {
                out.append(" ");
                out.append(kind.as_str());
            }
            out.append(" ");
            match &p.total {
                Some(total) => {
                    let percent: u64 = if total.percent <= 100 {
                        total.percent
                    } else {
                        100
                    };
                    text::push_decimal(out, percent);
                    out.append("%");
                },
                None => {
                    out.append(p.done.as_str());
                },
            }
            if let Some(nanos) = p.eta_nanos {
                push_eta(out, nanos);
            }
        },
    }
    assert(out@ == old(out)@ + progress_words(*p));
}

impl StoreFacts {
    /// The title of the row.
    pub fn title(&self, include_app_id: bool) -> (r: String)
        ensures
            r@ == title(*self, include_app_id),
    {
        let name: String = self.name();
        let mut out: String = if include_app_id {
            text::cat2(self.store_id.application_id.as_str(), " - ")
        } else {
            String::new()
        };
        assert(out@ == title_prefix(*self, include_app_id));
        if self.loading {
            if let Some(p) = &self.progress {
                out.append(text::first_part(name.as_str(), " · "));
                push_progress(&mut out, p);
                return out;
            }
        }
        out.append(name.as_str());
        out.append(" - ");
        out.append(self.size_text.as_str());
        out
    }
}

// ---------------------------------------------------------------------------------------
// Looks

/// How the row looks.
#[derive(Clone, Copy, Debug, PartialEq, Eq, Structural)]
pub enum RowLook {
    /// In the color of errors.
    Failed(Icon),
    /// Downloading, but frozen in place.
    Paused,
    /// With an animation in place of the icon.
    Downloading,
    Plain(Icon),
    /// Subdued: not ready to view, or hidden.
    Subdued(Icon),
}

/// The icon of a store.
pub open spec fn kind_icon(kind: StoreKind) -> Icon {
    match kind {
        StoreKind::Recording => Icon::Recording,
        StoreKind::Blueprint => Icon::Blueprint,
    }
}

/// Announced but not yet downloaded. Dimming such episodes makes the ready-to-view ones
/// stand out.
pub open spec fn is_queued(f: StoreFacts) -> bool {
    &&& !f.loading
    &&& f.failure is None
    &&& f.streaming
    &&& !f.more_placeholder
    &&& f.size <= ANNOUNCED_MAX_BYTES
}

pub open spec fn row_look(f: StoreFacts) -> RowLook {
    let icon = kind_icon(f.store_id.kind);
    if f.failure is Some {
        RowLook::Failed(icon)
    } else if f.loading && f.dataset_paused {
        RowLook::Paused
    } else if f.loading {
        RowLook::Downloading
    } else if is_queued(f) || f.hidden {
        RowLook::Subdued(icon)
    } else {
        RowLook::Plain(icon)
    }
}

impl StoreFacts {
    pub fn is_queued(&self) -> (r: bool)
        ensures
            r == is_queued(*self),
    {
        !self.loading && self.failure.is_none() && self.streaming && !self.more_placeholder
            && self.size <= ANNOUNCED_MAX_BYTES
    }

    /// How the row looks.
    pub fn look(&self) -> (r: RowLook)
        ensures
            r == row_look(*self),
    {
        let icon: Icon = match self.store_id.kind {
            StoreKind::Recording => Icon::Recording,
            StoreKind::Blueprint => Icon::Blueprint,
        };
        if self.failure.is_some() {
            RowLook::Failed(icon)
        } else if self.loading && self.dataset_paused {
            RowLook::Paused
        } else if self.loading {
            RowLook::Downloading
        } else if self.is_queued() || self.hidden {
            RowLook::Subdued(icon)
        } else {
            RowLook::Plain(icon)
        }
    }
}

/// What the animation of a download stands for.
pub fn downloading_label(lang: Language) -> (r: &'static str)
    ensures
        r@ == i18n::translated(lang, "downloading episode"@, "正在下载 episode"@),
{
    tr(lang, "downloading episode", "正在下载 episode")
}

// ---------------------------------------------------------------------------------------
// Buttons

/// What can be done with a store from its row.
#[derive(Clone, Copy, Debug, PartialEq, Eq, Structural)]
pub enum RowAction {
    Close,
    /// Move a hidden episode back to the list.
    Show,
    /// Move an episode out of the list.
    Hide,
    PauseDownload,
    ResumeDownload,
    DownloadAgain,
}

/// The buttons of a row in a panel.
#[derive(Clone, Copy, Debug, PartialEq, Eq, Structural)]
pub struct RowButtons {
    /// Whether the buttons are there without hovering.
    pub always_shown: bool,
    /// `Show` or `Hide`, where the store can be hidden. The close button is always there.
    pub eye: Option<RowAction>,
    /// The button for the download, where there is one.
    pub download: Option<RowAction>,
    /// Whether the button for the download can be clicked.
    pub download_enabled: bool,
}

/// The buttons of a row. The show button is the whole point of a hidden row, so that one is
/// always there. While a whole dataset is paused its stream cannot react to requests for
/// single episodes, so their download buttons are grayed out.
pub open spec fn row_buttons(f: StoreFacts) -> RowButtons {
    RowButtons {
        always_shown: f.hidden,
        eye: if !f.streaming || f.more_placeholder {
            None
        } else if f.hidden {
            Some(RowAction::Show)
        } else {
            Some(RowAction::Hide)
        },
        download: if !f.streaming || f.hidden {
            None
        } else if f.loading {
            Some(RowAction::PauseDownload)
        } else if f.parked {
            Some(RowAction::ResumeDownload)
        } else if f.size > ANNOUNCED_MAX_BYTES || f.failed {
            Some(RowAction::DownloadAgain)
        } else {
            None
        },
        download_enabled: !(f.streaming && f.dataset_paused),
    }
}

impl StoreFacts {
    /// The buttons of the row in a panel.
    pub fn buttons(&self) -> (r: RowButtons)
        ensures
            r == row_buttons(*self),
    {
        let eye: Option<RowAction> = if !self.streaming || self.more_placeholder {
            None
        } else if self.hidden {
            Some(RowAction::Show)
        } else {
            Some(RowAction::Hide)
        };
        let download: Option<RowAction> = if !self.streaming || self.hidden {
            None
        } else if self.loading {
            Some(RowAction::PauseDownload)
        } else if self.parked {
            Some(RowAction::ResumeDownload)
        } else if self.size > ANNOUNCED_MAX_BYTES || self.failed {
            Some(RowAction::DownloadAgain)
        } else {
            None
        };
        RowButtons {
            always_shown: self.hidden,
            eye,
            download,
            download_enabled: !(self.streaming && self.dataset_paused),
        }
    }
}

/// What a button reads as.
pub open spec fn action_label(action: RowAction, lang: Language) -> Seq<char> {
    match action {
        RowAction::Close => i18n::translated(lang, "Close recording"@, "关闭录制文件"@),
        RowAction::Show => i18n::translated(
            lang,
            "Move the episode back to the list"@,
            "把这个 episode 移回列表"@,
        ),
        RowAction::Hide => i18n::translated(lang, "Hide the episode"@, "隐藏这个 episode"@),
        RowAction::PauseDownload => i18n::translated(
            lang,
            "Pause downloading this episode"@,
            "暂停下载这个 episode"@,
        ),
        RowAction::ResumeDownload => "继续下载这个 episode"@,
        RowAction::DownloadAgain => "重新下载这个 episode"@,
    }
}

/// What a button says on hover.
pub open spec fn action_hint(action: RowAction, kind: StoreKind, lang: Language) -> Seq<char> {
    match action {
        RowAction::Close => match kind {
            StoreKind::Recording => i18n::translated(
                lang,
                "Close this recording"@,
                "关闭这个录制文件"@,
            ),
            StoreKind::Blueprint => i18n::translated(
                lang,
                "Close this blueprint (unsaved data will be lost)"@,
                "关闭这个 blueprint（未保存的数据会丢失）"@,
            ),
        },
        RowAction::PauseDownload =>
            "暂停下载这个 episode。点击该 episode（或它的继续按钮）可重新开始。"@,
        _ => action_label(action, lang),
    }
}

pub open spec fn action_icon(action: RowAction) -> Icon {
    match action {
        RowAction::Close => Icon::CloseSmall,
        RowAction::Show => Icon::Visible,
        RowAction::Hide => Icon::Invisible,
        RowAction::PauseDownload => Icon::Pause,
        RowAction::ResumeDownload => Icon::Play,
        RowAction::DownloadAgain => Icon::Reset,
    }
}

impl RowAction {
    pub fn label(self, lang: Language) -> (r: &'static str)
        ensures
            r@ == action_label(self, lang),
    {
        match self {
            RowAction::Close => tr(lang, "Close recording", "关闭录制文件"),
            RowAction::Show => tr(
                lang,
                "Move the episode back to the list",
                "把这个 episode 移回列表",
            ),
            RowAction::Hide => tr(lang, "Hide the episode", "隐藏这个 episode"),
            RowAction::PauseDownload => tr(
                lang,
                "Pause downloading this episode",
                "暂停下载这个 episode",
            ),
            RowAction::ResumeDownload => "继续下载这个 episode",
            RowAction::DownloadAgain => "重新下载这个 episode",
        }
    }

    pub fn hint(self, kind: StoreKind, lang: Language) -> (r: &'static str)
        ensures
            r@ == action_hint(self, kind, lang),
    {
        match self {
            RowAction::Close => match kind {
                StoreKind::Recording => tr(lang, "Close this recording", "关闭这个录制文件"),
                StoreKind::Blueprint => tr(
                    lang,
                    "Close this blueprint (unsaved data will be lost)",
                    "关闭这个 blueprint（未保存的数据会丢失）",
                ),
            },
            RowAction::PauseDownload =>
                "暂停下载这个 episode。点击该 episode（或它的继续按钮）可重新开始。",
            _ => self.label(lang),
        }
    }

    pub fn icon(self) -> (r: Icon)
        ensures
            r == action_icon(self),
    {
        match self {
            RowAction::Close => Icon::CloseSmall,
            RowAction::Show => Icon::Visible,
            RowAction::Hide => Icon::Invisible,
            RowAction::PauseDownload => Icon::Pause,
            RowAction::ResumeDownload => Icon::Play,
            RowAction::DownloadAgain => Icon::Reset,
        }
    }
}

/// What a click on a button does.
///
/// A hidden episode must not hold up the download queue: hiding it stops its download and
/// keeps it out of the download order. Downloading again closes the recording to drop the
/// old data.
pub open spec fn action_effects(f: StoreFacts, action: RowAction) -> Seq<Effect> {
    let close = Effect::System(SystemCommand::CloseRecording(f.store_id));
    match action {
        RowAction::Close => seq![close],
        RowAction::Show => seq![Effect::Unhide(f.store_id)],
        RowAction::Hide => if f.loading || is_queued(f) {
            seq![Effect::Hide(f.store_id), Effect::Stream(StreamCommand::Park(f.store_id))]
        } else {
            seq![Effect::Hide(f.store_id)]
        },
        RowAction::PauseDownload => seq![
            Effect::Stream(StreamCommand::PauseCurrentItem(f.store_id.application_id)),
        ],
        RowAction::ResumeDownload => seq![Effect::Stream(StreamCommand::Prioritize(f.store_id))],
        RowAction::DownloadAgain => seq![
            Effect::Stream(StreamCommand::Redownload(f.store_id)),
            close,
        ],
    }
}

impl StoreFacts {
    /// What a click on a button does.
    pub fn on_action(&self, action: RowAction) -> (r: Vec<Effect>)
        ensures
            r@ == action_effects(*self, action),
    {
        let id: StoreId = self.store_id.clone();
        let mut out: Vec<Effect> = Vec::new();
        match action {
            RowAction::Close => out.push(Effect::System(SystemCommand::CloseRecording(id))),
            RowAction::Show => out.push(Effect::Unhide(id)),
            RowAction::Hide => {
                out.push(Effect::Hide(id));
                if self.loading || self.is_queued() {
                    out.push(Effect::Stream(StreamCommand::Park(self.store_id.clone())));
                }
            },
            RowAction::PauseDownload => out.push(
                Effect::Stream(StreamCommand::PauseCurrentItem(id.application_id)),
            ),
            RowAction::ResumeDownload => out.push(Effect::Stream(StreamCommand::Prioritize(id))),
            RowAction::DownloadAgain => {
                out.push(Effect::Stream(StreamCommand::Redownload(id)));
                out.push(Effect::System(SystemCommand::CloseRecording(self.store_id.clone())));
            },
        }
        assert(out@ =~= action_effects(*self, action));
        out
    }

    /// What a click on the row itself does.
    ///
    /// A recording is directly activated: that is not destructive, and switching back is
    /// easy. A blueprint is not, as swapping it can be disruptive.
    pub fn on_click(&self) -> (r: Option<Effect>)
        ensures
            r == (match self.store_id.kind {
                StoreKind::Recording => Some(
                    Effect::System(SystemCommand::SetRoute(Route::LocalRecording(self.store_id))),
                ),
                StoreKind::Blueprint => None,
            }),
    {
        if self.store_id.is_recording() {
            let route: Route = Route::LocalRecording(self.store_id.clone());
            Some(Effect::System(SystemCommand::SetRoute(route)))
        } else {
            None
        }
    }
}

// ---------------------------------------------------------------------------------------
// Hover texts

/// Why the download failed.
pub open spec fn failure_hint(f: StoreFacts) -> Seq<Seq<char>> {
    match f.failure {
        Some(reason) => seq![reason@],
        None => seq![],
    }
}

/// What a click on a queued episode does.
pub open spec fn queued_hint(f: StoreFacts) -> Seq<Seq<char>> {
    if is_queued(f) {
        seq!["尚未下载 — 点击后移到下载队列最前。"@]
    } else {
        seq![]
    }
}

/// Where the converted copy is.
pub open spec fn artifact_hint(f: StoreFacts) -> Seq<Seq<char>> {
    match f.artifact_url {
        Some(url) => seq!["rrd artifact："@ + url@],
        None => seq![],
    }
}

/// How far the download has come.
pub open spec fn progress_hint(f: StoreFacts) -> Seq<Seq<char>> {
    match live_progress(f) {
        Some(p) => {
            let total = match p.total {
                Some(total) => total.text@,
                None => "大小未知"@,
            };
            seq!["正在下载："@ + p.done@ + " / "@ + total + " · "@ + p.rate@ + "/s"@]
        },
        None => seq![],
    }
}

/// What the row says on hover, besides the card of the store.
pub open spec fn hover_texts(f: StoreFacts) -> Seq<Seq<char>> {
    failure_hint(f) + queued_hint(f) + artifact_hint(f) + progress_hint(f)
}

fn progress_hover(p: &DownloadProgress) -> (r: String)
    ensures
        r@ == "正在下载："@ + p.done@ + " / "@ + (match p.total {
            Some(total) => total.text@,
            None => "大小未知"@,
        }) + " · "@ + p.rate@ + "/s"@,
{
    let mut out: String = text::cat3("正在下载：", p.done.as_str(), " / ");
    match &p.total {
        Some(total) => out.append(total.text.as_str()),
        None => out.append("大小未知"),
    }
    out.append(" · ");
    out.append(p.rate.as_str());
    out.append("/s");
    out
}

impl StoreFacts {
    /// What the row says on hover, besides the card of the store.
    pub fn hover_texts(&self) -> (r: Vec<String>)
        ensures
            text::views(r@) == hover_texts(*self),
    {
        let mut out: Vec<String> = Vec::new();
        if let Some(reason) = &self.failure {
            out.push(reason.clone());
        }
        assert(text::views(out@) =~= failure_hint(*self));
        if self.is_queued() {
            out.push("尚未下载 — 点击后移到下载队列最前。".to_owned());
        }
        assert(text::views(out@) =~= failure_hint(*self) + queued_hint(*self));
        if let Some(url) = &self.artifact_url {
            out.push(text::cat2("rrd artifact：", url.as_str()));
        }
        assert(text::views(out@) =~= failure_hint(*self) + queued_hint(*self) + artifact_hint(
            *self,
        ));
        if self.loading {
            if let Some(p) = &self.progress {
                out.push(progress_hover(p));
            }
        }
        assert(text::views(out@) =~= hover_texts(*self));
        out
    }
}

// ---------------------------------------------------------------------------------------
// The context menu

/// What the context menu of a row is about, besides the store.
#[derive(Debug)]
pub struct RowMenuFacts {
    /// The link to the store, or why there is none.
    pub link: Result<String, String>,
    /// The address of the dataset.
    pub dataset_url: Option<String>,
    /// The number of the episode in its dataset.
    pub episode: Option<usize>,
    /// Whether a deletion of the converted copy is under way.
    pub deleting: bool,
    /// Whether the credentials allow deletions, where that is known.
    pub delete_permission: Option<bool>,
}

/// The context menu of a row. Copying the name is always offered.
#[derive(Debug)]
pub struct RowMenu {
    pub can_copy_link: bool,
    /// Why the link cannot be copied.
    pub no_link_hint: String,
    /// The entries for the converted copy, where there is one.
    pub artifact: Option<ArtifactMenu>,
}

/// The entries of the menu for a converted copy: to copy its address, and to delete it.
#[derive(Debug)]
pub struct ArtifactMenu {
    pub can_delete: bool,
    /// Why it cannot be deleted.
    pub no_delete_hint: &'static str,
}

/// What the context menu offers.
#[derive(Clone, Copy, Debug, PartialEq, Eq, Structural)]
pub enum RowMenuAction {
    CopyLink,
    CopyName,
    CopyArtifactUrl,
    DeleteArtifact,
}

impl RowMenuAction {
    pub fn label(self) -> (r: &'static str)
        ensures
            r@ == (match self {
                RowMenuAction::CopyLink => "复制该片段的链接"@,
                RowMenuAction::CopyName => "复制片段名称"@,
                RowMenuAction::CopyArtifactUrl => "复制 rrd artifact 地址"@,
                RowMenuAction::DeleteArtifact => "删除 rrd artifact…"@,
            }),
    {
        match self {
            RowMenuAction::CopyLink => "复制该片段的链接",
            RowMenuAction::CopyName => "复制片段名称",
            RowMenuAction::CopyArtifactUrl => "复制 rrd artifact 地址",
            RowMenuAction::DeleteArtifact => "删除 rrd artifact…",
        }
    }
}

/// What is said once a name was copied. `name` is in quotation marks.
pub fn copied_notice(name: &str) -> (r: String)
    ensures
        r@ == "已复制 "@ + name@ + " 到剪贴板"@,
{
    text::cat3("已复制 ", name, " 到剪贴板")
}

/// Whether a converted copy can be deleted: no deletion is under way, and none is ruled out.
pub open spec fn can_delete(m: RowMenuFacts) -> bool {
    !m.deleting && m.delete_permission != Some(false)
}

/// Why a converted copy cannot be deleted.
pub open spec fn no_delete_words(m: RowMenuFacts) -> Seq<char> {
    if m.delete_permission == Some(false) {
        "当前凭证没有删除权限"@
    } else {
        "正在删除…"@
    }
}

/// Why the link to a store cannot be copied.
pub open spec fn no_link_words(link: Result<String, String>) -> Seq<char> {
    match link {
        Ok(_) => "无法复制该片段的链接"@,
        Err(err) => "无法复制该片段的链接："@ + err@,
    }
}

impl StoreFacts {
    /// The context menu of the row.
    pub fn menu(&self, m: &RowMenuFacts) -> (r: RowMenu)
        ensures
            r.can_copy_link == m.link is Ok,
            r.no_link_hint@ == no_link_words(m.link),
            r.artifact is Some <==> self.artifact_url is Some,
            r.artifact matches Some(a) ==> a.can_delete == can_delete(*m) && a.no_delete_hint@
                == no_delete_words(*m),
    {
        let forbidden: bool = match m.delete_permission {
            Some(allowed) => !allowed,
            None => false,
        };
        RowMenu {
            can_copy_link: m.link.is_ok(),
            no_link_hint: match &m.link {
                Ok(_) => "无法复制该片段的链接".to_owned(),
                Err(err) => text::cat2("无法复制该片段的链接：", err.as_str()),
            },
            artifact: if self.artifact_url.is_some() {
                Some(
                    ArtifactMenu {
                        can_delete: !m.deleting && !forbidden,
                        no_delete_hint: if forbidden {
                            "当前凭证没有删除权限"
                        } else {
                            "正在删除…"
                        },
                    },
                )
            } else {
                None
            },
        }
    }

    /// What is said when an entry of the context menu is clicked: that the name was copied.
    pub fn menu_notice(&self, action: RowMenuAction) -> (r: Option<String>)
        ensures
            text::opt_view(r) == (match action {
                RowMenuAction::CopyName => Some(
                    "已复制 "@ + text::quoted(familiar_name(*self)) + " 到剪贴板"@,
                ),
                _ => None,
            }),
    {
        match action {
            RowMenuAction::CopyName => {
                let name: String = self.name();
                Some(copied_notice(text::std_quoted(name.as_str()).as_str()))
            },
            _ => None,
        }
    }

    /// What an entry of the context menu does. Deleting only asks: the user confirms it.
    pub fn on_menu(&self, m: &RowMenuFacts, action: RowMenuAction) -> (r: Option<Effect>)
        ensures
            match action {
                RowMenuAction::CopyLink => r == (match m.link {
                    Ok(url) => Some(Effect::System(SystemCommand::CopyViewerUrl(url))),
                    Err(_) => None,
                }),
                RowMenuAction::CopyName => r matches Some(Effect::CopyText(name)) && name@
                    == familiar_name(*self),
                RowMenuAction::CopyArtifactUrl => r == (match self.artifact_url {
                    Some(url) => Some(Effect::CopyText(url)),
                    None => None,
                }),
                RowMenuAction::DeleteArtifact => r == (match self.artifact_url {
                    Some(url) => Some(
                        Effect::RequestDeletion(
                            ArtifactDeletionRequest {
                                application_id: self.store_id.application_id,
                                dataset_url: match m.dataset_url {
                                    Some(dataset_url) => dataset_url,
                                    None => self.store_id.application_id,
                                },
                                episode: m.episode,
                                target_url: url,
                            },
                        ),
                    ),
                    None => None,
                }),
            },
    {
        match action {
            RowMenuAction::CopyLink => match &m.link {
                Ok(url) => Some(Effect::System(SystemCommand::CopyViewerUrl(url.clone()))),
                Err(_) => None,
            },
            RowMenuAction::CopyName => Some(Effect::CopyText(self.name())),
            RowMenuAction::CopyArtifactUrl => match &self.artifact_url {
                Some(url) => Some(Effect::CopyText(url.clone())),
                None => None,
            },
            RowMenuAction::DeleteArtifact => match &self.artifact_url {
                Some(url) => Some(
                    Effect::RequestDeletion(
                        ArtifactDeletionRequest {
                            application_id: self.store_id.application_id.clone(),
                            dataset_url: match &m.dataset_url {
                                Some(dataset_url) => dataset_url.clone(),
                                None => self.store_id.application_id.clone(),
                            },
                            episode: m.episode,
                            target_url: url.clone(),
                        },
                    ),
                ),
                None => None,
            },
        }
    }
}

// ---------------------------------------------------------------------------------------
// The row as a whole

/// The row of a store, as it is to be drawn.
#[derive(Debug)]
pub struct StoreRow {
    pub title: String,
    pub look: RowLook,
    /// Whether the store is one of those that are shown right now.
    pub active: bool,
    /// The buttons, in a panel.
    pub buttons: Option<RowButtons>,
    pub hover_texts: Vec<String>,
}

/// Whether a store is among some others.
pub open spec fn is_among(id: StoreId, list: Seq<StoreId>) -> bool {
    exists|i: int| 0 <= i < list.len() && (#[trigger] list[i])@ == id@
}

/// The row is that of a store: only a panel has room for its buttons. `active` are the stores
/// that are shown right now.
pub open spec fn is_row_of(
    r: StoreRow,
    f: StoreFacts,
    in_panel: bool,
    include_app_id: bool,
    active: Seq<StoreId>,
) -> bool {
    &&& r.title@ == title(f, include_app_id)
    &&& r.look == row_look(f)
    &&& r.active == is_among(f.store_id, active)
    &&& r.buttons == (if in_panel {
        Some(row_buttons(f))
    } else {
        None
    })
    &&& text::views(r.hover_texts@) == hover_texts(f)
}

fn is_listed(id: &StoreId, list: &Vec<StoreId>) -> (r: bool)
    ensures
        r == is_among(*id, list@),
{
    let n: usize = list.len();
    let mut i: usize = 0;
    while i < n
        invariant
            i <= n,
            n == list@.len(),
            forall|j: int| 0 <= j < i ==> (#[trigger] list@[j])@ != id@,
        decreases n - i,
    {
        if list[i].is_same(id) {
            return true;
        }
        i += 1;
    }
    false
}

/// The row of a store. `active` are the stores that are shown right now.
pub fn store_row(
    f: &StoreFacts,
    in_panel: bool,
    include_app_id: bool,
    active: &Vec<StoreId>,
) -> (r: StoreRow)
    ensures
        is_row_of(r, *f, in_panel, include_app_id, active@),
{
    StoreRow {
        title: f.title(include_app_id),
        look: f.look(),
        active: is_listed(&f.store_id, active),
        buttons: if in_panel {
            Some(f.buttons())
        } else {
            None
        },
        hover_texts: f.hover_texts(),
    }
}

/// What stands for a store that something refers to.
#[derive(Debug)]
pub enum StoreReference {
    Row(StoreRow),
    /// The store is not there: a label, and what it says on hover.
    Unknown(&'static str, String),
}

/// What stands for a store that something refers to: its row, which names its application, or
/// a label if the store is not there. `id_text` is its id in words.
pub fn store_reference(
    f: &Option<StoreFacts>,
    id_text: &String,
    in_panel: bool,
    active: &Vec<StoreId>,
) -> (r: StoreReference)
    ensures
        match *f {
            Some(f) => r matches StoreReference::Row(row) && is_row_of(
                row,
                f,
                in_panel,
                true,
                active@,
            ),
            None => r matches StoreReference::Unknown(label, hover) && label@
                == "<unknown store>"@ && hover@ == id_text@,
        },
{
    match f {
        Some(f) => StoreReference::Row(store_row(f, in_panel, true, active)),
        None => StoreReference::Unknown("<unknown store>", id_text.clone()),
    }
}

// ---------------------------------------------------------------------------------------
// Laws

/// The placeholder row is not an episode: it cannot be hidden and never counts as queued.
pub proof fn law_placeholder_is_no_episode(f: StoreFacts)
    requires
        f.more_placeholder,
    ensures
        row_buttons(f).eye is None,
        !is_queued(f),
{
}

/// A hidden episode has no button for its download; where it can be hidden, what it has is
/// the button that brings it back, in plain sight.
pub proof fn law_hidden_episode_can_only_come_back(f: StoreFacts)
    requires
        f.hidden,
    ensures
        row_buttons(f).download is None,
        row_buttons(f).always_shown,
        row_buttons(f).eye == (if f.streaming && !f.more_placeholder {
            Some(RowAction::Show)
        } else {
            None
        }),
{
}

/// Hiding an episode that is being downloaded, or waits for it, takes it out of the download
/// order; hiding any other does nothing else.
pub proof fn law_hiding_frees_the_queue(f: StoreFacts)
    ensures
        action_effects(f, RowAction::Hide).contains(
            Effect::Stream(StreamCommand::Park(f.store_id)),
        ) <==> f.loading || is_queued(f),
        !f.loading && !is_queued(f) ==> action_effects(f, RowAction::Hide) == seq![
            Effect::Hide(f.store_id),
        ],
{
    let effects = action_effects(f, RowAction::Hide);
    if f.loading || is_queued(f) {
        assert(effects[1] == Effect::Stream(StreamCommand::Park(f.store_id)));
    }
}

/// Hiding and showing an episode never close it: its data stays.
pub proof fn law_hiding_keeps_the_data(f: StoreFacts, id: StoreId)
    ensures
        !action_effects(f, RowAction::Hide).contains(
            Effect::System(SystemCommand::CloseRecording(id)),
        ),
        !action_effects(f, RowAction::Show).contains(
            Effect::System(SystemCommand::CloseRecording(id)),
        ),
{
}

/// While a dataset is paused, nothing can be done to the download of a single episode of it.
pub proof fn law_paused_dataset_takes_no_requests(f: StoreFacts)
    requires
        f.dataset_paused,
    ensures
        row_buttons(f).download is Some ==> !row_buttons(f).download_enabled,
        row_look(f) != RowLook::Downloading,
{
}

/// A failed row shows why; a row in the color of errors has a reason to show.
pub proof fn law_failure_is_explained(f: StoreFacts)
    ensures
        row_look(f) is Failed <==> f.failure is Some,
        f.failure is Some ==> hover_texts(f).len() > 0 && hover_texts(f)[0] == f.failure->0@,
{
}

/// An episode that waits for its download looks subdued and says how to get it.
pub proof fn law_queued_episode_is_dimmed(f: StoreFacts)
    requires
        is_queued(f),
    ensures
        row_look(f) == RowLook::Subdued(kind_icon(f.store_id.kind)),
        hover_texts(f).len() > 0,
        hover_texts(f)[0] == "尚未下载 — 点击后移到下载队列最前。"@,
{
}

/// The name that the user gave wins over the segment, the segment over the start time, and
/// only a recording without any of them is unknown.
pub proof fn law_most_familiar_name_wins(f: StoreFacts)
    ensures
        f.recording_name is Some ==> familiar_name(f) == f.recording_name->0@,
        f.recording_name is None && f.segment_id is Some ==> familiar_name(f) == f.segment_id->0@,
        f.recording_name is None && f.segment_id is None && f.started is None ==> familiar_name(f)
            == "<unknown>"@,
{
}

/// The time of day is written as hours, minutes and seconds on the clock at the offset, two
/// digits each, whatever the day.
pub proof fn law_time_of_day_is_that_of_the_clock(
    nanos: int,
    utc_offset: int,
    day: int,
    h: nat,
    m: nat,
    s: nat,
)
    requires
        h < 24,
        m < 60,
        s < 60,
        1_000_000_000 * (86_400 * day + 3600 * h + 60 * m + s - utc_offset) <= nanos,
        nanos < 1_000_000_000 * (86_400 * day + 3600 * h + 60 * m + s - utc_offset + 1),
    ensures
        time_of_day(nanos, utc_offset).len() == 8,
        text::digits_value(time_of_day(nanos, utc_offset).subrange(0, 2)) == h,
        time_of_day(nanos, utc_offset)[2] == ':',
        text::digits_value(time_of_day(nanos, utc_offset).subrange(3, 5)) == m,
        time_of_day(nanos, utc_offset)[5] == ':',
        text::digits_value(time_of_day(nanos, utc_offset).subrange(6, 8)) == s,
{
    let second = 3600 * h + 60 * m + s;
    assert(nanos / 1_000_000_000 == 86_400 * day + second - utc_offset);
    assert((nanos / 1_000_000_000 + utc_offset) % 86_400 == second);
    assert(second / 3600 == h);
    assert(second / 60 % 60 == m);
    assert(second % 60 == s);
    lemma_two_digits(h);
    lemma_two_digits(m);
    lemma_two_digits(s);
    let words = time_of_day(nanos, utc_offset);
    assert(words.subrange(0, 2) =~= two_digits(h));
    assert(words.subrange(3, 5) =~= two_digits(m));
    assert(words.subrange(6, 8) =~= two_digits(s));
}

proof fn lemma_two_digits(n: nat)
    requires
        n < 100,
    ensures
        text::digits_value(two_digits(n)) == n,
        two_digits(n).len() == 2,
{
    let a = text::digit(n / 10);
    let b = text::digit(n % 10);
    assert(text::is_digit(a) && text::is_digit(b));
    text::law_digits_count_by_their_place(Seq::empty(), a);
    text::law_digits_count_by_their_place(Seq::empty().push(a), b);
    assert(two_digits(n) =~= Seq::empty().push(a).push(b));
}

/// From one minute and a half on, the time that is left is said in minutes, of which the last
/// one counts as a whole; below, in the nearest whole seconds, and in an even number of them
/// where two are equally near.
pub proof fn law_time_left_is_rounded(nanos: nat, k: nat)
    ensures
        90_000_000_000 <= nanos && 60_000_000_000 * (k - 1) < nanos <= 60_000_000_000 * k
            ==> eta_words(nanos) == " · 约剩 "@ + text::decimal(k) + " 分钟"@,
        nanos < 90_000_000_000 && 1_000_000_000 * k - 500_000_000 < nanos < 1_000_000_000 * k
            + 500_000_000 ==> eta_words(nanos) == " · 约剩 "@ + text::decimal(k) + " 秒"@,
        nanos < 90_000_000_000 && k % 2 == 0 && (nanos == 1_000_000_000 * k - 500_000_000 || nanos
            == 1_000_000_000 * k + 500_000_000) ==> eta_words(nanos) == " · 约剩 "@
            + text::decimal(k) + " 秒"@,
{
    if 90_000_000_000 <= nanos && 60_000_000_000 * (k - 1) < nanos <= 60_000_000_000 * k {
        assert((nanos + 59_999_999_999) / 60_000_000_000 == k);
    }
    let q = nanos / 1_000_000_000;
    let rest = nanos % 1_000_000_000;
    assert(nanos == 1_000_000_000 * q + rest);
}

/// The application stands before the rest of a title, where it is asked for. Behind the name
/// stands how far the download is, while there is one; else the size. No download is said to
/// be more than complete.
pub proof fn law_title_says_how_far_the_download_is(f: StoreFacts, p: DownloadProgress)
    ensures
        title(f, true) == f.store_id.application_id@ + " - "@ + title(f, false),
        !f.loading || f.progress is None ==> title(f, false) == familiar_name(f) + " - "@
            + f.size_text@,
        f.loading && f.progress is Some ==> title(f, false) == text::before_first(
            familiar_name(f),
            " · "@,
        ) + progress_words(f.progress->0),
        p.phase is Converting ==> progress_words(p) == " · 正在转换…"@,
        p.phase is Downloading ==> {
            let kind = match p.kind {
                Some(kind) => " "@ + kind@,
                None => seq![],
            };
            let left = match p.eta_nanos {
                Some(nanos) => eta_words(nanos as nat),
                None => seq![],
            };
            &&& p.total is None ==> progress_words(p) == " · 正在下载"@ + kind + " "@ + p.done@
                + left
            &&& p.total is Some && p.total->0.percent <= 100 ==> progress_words(p)
                == " · 正在下载"@ + kind + " "@ + text::decimal(p.total->0.percent as nat) + "%"@
                + left
            &&& p.total is Some && p.total->0.percent >= 100 ==> progress_words(p)
                == " · 正在下载"@ + kind + " "@ + text::decimal(100) + "%"@ + left
        },
{
    assert(title(f, true) =~= f.store_id.application_id@ + " - "@ + title(f, false));
    if f.loading && f.progress is Some {
        assert(title(f, false) =~= text::before_first(familiar_name(f), " · "@) + progress_words(
            f.progress->0,
        ));
    } else {
        assert(title(f, false) =~= familiar_name(f) + " - "@ + f.size_text@);
    }
    if p.phase is Downloading {
        let kind = match p.kind {
            Some(kind) => " "@ + kind@,
            None => seq![],
        };
        let left = match p.eta_nanos {
            Some(nanos) => eta_words(nanos as nat),
            None => seq![],
        };
        if p.total is None {
            assert(progress_words(p) =~= " · 正在下载"@ + kind + " "@ + p.done@ + left);
        } else if p.total->0.percent <= 100 {
            assert(progress_words(p) =~= " · 正在下载"@ + kind + " "@ + text::decimal(
                p.total->0.percent as nat,
            ) + "%"@ + left);
        } else {
            assert(progress_words(p) =~= " · 正在下载"@ + kind + " "@ + text::decimal(100) + "%"@
                + left);
        }
    }
}

/// Which buttons a row has: one to hide the episode or to bring it back, and one to pause a
/// download that runs, to resume one that was put off, or to start anew where there is data or
/// where it failed.
pub proof fn law_buttons_offer_what_can_be_done(f: StoreFacts)
    ensures
        row_buttons(f).eye == Some(RowAction::Hide) <==> f.streaming && !f.more_placeholder
            && !f.hidden,
        row_buttons(f).eye == Some(RowAction::Show) <==> f.streaming && !f.more_placeholder
            && f.hidden,
        row_buttons(f).download == Some(RowAction::PauseDownload) <==> f.streaming && !f.hidden
            && f.loading,
        row_buttons(f).download == Some(RowAction::ResumeDownload) <==> f.streaming && !f.hidden
            && !f.loading && f.parked,
        row_buttons(f).download == Some(RowAction::DownloadAgain) <==> f.streaming && !f.hidden
            && !f.loading && !f.parked && (f.size > 16_384 || f.failed),
        row_buttons(f).always_shown <==> f.hidden,
        row_buttons(f).download_enabled <==> !f.streaming || !f.dataset_paused,
{
}

/// What a row looks like: an animation shows a download that runs, and nothing else; who
/// cannot be viewed yet, or is hidden, is subdued.
pub proof fn law_look_tells_the_state(f: StoreFacts)
    ensures
        is_queued(f) <==> f.streaming && !f.loading && f.failure is None && !f.more_placeholder
            && f.size <= 16_384,
        row_look(f) is Failed <==> f.failure is Some,
        row_look(f) is Paused <==> f.failure is None && f.loading && f.dataset_paused,
        row_look(f) is Downloading <==> f.failure is None && f.loading && !f.dataset_paused,
        row_look(f) is Subdued <==> f.failure is None && !f.loading && (f.hidden || (f.streaming
            && !f.more_placeholder && f.size <= 16_384)),
        row_look(f) is Plain ==> row_look(f)->Plain_0 == (match f.store_id.kind {
            StoreKind::Recording => Icon::Recording,
            StoreKind::Blueprint => Icon::Blueprint,
        }),
{
}

/// Each button does what it says to the recording of its row, and to no other one: a new
/// download is asked for before the data is given up, and an episode is hidden before it
/// leaves the queue.
pub proof fn law_buttons_act_on_their_own_row(f: StoreFacts)
    ensures
        action_effects(f, RowAction::Close) == seq![
            Effect::System(SystemCommand::CloseRecording(f.store_id)),
        ],
        action_effects(f, RowAction::Show) == seq![Effect::Unhide(f.store_id)],
        action_effects(f, RowAction::Hide)[0] == Effect::Hide(f.store_id),
        action_effects(f, RowAction::Hide).len() <= 2,
        action_effects(f, RowAction::PauseDownload) == seq![
            Effect::Stream(StreamCommand::PauseCurrentItem(f.store_id.application_id)),
        ],
        action_effects(f, RowAction::ResumeDownload) == seq![
            Effect::Stream(StreamCommand::Prioritize(f.store_id)),
        ],
        action_effects(f, RowAction::DownloadAgain).len() == 2,
        action_effects(f, RowAction::DownloadAgain)[0] == Effect::Stream(
            StreamCommand::Redownload(f.store_id),
        ),
        action_effects(f, RowAction::DownloadAgain)[1] == Effect::System(
            SystemCommand::CloseRecording(f.store_id),
        ),
{
}

/// Each button has an icon of its own.
pub proof fn law_buttons_are_told_apart(a: RowAction, b: RowAction)
    ensures
        action_icon(a) == action_icon(b) ==> a == b,
        action_icon(RowAction::PauseDownload) == Icon::Pause,
        action_icon(RowAction::ResumeDownload) == Icon::Play,
        action_icon(RowAction::Show) == Icon::Visible,
        action_icon(RowAction::Hide) == Icon::Invisible,
{
}

/// Hovering a row says why it failed, that it waits, where its copy is stored and how far it
/// is: as many of these as there are, in this order, and nothing else.
pub proof fn law_hover_says_all_there_is(f: StoreFacts)
    ensures
        hover_texts(f).len() == (if f.failure is Some {
            1int
        } else {
            0
        }) + (if is_queued(f) {
            1int
        } else {
            0
        }) + (if f.artifact_url is Some {
            1int
        } else {
            0
        }) + (if f.loading && f.progress is Some {
            1int
        } else {
            0
        }),
        f.artifact_url is Some && !(f.loading && f.progress is Some) ==> hover_texts(f).last()
            == "rrd artifact："@ + f.artifact_url->0@,
        f.loading && f.progress is Some ==> {
            &&& text::occurs_in(hover_texts(f).last(), f.progress->0.done@)
            &&& text::occurs_in(hover_texts(f).last(), f.progress->0.rate@ + "/s"@)
            &&& f.progress->0.total is Some ==> text::occurs_in(
                hover_texts(f).last(),
                f.progress->0.total->0.text@,
            )
        },
{
    if f.loading && f.progress is Some {
        let p = f.progress->0;
        let total = match p.total {
            Some(total) => total.text@,
            None => "大小未知"@,
        };
        let line = hover_texts(f).last();
        let a = "正在下载："@;
        let b = " / "@;
        let c = " · "@;
        let d = "/s"@;
        assert(line == a + p.done@ + b + total + c + p.rate@ + d);
        text::lemma_occurs_between(a, p.done@, b + total + c + p.rate@ + d, line);
        text::lemma_occurs_between(a + p.done@ + b, total, c + p.rate@ + d, line);
        text::lemma_occurs_between(a + p.done@ + b + total + c, p.rate@ + d, seq![], line);
    }
}

/// A deletion can be asked for unless one is under way or the credentials are known not to
/// allow it.
pub proof fn law_deletion_is_open_unless_known_otherwise(m: RowMenuFacts)
    ensures
        can_delete(m) <==> !m.deleting && (m.delete_permission is None || m.delete_permission
            == Some(true)),
{
    match m.delete_permission {
        Some(allowed) => {
            assert(m.delete_permission == Some(false) <==> !allowed);
        },
        None => {},
    }
}

/// A row has buttons only in the panel, stands out if and only if its recording is one of the
/// active ones, and is titled, with or without its application, as asked for.
pub proof fn law_row_is_that_of_its_recording(
    r: StoreRow,
    f: StoreFacts,
    in_panel: bool,
    include_app_id: bool,
    active: Seq<StoreId>,
    at: int,
)
    requires
        is_row_of(r, f, in_panel, include_app_id, active),
    ensures
        r.buttons is Some <==> in_panel,
        in_panel ==> r.buttons == Some(row_buttons(f)),
        0 <= at < active.len() && active[at].kind == f.store_id.kind
            && active[at].application_id@ == f.store_id.application_id@ && active[at].recording_id@
            == f.store_id.recording_id@ ==> r.active,
        r.active ==> exists|i: int|
            0 <= i < active.len() && (#[trigger] active[i]).kind == f.store_id.kind
                && active[i].application_id@ == f.store_id.application_id@
                && active[i].recording_id@ == f.store_id.recording_id@,
        r.title@ == title(f, include_app_id),
        r.hover_texts@.len() == hover_texts(f).len(),
{
    if 0 <= at < active.len() && active[at].kind == f.store_id.kind && active[at].application_id@
        == f.store_id.application_id@ && active[at].recording_id@ == f.store_id.recording_id@ {
        assert(active[at]@ == f.store_id@);
    }
    if r.active {
        let i = choose|i: int| 0 <= i < active.len() && (#[trigger] active[i])@ == f.store_id@;
        assert(active[i].kind == f.store_id.kind);
    }
    assert(text::views(r.hover_texts@).len() == r.hover_texts@.len());
}

/// A click on a recording shows that recording; a blueprint has no page.
pub proof fn law_click_shows_the_recording(f: StoreFacts, effect: Option<Effect>)
    requires
        call_ensures(StoreFacts::on_click, (&f,), effect),
    ensures
        effect is Some <==> f.store_id.kind == StoreKind::Recording,
        effect is Some ==> effect == Some(
            Effect::System(SystemCommand::SetRoute(Route::LocalRecording(f.store_id))),
        ),
{
}

} // verus!
