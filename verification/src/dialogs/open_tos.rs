//! Dialog for opening a `LeRobot` dataset, or a data file such as an MCAP, stored in
//! Volcengine TOS.
use vstd::prelude::*;
use vstd::string::*;

use crate::data_source;
use crate::data_source::{
    ArtifactsView, RrdArtifactsConfig, TosCredentials, TosDatasetSource, TosLocation,
};
use crate::dialogs::server_config;
use crate::dialogs::server_config::ServerTosConfig;
use crate::i18n;
use crate::i18n::{tr, Language};
use crate::platform::Platform;
use crate::text;

verus! {

// ---------------------------------------------------------------------------------------
// Regions

/// Known TOS regions, for the Region dropdown: the code that is sent to TOS, and the display
/// names in English and Chinese. The list and order mirror the volcengine console's
/// create-bucket region picker.
pub open spec fn known_regions() -> Seq<(Seq<char>, Seq<char>, Seq<char>)> {
    seq![
        ("cn-beijing"@, "cn-beijing (Beijing)"@, "华北2（北京）"@),
        ("ap-southeast-1"@, "ap-southeast-1 (Johor)"@, "亚太东南（柔佛）"@),
        ("ap-southeast-3"@, "ap-southeast-3 (Jakarta)"@, "亚太东南（雅加达）"@),
        ("cn-guangzhou"@, "cn-guangzhou (Guangzhou)"@, "华南1（广州）"@),
        ("cn-hongkong"@, "cn-hongkong (Hong Kong)"@, "中国香港"@),
        ("cn-shanghai"@, "cn-shanghai (Shanghai)"@, "华东2（上海）"@),
    ]
}

/// A region of the dropdown.
#[derive(Clone, Copy, Debug)]
pub struct Region {
    pub code: &'static str,
    pub english: &'static str,
    pub chinese: &'static str,
}

/// The regions of the dropdown as views.
pub open spec fn region_views(list: Seq<Region>) -> Seq<(Seq<char>, Seq<char>, Seq<char>)> {
    Seq::new(list.len(), |i: int| (list[i].code@, list[i].english@, list[i].chinese@))
}

/// The regions of the dropdown.
pub fn tos_regions() -> (r: Vec<Region>)
    ensures
        region_views(r@) == known_regions(),
{
    let list: Vec<Region> = vec![
        Region { code: "cn-beijing", english: "cn-beijing (Beijing)", chinese: "华北2（北京）" },
        Region {
            code: "ap-southeast-1",
            english: "ap-southeast-1 (Johor)",
            chinese: "亚太东南（柔佛）",
        },
        Region {
            code: "ap-southeast-3",
            english: "ap-southeast-3 (Jakarta)",
            chinese: "亚太东南（雅加达）",
        },
        Region {
            code: "cn-guangzhou",
            english: "cn-guangzhou (Guangzhou)",
            chinese: "华南1（广州）",
        },
        Region { code: "cn-hongkong", english: "cn-hongkong (Hong Kong)", chinese: "中国香港" },
        Region { code: "cn-shanghai", english: "cn-shanghai (Shanghai)", chinese: "华东2（上海）" },
    ];
    assert(region_views(list@) =~= known_regions());
    list
}

/// The display name for a region code: the code itself if it is not among `regions`.
pub open spec fn label_among(
    regions: Seq<(Seq<char>, Seq<char>, Seq<char>)>,
    code: Seq<char>,
    lang: Language,
) -> Seq<char>
    decreases regions.len(),
{
    if regions.len() == 0 {
        code
    } else if regions[0].0 == code {
        i18n::translated(lang, regions[0].1, regions[0].2)
    } else {
        label_among(regions.drop_first(), code, lang)
    }
}

/// The localized display name for a region code, falling back to the code itself for
/// anything that is not in the dropdown.
pub fn tos_region_label(code: &String, lang: Language) -> (r: String)
    ensures
        r@ == label_among(known_regions(), code@, lang),
{
    let regions: Vec<Region> = tos_regions();
    let ghost all = known_regions();
    let n: usize = regions.len();
    let mut i: usize = 0;
    assert(all.skip(0) =~= all);
    while i < n
        invariant
            i <= n,
            n == regions@.len(),
            n == all.len(),
            region_views(regions@) == all,
            label_among(known_regions(), code@, lang) == label_among(
                all.skip(i as int),
                code@,
                lang,
            ),
        decreases n - i,
    {
        let region: Region = regions[i];
        assert(all[i as int] == (region.code@, region.english@, region.chinese@));
        assert(all.skip(i as int).drop_first() =~= all.skip(i + 1));
        if text::same_text(region.code, code.as_str()) {
            return tr(lang, region.english, region.chinese).to_owned();
        }
        i += 1;
    }
    code.clone()
}

// ---------------------------------------------------------------------------------------
// State

/// The error of a malformed URL stays a neutral hint until this long after the last
/// keystroke, in nanoseconds: flashing red at the first typed character punishes typing that
/// isn't finished yet.
pub const URL_ERROR_DELAY_NANOS: u64 = 1_000_000_000;

/// The dialog.
#[derive(Debug)]
pub struct OpenTosModal {
    pub is_open: bool,
    /// Whether it was opened since it was last drawn: the URL field then takes the focus.
    pub just_opened: bool,
    pub url: String,
    /// The bucket's region. The endpoint is derived from it, so this is the only connection
    /// field the user ever touches.
    pub region: String,
    /// Use the keys of the dialog instead of the deployment's.
    pub use_custom_credentials: bool,
    pub access_key: String,
    pub secret_key: String,
    /// Converted rrds are uploaded unless this is set.
    pub artifact_upload_disabled: bool,
    /// When the URL field was last edited, in nanoseconds.
    pub url_last_edited: Option<u64>,
    /// The deployment's settings, once they are there, or why they could not be had.
    pub server_config: Option<Result<ServerTosConfig, String>>,
    pub server_config_requested: bool,
}

impl OpenTosModal {
    pub fn new() -> (r: Self)
        ensures
            !r.is_open,
            !r.just_opened,
            r.url@.len() == 0,
            r.region@.len() == 0,
            !r.use_custom_credentials,
            r.access_key@.len() == 0,
            r.secret_key@.len() == 0,
            !r.artifact_upload_disabled,
            r.url_last_edited is None,
            r.server_config is None,
            !r.server_config_requested,
    {
        OpenTosModal {
            is_open: false,
            just_opened: false,
            url: String::new(),
            region: String::new(),
            use_custom_credentials: false,
            access_key: String::new(),
            secret_key: String::new(),
            artifact_upload_disabled: false,
            url_last_edited: None,
            server_config: None,
            server_config_requested: false,
        }
    }

    /// Open the dialog. Tells whether the deployment's settings are to be fetched, which is
    /// done once per app run.
    pub fn open(&mut self) -> (fetch: bool)
        ensures
            fetch == !old(self).server_config_requested,
            *final(self) == (OpenTosModal {
                is_open: true,
                just_opened: true,
                server_config_requested: true,
                ..*old(self)
            }),
    {
        let fetch: bool = !self.server_config_requested;
        self.is_open = true;
        self.just_opened = true;
        self.server_config_requested = true;
        fetch
    }

    /// Open with the dataset URL (and its remembered region) pre-filled, e.g. from the
    /// welcome screen's "recently opened" list.
    pub fn open_prefilled(&mut self, url: &String, region: &String) -> (fetch: bool)
        ensures
            fetch == !old(self).server_config_requested,
            *final(self) == (OpenTosModal {
                is_open: true,
                just_opened: true,
                server_config_requested: true,
                url: *url,
                region: if region@.len() > 0 {
                    *region
                } else {
                    old(self).region
                },
                ..*old(self)
            }),
    {
        self.url = url.clone();
        if !region.as_str().is_empty() {
            self.region = region.clone();
        }
        self.open()
    }

    /// Before the dialog is drawn: the default region is wherever the deployment's endpoint
    /// lives.
    pub fn fill_region(&mut self, region_of_endpoint: &String)
        ensures
            *final(self) == (OpenTosModal {
                region: if old(self).region@.len() == 0 && old(self).server_config is Some {
                    *region_of_endpoint
                } else {
                    old(self).region
                },
                ..*old(self)
            }),
    {
        if self.region.as_str().is_empty() && self.server_config.is_some() {
            self.region = region_of_endpoint.clone();
        }
    }

    /// The URL field was drawn, and maybe edited.
    pub fn url_drawn(&mut self, changed: bool, now: u64)
        ensures
            *final(self) == (OpenTosModal {
                url_last_edited: if changed {
                    Some(now)
                } else {
                    old(self).url_last_edited
                },
                ..*old(self)
            }),
    {
        if changed {
            self.url_last_edited = Some(now);
        }
    }

    /// The dialog was drawn.
    pub fn drawn(&mut self)
        ensures
            *final(self) == (OpenTosModal { just_opened: false, ..*old(self) }),
    {
        self.just_opened = false;
    }
}

// ---------------------------------------------------------------------------------------
// Contents

/// What is known outside of the dialog.
#[derive(Debug)]
pub struct TosDialogInputs {
    pub platform: Platform,
    /// The place that the URL names, if it names one.
    pub location: Option<TosLocation>,
    /// The endpoint of the dialog's region.
    pub resolved_endpoint: String,
    /// The place that the deployment's address for converted copies names.
    pub artifacts_location: Option<TosLocation>,
    /// Whether the URL field has the focus.
    pub url_focused: bool,
    /// The time, in nanoseconds.
    pub now: u64,
}

/// The settings to go by: those of the deployment, or empty ones.
pub open spec fn goes_by(m: OpenTosModal, c: ServerTosConfig) -> bool {
    match m.server_config {
        Some(Ok(config)) => c == config,
        _ => server_config::is_empty_tos(c),
    }
}

/// Blank: nothing but whitespace.
pub open spec fn is_blank(s: Seq<char>) -> bool {
    text::trimmed(s).len() == 0
}

/// There are keys: the user's own, if they want to use them, or the deployment's.
pub open spec fn has_keys(m: OpenTosModal, c: ServerTosConfig) -> bool {
    if m.use_custom_credentials {
        !is_blank(m.access_key@) && !is_blank(m.secret_key@)
    } else {
        c.holds_keys()
    }
}

/// All that a connection needs is there.
pub open spec fn connection_ok(m: OpenTosModal, c: ServerTosConfig) -> bool {
    !is_blank(m.region@) && has_keys(m, c)
}

/// Whether the dataset can be opened.
pub open spec fn can_open(m: OpenTosModal, c: ServerTosConfig, i: TosDialogInputs) -> bool {
    i.location is Some && connection_ok(m, c)
}

/// How a line of text in the dialog is meant.
#[derive(Clone, Copy, Debug, PartialEq, Eq, Structural)]
pub enum NoteKind {
    Label,
    /// A label that is to become an error once the user pauses: the dialog is to be drawn
    /// again by then.
    Hint,
    Error,
}

/// Whether the URL field is being typed in.
pub open spec fn still_typing(m: OpenTosModal, i: TosDialogInputs) -> bool {
    i.url_focused && m.url_last_edited is Some && i.now - m.url_last_edited->0
        < URL_ERROR_DELAY_NANOS
}

/// The URL is there, and names no place.
pub open spec fn bad_url(m: OpenTosModal, i: TosDialogInputs) -> bool {
    m.url@.len() > 0 && i.location is None
}

pub open spec fn note_kind(m: OpenTosModal, i: TosDialogInputs) -> NoteKind {
    if !bad_url(m, i) {
        NoteKind::Label
    } else if still_typing(m, i) {
        NoteKind::Hint
    } else {
        NoteKind::Error
    }
}

/// The line that says what is missing, or what will happen.
pub open spec fn note_words(
    m: OpenTosModal,
    c: ServerTosConfig,
    i: TosDialogInputs,
    lang: Language,
) -> Seq<char> {
    if bad_url(m, i) {
        i18n::translated(
            lang,
            "The URL should look like tos://bucket/prefix/ (or point at a file, e.g. tos://bucket/path/log.mcap)"@,
            "URL 应形如 tos://bucket/prefix/（也可以指向单个文件，如 tos://bucket/path/log.mcap）"@,
        )
    } else if connection_ok(m, c) {
        i18n::translated(
            lang,
            "Episodes appear immediately and stream in one by one; click an episode to load it first."@,
            "各集（episode）会立即出现在列表里并逐个流式加载；点击某一集可以优先加载它。"@,
        )
    } else if m.server_config is None {
        i18n::translated(
            lang,
            "Loading the deployment's TOS settings…"@,
            "正在加载部署的 TOS 设置…"@,
        )
    } else if is_blank(m.region@) {
        i18n::translated(lang, "Region is required."@, "请选择地区。"@)
    } else if m.use_custom_credentials {
        i18n::translated(
            lang,
            "Enter the access key and secret key."@,
            "请输入 access key 和 secret key。"@,
        )
    } else {
        i18n::translated(
            lang,
            "This deployment has no TOS credentials configured (config.json) — check \"Use non-default credentials\" to enter your own."@,
            "这个部署没有配置 TOS 凭证（config.json）— 勾选“使用自带 AK/SK”后输入你自己的。"@,
        )
    }
}

/// What is said of settings that could not be had.
pub open spec fn config_warning(err: Seq<char>, lang: Language) -> Seq<char> {
    match lang {
        Language::English =>
            "Failed to load the deployment's TOS settings (endpoint, credentials): "@ + err
            + "\nFile: config.json — datasets cannot be opened until this is fixed."@,
        Language::Chinese => "加载部署的 TOS 设置（endpoint、凭证）失败："@ + err
            + "\n文件：config.json — 不修复就无法打开数据集。"@,
    }
}

/// The warning of settings that could not be had.
pub open spec fn shown_config_warning(m: OpenTosModal, lang: Language) -> Option<Seq<char>> {
    match m.server_config {
        Some(Err(err)) => Some(config_warning(err@, lang)),
        _ => None,
    }
}

/// What the dialog shows.
#[derive(Debug)]
pub struct TosDialog {
    /// What the dropdown shows.
    pub region_label: String,
    /// Whether there are fields for keys.
    pub key_fields: bool,
    /// Whether to warn of an endpoint that a browser cannot reach.
    pub internal_endpoint: bool,
    pub config_warning: Option<String>,
    /// The place that converted copies are uploaded to, if that is on offer.
    pub upload_to: Option<TosLocation>,
    pub note_kind: NoteKind,
    pub note: &'static str,
    pub can_open: bool,
}

impl OpenTosModal {
    /// The settings to go by.
    pub fn effective_config(&self) -> (r: ServerTosConfig)
        ensures
            goes_by(*self, r),
    {
        match &self.server_config {
            Some(Ok(config)) => config.clone(),
            _ => ServerTosConfig::default(),
        }
    }

    fn connection_ok(&self, c: &ServerTosConfig) -> (r: bool)
        ensures
            r == connection_ok(*self, *c),
    {
        let keys: bool = if self.use_custom_credentials {
            !text::trim(self.access_key.as_str()).is_empty() && !text::trim(
                self.secret_key.as_str(),
            ).is_empty()
        } else {
            c.has_credentials()
        };
        !text::trim(self.region.as_str()).is_empty() && keys
    }

    fn note(&self, c: &ServerTosConfig, i: &TosDialogInputs, lang: Language) -> (r: (
        NoteKind,
        &'static str,
    ))
        ensures
            r.0 == note_kind(*self, *i),
            r.1@ == note_words(*self, *c, *i, lang),
    {
        if !self.url.as_str().is_empty() && i.location.is_none() {
            let recent: bool = match self.url_last_edited {
                Some(edited) => i.now.saturating_sub(edited) < URL_ERROR_DELAY_NANOS,
                None => false,
            };
            let kind: NoteKind = if i.url_focused && recent {
                NoteKind::Hint
            } else {
                NoteKind::Error
            };
            return (
                kind,
                tr(
                    lang,
                    "The URL should look like tos://bucket/prefix/ (or point at a file, e.g. tos://bucket/path/log.mcap)",
                    "URL 应形如 tos://bucket/prefix/（也可以指向单个文件，如 tos://bucket/path/log.mcap）",
                ),
            );
        }
        let words: &'static str = if self.connection_ok(c) {
            tr(
                lang,
                "Episodes appear immediately and stream in one by one; click an episode to load it first.",
                "各集（episode）会立即出现在列表里并逐个流式加载；点击某一集可以优先加载它。",
            )
        } else if self.server_config.is_none() {
            tr(
                lang,
                "Loading the deployment's TOS settings…",
                "正在加载部署的 TOS 设置…",
            )
        } else if text::trim(self.region.as_str()).is_empty() {
            tr(lang, "Region is required.", "请选择地区。")
        } else if self.use_custom_credentials {
            tr(
                lang,
                "Enter the access key and secret key.",
                "请输入 access key 和 secret key。",
            )
        } else {
            tr(
                lang,
                "This deployment has no TOS credentials configured (config.json) — check \"Use non-default credentials\" to enter your own.",
                "这个部署没有配置 TOS 凭证（config.json）— 勾选“使用自带 AK/SK”后输入你自己的。",
            )
        };
        (NoteKind::Label, words)
    }

    /// What the dialog shows.
    pub fn contents(&self, c: &ServerTosConfig, i: &TosDialogInputs, lang: Language) -> (r: TosDialog)
        ensures
            r.region_label@ == (if is_blank(self.region@) {
                i18n::translated(lang, "Select a region"@, "请选择地区"@)
            } else {
                label_among(known_regions(), self.region@, lang)
            }),
            r.key_fields == self.use_custom_credentials,
            r.internal_endpoint == (i.platform == Platform::Web && text::occurs_in(
                i.resolved_endpoint@,
                ".ivolces.com"@,
            )),
            text::opt_view(r.config_warning) == shown_config_warning(*self, lang),
            r.upload_to == server_config::store_place(*c, i.artifacts_location),
            r.note_kind == note_kind(*self, *i),
            r.note@ == note_words(*self, *c, *i, lang),
            r.can_open == can_open(*self, *c, *i),
    {
        let (kind, note) = self.note(c, i, lang);
        TosDialog {
            region_label: if text::trim(self.region.as_str()).is_empty() {
                tr(lang, "Select a region", "请选择地区").to_owned()
            } else {
                tos_region_label(&self.region, lang)
            },
            key_fields: self.use_custom_credentials,
            internal_endpoint: i.platform == Platform::Web && text::contains_text(
                i.resolved_endpoint.as_str(),
                ".ivolces.com",
            ),
            config_warning: match &self.server_config {
                Some(Err(err)) => Some(
                    match lang {
                        Language::English => text::cat3(
                            "Failed to load the deployment's TOS settings (endpoint, credentials): ",
                            err.as_str(),
                            "\nFile: config.json — datasets cannot be opened until this is fixed.",
                        ),
                        Language::Chinese => text::cat3(
                            "加载部署的 TOS 设置（endpoint、凭证）失败：",
                            err.as_str(),
                            "\n文件：config.json — 不修复就无法打开数据集。",
                        ),
                    },
                ),
                _ => None,
            },
            upload_to: server_config::place_of_store(c, &i.artifacts_location),
            note_kind: kind,
            note,
            can_open: i.location.is_some() && self.connection_ok(c),
        }
    }
}

/// The fixed texts of the dialog.
#[derive(Clone, Copy, Debug)]
pub struct TosDialogTexts {
    pub title: &'static str,
    pub intro: &'static str,
    pub url: &'static str,
    pub url_hint: &'static str,
    pub region: &'static str,
    pub custom_credentials: &'static str,
    pub internal_endpoint: &'static str,
    pub upload: &'static str,
    pub open: &'static str,
    pub cancel: &'static str,
}

pub fn dialog_texts(lang: Language) -> (r: TosDialogTexts)
    ensures
        r.title@ == i18n::translated(lang, "Open from Volcengine TOS"@, "从火山引擎 TOS 打开"@),
        r.intro@ == i18n::translated(
            lang,
            "Stream a LeRobot dataset — or data files like MCAP and rrd — from a TOS bucket."@,
            "从 TOS 桶流式读取 LeRobot 数据集，或 MCAP、rrd 等数据文件。"@,
        ),
        r.url@ == i18n::translated(lang, "Dataset URL:"@, "数据集 URL："@),
        r.url_hint@ == i18n::translated(
            lang,
            "tos://bucket/dataset/ or tos://bucket/path/log.mcap"@,
            "tos://bucket/数据集目录/ 或 tos://bucket/path/log.mcap"@,
        ),
        r.region@ == i18n::translated(lang, "Region:"@, "地区："@),
        r.custom_credentials@ == i18n::translated(
            lang,
            "Use non-default credentials"@,
            "使用自带 AK/SK"@,
        ),
        r.internal_endpoint@ == i18n::translated(
            lang,
            "This is an internal endpoint (.ivolces.com), only reachable from inside the Volcengine network. In a browser you most likely need the public endpoint (.volces.com)."@,
            "这是内网 endpoint（.ivolces.com），只能在火山引擎内网访问。在浏览器里你多半需要公网 endpoint（.volces.com）。"@,
        ),
        r.upload@ == i18n::translated(
            lang,
            "Upload converted rrd to the artifacts store"@,
            "把转换出的 rrd 上传到缓存桶"@,
        ),
        r.open@ == i18n::translated(lang, "Open"@, "打开"@),
        r.cancel@ == i18n::translated(lang, "Cancel"@, "取消"@),
{
    TosDialogTexts {
        title: tr(lang, "Open from Volcengine TOS", "从火山引擎 TOS 打开"),
        intro: tr(
            lang,
            "Stream a LeRobot dataset — or data files like MCAP and rrd — from a TOS bucket.",
            "从 TOS 桶流式读取 LeRobot 数据集，或 MCAP、rrd 等数据文件。",
        ),
        url: tr(lang, "Dataset URL:", "数据集 URL："),
        url_hint: tr(
            lang,
            "tos://bucket/dataset/ or tos://bucket/path/log.mcap",
            "tos://bucket/数据集目录/ 或 tos://bucket/path/log.mcap",
        ),
        region: tr(lang, "Region:", "地区："),
        custom_credentials: tr(lang, "Use non-default credentials", "使用自带 AK/SK"),
        internal_endpoint: tr(
            lang,
            "This is an internal endpoint (.ivolces.com), only reachable from inside the Volcengine network. In a browser you most likely need the public endpoint (.volces.com).",
            "这是内网 endpoint（.ivolces.com），只能在火山引擎内网访问。在浏览器里你多半需要公网 endpoint（.volces.com）。",
        ),
        upload: tr(
            lang,
            "Upload converted rrd to the artifacts store",
            "把转换出的 rrd 上传到缓存桶",
        ),
        open: tr(lang, "Open", "打开"),
        cancel: tr(lang, "Cancel", "取消"),
    }
}

// ---------------------------------------------------------------------------------------
// Opening

/// The endpoint that the region of converted copies is resolved against: the deployment's,
/// if it has one. The dataset's own would answer that there is no such bucket.
pub fn artifact_endpoint_base<'a>(c: &'a ServerTosConfig, resolved_endpoint: &'a String) -> (r:
    &'a String)
    ensures
        *r == (if c.tos_endpoint@.len() == 0 {
            *resolved_endpoint
        } else {
            c.tos_endpoint
        }),
{
    if c.tos_endpoint.as_str().is_empty() {
        resolved_endpoint
    } else {
        &c.tos_endpoint
    }
}

/// The keys that the dataset is opened with: access key and secret key.
pub open spec fn dataset_keys(m: OpenTosModal, c: ServerTosConfig) -> (Seq<char>, Seq<char>) {
    if m.use_custom_credentials {
        (text::trimmed(m.access_key@), text::trimmed(m.secret_key@))
    } else {
        (c.tos_access_key@, c.tos_secret_key@)
    }
}

/// The keys for the converted copies. Their bucket belongs to the deployment, so its
/// credentials are preferred even when the dataset is opened with custom ones.
pub open spec fn artifact_keys(m: OpenTosModal, c: ServerTosConfig) -> (Seq<char>, Seq<char>) {
    if c.holds_keys() {
        (c.tos_access_key@, c.tos_secret_key@)
    } else {
        dataset_keys(m, c)
    }
}

/// Where the converted copies of the dataset are.
pub open spec fn dataset_artifacts(
    m: OpenTosModal,
    c: ServerTosConfig,
    i: TosDialogInputs,
    artifact_endpoint: Seq<char>,
) -> Option<ArtifactsView> {
    match server_config::store_place(c, i.artifacts_location) {
        Some(place) => Some(
            (
                (place.bucket@, place.prefix@),
                (
                    artifact_endpoint,
                    Seq::<char>::empty(),
                    artifact_keys(m, c).0,
                    artifact_keys(m, c).1,
                ),
                !m.artifact_upload_disabled,
                c.rrd_artifacts_prefetch,
            ),
        ),
        None => None,
    }
}

impl OpenTosModal {
    fn keys(&self, c: &ServerTosConfig) -> (r: (String, String))
        ensures
            r.0@ == dataset_keys(*self, *c).0,
            r.1@ == dataset_keys(*self, *c).1,
    {
        if self.use_custom_credentials {
            (
                text::trim(self.access_key.as_str()).to_owned(),
                text::trim(self.secret_key.as_str()).to_owned(),
            )
        } else {
            (c.tos_access_key.clone(), c.tos_secret_key.clone())
        }
    }

    /// The dataset to open. `artifact_endpoint` is the endpoint of the region of converted
    /// copies.
    pub fn source(
        &self,
        c: &ServerTosConfig,
        i: &TosDialogInputs,
        artifact_endpoint: &String,
    ) -> (r: Option<TosDatasetSource>)
        ensures
            r is Some <==> i.location is Some,
            r matches Some(source) ==> {
                &&& source.location == i.location->0
                &&& source.credentials@ == (
                    i.resolved_endpoint@,
                    Seq::<char>::empty(),
                    dataset_keys(*self, *c).0,
                    dataset_keys(*self, *c).1,
                )
                &&& data_source::opt_artifacts(source.rrd_artifacts) == dataset_artifacts(
                    *self,
                    *c,
                    *i,
                    artifact_endpoint@,
                )
            },
    {
        match &i.location {
            None => None,
            Some(location) => {
                let (access_key, secret_key) = self.keys(c);
                let (artifact_access, artifact_secret) = if c.has_credentials() {
                    (c.tos_access_key.clone(), c.tos_secret_key.clone())
                } else {
                    self.keys(c)
                };
                let rrd_artifacts: Option<RrdArtifactsConfig> = match server_config::place_of_store(
                    c,
                    &i.artifacts_location,
                ) {
                    Some(place) => Some(
                        RrdArtifactsConfig {
                            location: place,
                            credentials: TosCredentials {
                                endpoint: artifact_endpoint.clone(),
                                region: String::new(),
                                access_key: artifact_access,
                                secret_key: artifact_secret,
                            },
                            write_back: !self.artifact_upload_disabled,
                            prefetch_items: c.rrd_artifacts_prefetch,
                        },
                    ),
                    None => None,
                };
                Some(
                    TosDatasetSource {
                        location: location.clone(),
                        credentials: TosCredentials {
                            endpoint: i.resolved_endpoint.clone(),
                            region: String::new(),
                            access_key,
                            secret_key,
                        },
                        rrd_artifacts,
                    },
                )
            },
        }
    }

    /// Whether the user asked to open the dataset: with the button, or with the Enter key
    /// where that is possible. The dialog then closes.
    pub fn is_submitted(
        &self,
        c: &ServerTosConfig,
        i: &TosDialogInputs,
        clicked: bool,
        enter: bool,
    ) -> (r: bool)
        ensures
            r == (clicked || (enter && can_open(*self, *c, *i))),
    {
        clicked || (enter && i.location.is_some() && self.connection_ok(c))
    }

    /// The dialog is closed.
    pub fn close(&mut self)
        ensures
            *final(self) == (OpenTosModal { is_open: false, ..*old(self) }),
    {
        self.is_open = false;
    }
}

// ---------------------------------------------------------------------------------------
// Laws

/// A dataset that can be opened gets opened with keys that are not blank, in a region.
pub proof fn law_opens_with_keys(m: OpenTosModal, c: ServerTosConfig, i: TosDialogInputs)
    requires
        can_open(m, c, i),
    ensures
        dataset_keys(m, c).0.len() > 0,
        dataset_keys(m, c).1.len() > 0,
        !is_blank(m.region@),
        note_kind(m, i) == NoteKind::Label,
{
}

/// Whatever keys the dataset is opened with, the converted copies are reached with those of
/// the deployment, if it has any.
pub proof fn law_artifacts_use_the_deployments_keys(m: OpenTosModal, c: ServerTosConfig)
    requires
        c.holds_keys(),
    ensures
        artifact_keys(m, c) == (c.tos_access_key@, c.tos_secret_key@),
{
}

/// The dialog never turns red while the URL is being typed, nor for a URL that is fine.
pub proof fn law_no_error_while_typing(m: OpenTosModal, i: TosDialogInputs)
    ensures
        still_typing(m, i) ==> note_kind(m, i) != NoteKind::Error,
        i.location is Some ==> note_kind(m, i) == NoteKind::Label,
        note_kind(m, i) == NoteKind::Error ==> bad_url(m, i),
{
}

/// No two regions of the dropdown share a code, so each is shown by its own name.
pub proof fn law_regions_are_distinct(i: int, j: int)
    requires
        0 <= i < j < known_regions().len(),
    ensures
        known_regions()[i].0 != known_regions()[j].0,
{
    reveal_strlit("cn-beijing");
    reveal_strlit("ap-southeast-1");
    reveal_strlit("ap-southeast-3");
    reveal_strlit("cn-guangzhou");
    reveal_strlit("cn-hongkong");
    reveal_strlit("cn-shanghai");
    let a = known_regions()[i].0;
    let b = known_regions()[j].0;
    assert("cn-beijing"@.len() == 10);
    assert("ap-southeast-1"@[13] == '1');
    assert("ap-southeast-3"@[13] == '3');
    assert("cn-guangzhou"@.len() == 12);
    assert("cn-hongkong"@[3] == 'h');
    assert("cn-shanghai"@[3] == 's');
    assert("cn-hongkong"@[4] == 'o');
    assert("cn-shanghai"@[4] == 'h');
}

/// The dataset that is opened is the one that the URL names, at the endpoint of the region. It
/// is opened with the keys of the deployment, each in its place or, if the user wants to use
/// their own, with those of the dialog without the whitespace around them.
pub proof fn law_dataset_is_opened_with_the_chosen_keys(
    source: TosDatasetSource,
    m: OpenTosModal,
    c: ServerTosConfig,
    i: TosDialogInputs,
    artifact_endpoint: String,
)
    requires
        call_ensures(OpenTosModal::source, (&m, &c, &i, &artifact_endpoint), Some(source)),
    ensures
        source.location == i.location->0,
        source.credentials.endpoint@ == i.resolved_endpoint@,
        source.credentials.region@.len() == 0,
        !m.use_custom_credentials ==> source.credentials.access_key@ == c.tos_access_key@
            && source.credentials.secret_key@ == c.tos_secret_key@,
        m.use_custom_credentials ==> text::is_core_of(
            source.credentials.access_key@,
            m.access_key@,
        ) && text::is_core_of(source.credentials.secret_key@, m.secret_key@),
{
    text::law_trimming_leaves_the_core(m.access_key@);
    text::law_trimming_leaves_the_core(m.secret_key@);
}

/// Converted copies go to the place that the deployment names, unless it names none or turned
/// the store off. They are reached at their own endpoint, with the keys of the deployment or,
/// if it has none, with those of the dataset, and uploaded unless the user does not want that.
pub proof fn law_copies_go_to_the_deployments_place(
    source: TosDatasetSource,
    m: OpenTosModal,
    c: ServerTosConfig,
    i: TosDialogInputs,
    artifact_endpoint: String,
)
    requires
        call_ensures(OpenTosModal::source, (&m, &c, &i, &artifact_endpoint), Some(source)),
    ensures
        source.rrd_artifacts is Some <==> i.artifacts_location is Some
            && c.tos_rrd_artifacts_url@.len() > 0 && c.tos_rrd_artifacts_url@ != "off"@,
        source.rrd_artifacts matches Some(copies) ==> {
            &&& copies.location.bucket@ == i.artifacts_location->0.bucket@
            &&& copies.location.prefix@ == i.artifacts_location->0.prefix@
            &&& copies.credentials.endpoint@ == artifact_endpoint@
            &&& copies.credentials.region@.len() == 0
            &&& copies.write_back == !m.artifact_upload_disabled
            &&& copies.prefetch_items == c.rrd_artifacts_prefetch
            &&& if c.tos_access_key@.len() > 0 && c.tos_secret_key@.len() > 0 {
                copies.credentials.access_key@ == c.tos_access_key@
                    && copies.credentials.secret_key@ == c.tos_secret_key@
            } else {
                copies.credentials.access_key@ == source.credentials.access_key@
                    && copies.credentials.secret_key@ == source.credentials.secret_key@
            }
        },
{
}

/// A dataset can be opened exactly if the URL names a place, a region is chosen, and both keys
/// are there: of the dialog, if the user wants to use their own, else of the deployment.
pub proof fn law_what_is_needed_to_open(m: OpenTosModal, c: ServerTosConfig, i: TosDialogInputs)
    ensures
        can_open(m, c, i) ==> i.location is Some && exists|at: int|
            0 <= at < m.region@.len() && !text::is_whitespace(#[trigger] m.region@[at]),
        can_open(m, c, i) && m.use_custom_credentials ==> exists|at: int|
            0 <= at < m.access_key@.len() && !text::is_whitespace(#[trigger] m.access_key@[at]),
        can_open(m, c, i) && m.use_custom_credentials ==> exists|at: int|
            0 <= at < m.secret_key@.len() && !text::is_whitespace(#[trigger] m.secret_key@[at]),
        can_open(m, c, i) && !m.use_custom_credentials ==> c.tos_access_key@.len() > 0
            && c.tos_secret_key@.len() > 0,
        !can_open(m, c, i) ==> i.location is None || is_blank(m.region@) || (
        if m.use_custom_credentials {
            is_blank(m.access_key@) || is_blank(m.secret_key@)
        } else {
            c.tos_access_key@.len() == 0 || c.tos_secret_key@.len() == 0
        }),
{
    lemma_blank(m.region@);
    lemma_blank(m.access_key@);
    lemma_blank(m.secret_key@);
}

proof fn lemma_blank(s: Seq<char>)
    ensures
        !is_blank(s) ==> exists|at: int|
            0 <= at < s.len() && !text::is_whitespace(#[trigger] s[at]),
{
    text::law_trimming_leaves_the_core(s);
    let t = text::trimmed(s);
    let (lo, hi) = choose|lo: int, hi: int| #[trigger] text::is_core_at(t, s, lo, hi);
    if t.len() > 0 {
        assert(t[0] == s[lo]);
    }
}

/// What is blank is whitespace and nothing else.
pub proof fn law_blank_is_whitespace(s: Seq<char>)
    ensures
        is_blank(s) <==> forall|at: int|
            0 <= at < s.len() ==> text::is_whitespace(#[trigger] s[at]),
{
    lemma_blank(s);
    text::law_trimming_leaves_the_core(s);
    let t = text::trimmed(s);
    let (lo, hi) = choose|lo: int, hi: int| #[trigger] text::is_core_at(t, s, lo, hi);
    if t.len() == 0 {
        assert forall|at: int| 0 <= at < s.len() implies text::is_whitespace(#[trigger] s[at]) by {
            assert(at < lo || at >= hi);
        }
    }
}

/// A bad URL is an error from one second on after the last keystroke, or as soon as its field
/// is left.
pub proof fn law_bad_url_becomes_an_error(m: OpenTosModal, i: TosDialogInputs)
    requires
        m.url@.len() > 0,
        i.location is None,
    ensures
        note_kind(m, i) == NoteKind::Hint <==> i.url_focused && (m.url_last_edited matches Some(
            edited,
        ) && i.now - edited < 1_000_000_000),
        note_kind(m, i) == NoteKind::Hint || note_kind(m, i) == NoteKind::Error,
{
}

/// A region of the dropdown is shown by its name in the language of the interface, any other
/// by its code.
pub proof fn law_region_is_shown_by_its_name(code: Seq<char>, at: int, lang: Language)
    ensures
        0 <= at < known_regions().len() && known_regions()[at].0 == code ==> label_among(
            known_regions(),
            code,
            lang,
        ) == (match lang {
            Language::English => known_regions()[at].1,
            Language::Chinese => known_regions()[at].2,
        }),
        (forall|k: int| 0 <= k < known_regions().len() ==> (#[trigger] known_regions()[k]).0 != code)
            ==> label_among(known_regions(), code, lang) == code,
{
    let all = known_regions();
    if 0 <= at < all.len() && all[at].0 == code {
        assert forall|k: int| 0 <= k < at implies (#[trigger] all[k]).0 != code by {
            law_regions_are_distinct(k, at);
        }
        lemma_label_among(all, code, at, lang);
    } else if forall|k: int| 0 <= k < all.len() ==> (#[trigger] all[k]).0 != code {
        lemma_label_among(all, code, all.len() as int, lang);
    }
}

proof fn lemma_label_among(
    regions: Seq<(Seq<char>, Seq<char>, Seq<char>)>,
    code: Seq<char>,
    at: int,
    lang: Language,
)
    requires
        0 <= at <= regions.len(),
        at < regions.len() ==> regions[at].0 == code,
        forall|k: int| 0 <= k < at ==> (#[trigger] regions[k]).0 != code,
    ensures
        label_among(regions, code, lang) == (if at == regions.len() {
            code
        } else {
            i18n::translated(lang, regions[at].1, regions[at].2)
        }),
    decreases regions.len(),
{
    if at > 0 {
        assert(regions[0].0 != code);
        let rest = regions.drop_first();
        assert forall|k: int| 0 <= k < at - 1 implies (#[trigger] rest[k]).0 != code by {
            assert(rest[k] == regions[k + 1]);
        }
        lemma_label_among(rest, code, at - 1, lang);
    }
}

/// A failure to load the settings is reported, with its reason, and nothing else is.
pub proof fn law_failed_settings_are_reported(m: OpenTosModal, lang: Language)
    ensures
        shown_config_warning(m, lang) is Some <==> m.server_config is Some
            && m.server_config->0 is Err,
        m.server_config matches Some(Err(err)) ==> text::occurs_in(
            shown_config_warning(m, lang)->0,
            err@,
        ),
{
    if let Some(Err(err)) = m.server_config {
        text::lemma_occurs_between(
            i18n::translated(
                lang,
                "Failed to load the deployment's TOS settings (endpoint, credentials): "@,
                "加载部署的 TOS 设置（endpoint、凭证）失败："@,
            ),
            err@,
            i18n::translated(
                lang,
                "\nFile: config.json — datasets cannot be opened until this is fixed."@,
                "\n文件：config.json — 不修复就无法打开数据集。"@,
            ),
            shown_config_warning(m, lang)->0,
        );
    }
}

/// The note asks for what is missing: first for an address that makes sense, then, once the
/// settings are there, for the region, and then for the keys; it explains what will happen
/// where nothing is missing.
pub proof fn law_note_asks_for_what_is_missing(
    m: OpenTosModal,
    c: ServerTosConfig,
    i: TosDialogInputs,
)
    ensures
        ({
            let words = note_words(m, c, i, Language::English);
            let bad = m.url@.len() > 0 && i.location is None;
            let no_region = text::trimmed(m.region@).len() == 0;
            let keys = if m.use_custom_credentials {
                text::trimmed(m.access_key@).len() > 0 && text::trimmed(m.secret_key@).len() > 0
            } else {
                c.tos_access_key@.len() > 0 && c.tos_secret_key@.len() > 0
            };
            &&& bad ==> words
                == "The URL should look like tos://bucket/prefix/ (or point at a file, e.g. tos://bucket/path/log.mcap)"@
            &&& !bad && !no_region && keys ==> words
                == "Episodes appear immediately and stream in one by one; click an episode to load it first."@
            &&& !bad && (no_region || !keys) && m.server_config is None ==> words
                == "Loading the deployment's TOS settings…"@
            &&& !bad && no_region && m.server_config is Some ==> words == "Region is required."@
            &&& !bad && !no_region && !keys && m.server_config is Some && m.use_custom_credentials
                ==> words == "Enter the access key and secret key."@
        }),
{
}

/// Without settings of the deployment there are no keys of it, nor a place for copies.
pub proof fn law_missing_settings_are_empty(
    m: OpenTosModal,
    c: ServerTosConfig,
    place: Option<TosLocation>,
)
    requires
        goes_by(m, c),
    ensures
        m.server_config matches Some(Ok(config)) ==> c == config,
        !(m.server_config is Some && m.server_config->0 is Ok) ==> {
            &&& !c.holds_keys()
            &&& c.tos_endpoint@.len() == 0
            &&& server_config::store_place(c, place) is None
            &&& c.rrd_artifacts_prefetch == 0
        },
{
}

/// Copies are reached at the endpoint of the deployment, where it has one, and at that of the
/// dataset otherwise.
pub proof fn law_copies_are_reached_at_the_deployments_endpoint(
    c: ServerTosConfig,
    resolved_endpoint: String,
    endpoint: &String,
)
    requires
        call_ensures(artifact_endpoint_base, (&c, &resolved_endpoint), endpoint),
    ensures
        c.tos_endpoint@.len() > 0 ==> *endpoint == c.tos_endpoint,
        c.tos_endpoint@.len() == 0 ==> *endpoint == resolved_endpoint,
{
}

} // verus!
