//! The settings screen.
use vstd::prelude::*;
use vstd::string::*;

use crate::i18n;
use crate::i18n::{tr, Language};
use crate::platform::Platform;
use crate::text;

verus! {

// ---------------------------------------------------------------------------------------
// Switches

/// The settings that are on or off.
#[derive(Clone, Copy, Debug, PartialEq, Eq, Structural)]
pub struct AppSwitches {
    pub include_rerun_examples_button_in_recordings_panel: bool,
    pub visualizer_limits_enabled: bool,
    pub custom_window_decorations: bool,
    pub show_metrics: bool,
    pub show_notification_toasts: bool,
    pub table_cards_and_blueprints: bool,
    pub point_cloud_transparency: bool,
    pub use_internal_catalog: bool,
    pub gamepad_navigation: bool,
}

/// A setting that is on or off.
#[derive(Clone, Copy, Debug, PartialEq, Eq, Structural)]
pub enum Switch {
    ExamplesButton,
    VisualizerLimits,
    WindowDecorations,
    Metrics,
    Toasts,
    TableCards,
    PointCloudTransparency,
    InternalCatalog,
    Gamepad,
}

impl AppSwitches {
    pub open spec fn is_on(self, switch: Switch) -> bool {
        match switch {
            Switch::ExamplesButton => self.include_rerun_examples_button_in_recordings_panel,
            Switch::VisualizerLimits => self.visualizer_limits_enabled,
            Switch::WindowDecorations => self.custom_window_decorations,
            Switch::Metrics => self.show_metrics,
            Switch::Toasts => self.show_notification_toasts,
            Switch::TableCards => self.table_cards_and_blueprints,
            Switch::PointCloudTransparency => self.point_cloud_transparency,
            Switch::InternalCatalog => self.use_internal_catalog,
            Switch::Gamepad => self.gamepad_navigation,
        }
    }

    pub fn get(&self, switch: Switch) -> (r: bool)
        ensures
            r == self.is_on(switch),
    {
        match switch {
            Switch::ExamplesButton => self.include_rerun_examples_button_in_recordings_panel,
            Switch::VisualizerLimits => self.visualizer_limits_enabled,
            Switch::WindowDecorations => self.custom_window_decorations,
            Switch::Metrics => self.show_metrics,
            Switch::Toasts => self.show_notification_toasts,
            Switch::TableCards => self.table_cards_and_blueprints,
            Switch::PointCloudTransparency => self.point_cloud_transparency,
            Switch::InternalCatalog => self.use_internal_catalog,
            Switch::Gamepad => self.gamepad_navigation,
        }
    }

    /// Set one of them, and leave the others. Tells whether the viewer has to stop waking up
    /// for a gamepad: if that was just switched off.
    pub fn set(&mut self, switch: Switch, on: bool) -> (clear_gamepad: bool)
        ensures
            final(self).is_on(switch) == on,
            forall|other: Switch|
                other != switch ==> #[trigger] final(self).is_on(other) == old(self).is_on(other),
            clear_gamepad == (switch == Switch::Gamepad && old(self).gamepad_navigation && !on),
    {
        let was_on: bool = self.get(switch);
        match switch {
            Switch::ExamplesButton => {
                self.include_rerun_examples_button_in_recordings_panel = on;
            },
            Switch::VisualizerLimits => {
                self.visualizer_limits_enabled = on;
            },
            Switch::WindowDecorations => {
                self.custom_window_decorations = on;
            },
            Switch::Metrics => {
                self.show_metrics = on;
            },
            Switch::Toasts => {
                self.show_notification_toasts = on;
            },
            Switch::TableCards => {
                self.table_cards_and_blueprints = on;
            },
            Switch::PointCloudTransparency => {
                self.point_cloud_transparency = on;
            },
            Switch::InternalCatalog => {
                self.use_internal_catalog = on;
            },
            Switch::Gamepad => {
                self.gamepad_navigation = on;
            },
        }
        switch == Switch::Gamepad && was_on && !on
    }
}

pub open spec fn switch_label(switch: Switch) -> Seq<char> {
    match switch {
        Switch::ExamplesButton => "显示“Rerun 示例”按钮"@,
        Switch::VisualizerLimits => "限制单个视图中的图元数量"@,
        Switch::WindowDecorations => "使用自定义窗口装饰"@,
        Switch::Metrics => "显示性能指标"@,
        Switch::Toasts => "显示通知弹窗"@,
        Switch::TableCards => "表格卡片与 blueprint"@,
        Switch::PointCloudTransparency => "点云透明度"@,
        Switch::InternalCatalog => "通过 Viewer catalog 加载文件"@,
        Switch::Gamepad => "手柄操控"@,
    }
}

pub open spec fn switch_hint(switch: Switch) -> Option<Seq<char>> {
    match switch {
        Switch::ExamplesButton => None,
        Switch::VisualizerLimits => Some(
            "限制每个可视化器处理的元素数量（例如 3D 形状的实例上限、时间序列的线条上限）。关闭后，数据量特别大时 Viewer 可能会卡死无响应。"@,
        ),
        Switch::WindowDecorations => Some(
            "隐藏系统原生标题栏，把 Rerun 的顶部栏画成窗口边框。\n\n如果窗口行为出现异常，请关闭这个选项。"@,
        ),
        Switch::Metrics => Some("在顶部栏显示每帧耗时（毫秒）和内存占用"@),
        Switch::Toasts => Some("以弹窗形式显示日志消息和其他通知"@),
        Switch::TableCards => Some(
            "为服务器提供的表格启用已注册的表格 blueprint 和卡片布局。\n\n启用后，表格可以用已注册的视图定义来预览 segment，表格标题栏中会出现列表/网格切换按钮。"@,
        ),
        Switch::PointCloudTransparency => Some(
            "对半透明点云做 alpha 混合，并按从后到前排序。\n\n排序每帧都在 CPU 上进行，点云很大时会非常慢。"@,
        ),
        Switch::InternalCatalog => Some(
            "通过 Viewer catalog 加载 .rrd 文件，而不是作为实时录制文件导入。对启用之后打开的文件生效。"@,
        ),
        Switch::Gamepad => Some("在 3D 空间视图中启用手柄操控。"@),
    }
}

impl Switch {
    pub fn label(self) -> (r: &'static str)
        ensures
            r@ == switch_label(self),
    {
        match self {
            Switch::ExamplesButton => "显示“Rerun 示例”按钮",
            Switch::VisualizerLimits => "限制单个视图中的图元数量",
            Switch::WindowDecorations => "使用自定义窗口装饰",
            Switch::Metrics => "显示性能指标",
            Switch::Toasts => "显示通知弹窗",
            Switch::TableCards => "表格卡片与 blueprint",
            Switch::PointCloudTransparency => "点云透明度",
            Switch::InternalCatalog => "通过 Viewer catalog 加载文件",
            Switch::Gamepad => "手柄操控",
        }
    }

    pub fn hint(self) -> (r: Option<&'static str>)
        ensures
            (match r {
                Some(words) => Some(words@),
                None => None,
            }) == switch_hint(self),
    {
        match self {
            Switch::ExamplesButton => None,
            Switch::VisualizerLimits => Some(
                "限制每个可视化器处理的元素数量（例如 3D 形状的实例上限、时间序列的线条上限）。关闭后，数据量特别大时 Viewer 可能会卡死无响应。",
            ),
            Switch::WindowDecorations => Some(
                "隐藏系统原生标题栏，把 Rerun 的顶部栏画成窗口边框。\n\n如果窗口行为出现异常，请关闭这个选项。",
            ),
            Switch::Metrics => Some("在顶部栏显示每帧耗时（毫秒）和内存占用"),
            Switch::Toasts => Some("以弹窗形式显示日志消息和其他通知"),
            Switch::TableCards => Some(
                "为服务器提供的表格启用已注册的表格 blueprint 和卡片布局。\n\n启用后，表格可以用已注册的视图定义来预览 segment，表格标题栏中会出现列表/网格切换按钮。",
            ),
            Switch::PointCloudTransparency => Some(
                "对半透明点云做 alpha 混合，并按从后到前排序。\n\n排序每帧都在 CPU 上进行，点云很大时会非常慢。",
            ),
            Switch::InternalCatalog => Some(
                "通过 Viewer catalog 加载 .rrd 文件，而不是作为实时录制文件导入。对启用之后打开的文件生效。",
            ),
            Switch::Gamepad => Some("在 3D 空间视图中启用手柄操控。"),
        }
    }
}

// ---------------------------------------------------------------------------------------
// The screen

/// A section of the screen.
#[derive(Clone, Copy, Debug, PartialEq, Eq, Structural)]
pub enum SettingsSection {
    General,
    TitleBar,
    MapView,
    Video,
    /// The file system of the browser.
    Storage,
    Experimental,
}

/// What stands on the screen.
#[derive(Clone, Copy, Debug, PartialEq, Eq, Structural)]
pub enum SettingsEntry {
    /// A heading, with a line above it.
    Section(SettingsSection),
    Theme,
    MemoryBudget,
    Prefetch,
    Checkbox(Switch),
    TimestampFormat,
    MapboxToken,
    Video,
    PersistentStorage,
}

pub open spec fn section_heading(section: SettingsSection, lang: Language) -> Seq<char> {
    match section {
        SettingsSection::General => i18n::translated(lang, "General"@, "通用"@),
        SettingsSection::TitleBar => "标题栏"@,
        SettingsSection::MapView => "地图视图"@,
        SettingsSection::Video => "视频"@,
        SettingsSection::Storage => "浏览器源私有文件系统（OPFS）"@,
        SettingsSection::Experimental => "实验功能"@,
    }
}

impl SettingsSection {
    pub fn heading(self, lang: Language) -> (r: &'static str)
        ensures
            r@ == section_heading(self, lang),
    {
        match self {
            SettingsSection::General => tr(lang, "General", "通用"),
            SettingsSection::TitleBar => "标题栏",
            SettingsSection::MapView => "地图视图",
            SettingsSection::Video => "视频",
            SettingsSection::Storage => "浏览器源私有文件系统（OPFS）",
            SettingsSection::Experimental => "实验功能",
        }
    }
}

pub open spec fn entry_if(on: bool, entries: Seq<SettingsEntry>) -> Seq<SettingsEntry> {
    if on {
        entries
    } else {
        Seq::empty()
    }
}

/// The screen, from top to bottom. Some settings are there only where they mean something.
pub open spec fn screen_entries(
    platform: Platform,
    supports_custom_decorations: bool,
    use_internal_catalog: bool,
) -> Seq<SettingsEntry> {
    seq![
        SettingsEntry::Section(SettingsSection::General),
        SettingsEntry::Theme,
        SettingsEntry::MemoryBudget,
        SettingsEntry::Prefetch,
        SettingsEntry::Checkbox(Switch::ExamplesButton),
        SettingsEntry::Checkbox(Switch::VisualizerLimits),
        SettingsEntry::TimestampFormat,
        SettingsEntry::Section(SettingsSection::TitleBar),
    ] + entry_if(
        supports_custom_decorations,
        seq![SettingsEntry::Checkbox(Switch::WindowDecorations)],
    ) + seq![
        SettingsEntry::Checkbox(Switch::Metrics),
        SettingsEntry::Checkbox(Switch::Toasts),
        SettingsEntry::Section(SettingsSection::MapView),
        SettingsEntry::MapboxToken,
        SettingsEntry::Section(SettingsSection::Video),
        SettingsEntry::Video,
    ] + entry_if(
        platform == Platform::Web && use_internal_catalog,
        seq![
            SettingsEntry::Section(SettingsSection::Storage),
            SettingsEntry::PersistentStorage,
        ],
    ) + seq![
        SettingsEntry::Section(SettingsSection::Experimental),
        SettingsEntry::Checkbox(Switch::TableCards),
        SettingsEntry::Checkbox(Switch::PointCloudTransparency),
        SettingsEntry::Checkbox(Switch::InternalCatalog),
    ] + entry_if(
        platform == Platform::Native,
        seq![SettingsEntry::Checkbox(Switch::Gamepad)],
    )
}

/// The screen, from top to bottom.
pub fn settings_screen(
    platform: Platform,
    supports_custom_decorations: bool,
    use_internal_catalog: bool,
) -> (r: Vec<SettingsEntry>)
    ensures
        r@ == screen_entries(platform, supports_custom_decorations, use_internal_catalog),
{
    let mut out: Vec<SettingsEntry> = vec![
        SettingsEntry::Section(SettingsSection::General),
        SettingsEntry::Theme,
        SettingsEntry::MemoryBudget,
        SettingsEntry::Prefetch,
        SettingsEntry::Checkbox(Switch::ExamplesButton),
        SettingsEntry::Checkbox(Switch::VisualizerLimits),
        SettingsEntry::TimestampFormat,
        SettingsEntry::Section(SettingsSection::TitleBar),
    ];
    if supports_custom_decorations {
        out.push(SettingsEntry::Checkbox(Switch::WindowDecorations));
    }
    out.push(SettingsEntry::Checkbox(Switch::Metrics));
    out.push(SettingsEntry::Checkbox(Switch::Toasts));
    out.push(SettingsEntry::Section(SettingsSection::MapView));
    out.push(SettingsEntry::MapboxToken);
    out.push(SettingsEntry::Section(SettingsSection::Video));
    out.push(SettingsEntry::Video);
    if platform == Platform::Web && use_internal_catalog {
        out.push(SettingsEntry::Section(SettingsSection::Storage));
        out.push(SettingsEntry::PersistentStorage);
    }
    out.push(SettingsEntry::Section(SettingsSection::Experimental));
    out.push(SettingsEntry::Checkbox(Switch::TableCards));
    out.push(SettingsEntry::Checkbox(Switch::PointCloudTransparency));
    out.push(SettingsEntry::Checkbox(Switch::InternalCatalog));
    if platform == Platform::Native {
        out.push(SettingsEntry::Checkbox(Switch::Gamepad));
    }
    assert(out@ =~= screen_entries(platform, supports_custom_decorations, use_internal_catalog));
    out
}

/// Whether the screen stays open: not after a click on its close button or the Escape key.
pub fn keep_open(open: bool, close_clicked: bool, escape: bool) -> (r: bool)
    ensures
        r == (open && !close_clicked && !escape),
{
    open && !close_clicked && !escape
}

/// The texts of the screen that are not those of a switch or a section.
#[derive(Clone, Copy, Debug)]
pub struct SettingsTexts {
    pub title: &'static str,
    pub close: &'static str,
    pub theme: &'static str,
    pub memory_budget: &'static str,
    pub memory_budget_help: &'static str,
    pub prefetch: &'static str,
    pub prefetch_help: &'static str,
    pub timestamp_format: &'static str,
    pub mapbox_token: &'static str,
    pub mapbox_token_hint: &'static str,
    pub persist: &'static str,
    pub persist_hint: &'static str,
    pub decoder: &'static str,
    pub ffmpeg_override: &'static str,
    pub ffmpeg_override_hint: &'static str,
    pub ffmpeg_path: &'static str,
}

pub fn settings_texts(lang: Language) -> (r: SettingsTexts)
    ensures
        r.title@ == i18n::translated(lang, "Settings"@, "设置"@),
        r.close@ == i18n::translated(lang, "Close"@, "关闭"@),
        r.theme@ == i18n::translated(lang, "Theme"@, "主题"@),
        r.memory_budget@ == i18n::translated(lang, "Memory budget"@, "内存预算"@),
        r.memory_budget_help@ == i18n::translated(
            lang,
            "When this limit is reached we start purging data from RAM"@,
            "达到这个上限后，会开始从内存中清理数据"@,
        ),
        r.prefetch@ == i18n::translated(lang, "Prefetch"@, "预取"@),
        r.prefetch_help@
            == "控制在必需数据之外预取 chunk 的激进程度。\n\n• 仅必需：只加载渲染当前时间标记所必需的 chunk。\n• 相似：额外预取与必需 chunk 相同组件路径上、给定实际时长内的 chunk。\n• 全部：额外预取录制文件中的所有 chunk。"@,
        r.timestamp_format@ == "时间戳格式"@,
        r.mapbox_token@ == "Mapbox access token："@,
        r.mapbox_token_hint@
            == "这个 token 用于启用基于 Mapbox 的地图视图背景。\n\n注意：token 会以明文保存在配置文件里。也可以通过环境变量 `RERUN_MAPBOX_ACCESS_TOKEN` 设置。"@,
        r.persist@ == "申请持久化存储"@,
        r.persist_hint@
            == "请求浏览器保护 Viewer catalog 文件不被自动清理。浏览器可能会拒绝这个请求。包括 Firefox 在内的一些浏览器在授予持久化后还会提高该源（origin）的存储配额。"@,
        r.decoder@ == "解码器："@,
        r.ffmpeg_override@ == "自定义 FFmpeg 程序路径"@,
        r.ffmpeg_override_hint@
            == "默认情况下，Viewer 会在系统的 `PATH` 中自动寻找合适的 FFmpeg 程序。启用这个选项后可以手动指定 FFmpeg 程序的路径。"@,
        r.ffmpeg_path@ == "路径："@,
{
    SettingsTexts {
        title: tr(lang, "Settings", "设置"),
        close: tr(lang, "Close", "关闭"),
        theme: tr(lang, "Theme", "主题"),
        memory_budget: tr(lang, "Memory budget", "内存预算"),
        memory_budget_help: tr(
            lang,
            "When this limit is reached we start purging data from RAM",
            "达到这个上限后，会开始从内存中清理数据",
        ),
        prefetch: tr(lang, "Prefetch", "预取"),
        prefetch_help: "控制在必需数据之外预取 chunk 的激进程度。\n\n• 仅必需：只加载渲染当前时间标记所必需的 chunk。\n• 相似：额外预取与必需 chunk 相同组件路径上、给定实际时长内的 chunk。\n• 全部：额外预取录制文件中的所有 chunk。",
        timestamp_format: "时间戳格式",
        mapbox_token: "Mapbox access token：",
        mapbox_token_hint: "这个 token 用于启用基于 Mapbox 的地图视图背景。\n\n注意：token 会以明文保存在配置文件里。也可以通过环境变量 `RERUN_MAPBOX_ACCESS_TOKEN` 设置。",
        persist: "申请持久化存储",
        persist_hint: "请求浏览器保护 Viewer catalog 文件不被自动清理。浏览器可能会拒绝这个请求。包括 Firefox 在内的一些浏览器在授予持久化后还会提高该源（origin）的存储配额。",
        decoder: "解码器：",
        ffmpeg_override: "自定义 FFmpeg 程序路径",
        ffmpeg_override_hint: "默认情况下，Viewer 会在系统的 `PATH` 中自动寻找合适的 FFmpeg 程序。启用这个选项后可以手动指定 FFmpeg 程序的路径。",
        ffmpeg_path: "路径：",
    }
}

// ---------------------------------------------------------------------------------------
// The memory budget

pub const BYTES_PER_GIB: u64 = 1_073_741_824;

/// A thousand gibibytes: from here on there is no limit.
pub const UPPER_LIMIT_BYTES: u64 = 1_073_741_824_000;

/// How much memory may be used.
#[derive(Clone, Copy, Debug, PartialEq, Eq, Structural)]
pub enum MemoryLimit {
    Bytes(u64),
    Unlimited,
}

/// What the budget reads as. `formatted` is the number of bytes in words.
pub fn budget_text(bytes: u64, formatted: &String) -> (r: String)
    ensures
        r@ == (if bytes < UPPER_LIMIT_BYTES {
            formatted@
        } else {
            "不限"@
        }),
{
    if bytes < UPPER_LIMIT_BYTES {
        formatted.clone()
    } else {
        "不限".to_owned()
    }
}

/// The budget that a number of bytes stands for.
pub fn limit_from_bytes(bytes: u64) -> (r: MemoryLimit)
    ensures
        r == (if bytes < UPPER_LIMIT_BYTES {
            MemoryLimit::Bytes(bytes)
        } else {
            MemoryLimit::Unlimited
        }),
{
    if bytes < UPPER_LIMIT_BYTES {
        MemoryLimit::Bytes(bytes)
    } else {
        MemoryLimit::Unlimited
    }
}

/// Whether a character is one for numbers.
pub uninterp spec fn is_numeric(c: char) -> bool;

/// `char::is_numeric`: the digits are numeric; of other characters it goes by Unicode.
#[verifier::external_body]
fn std_is_numeric(c: char) -> (r: bool)
    ensures
        r == is_numeric(c),
        text::is_digit(c) ==> r,
{
    c.is_numeric()
}

pub open spec fn all_numeric(s: Seq<char>) -> bool {
    forall|i: int| 0 <= i < s.len() ==> is_numeric(#[trigger] s[i])
}

/// Digits, and nothing else.
pub open spec fn is_plain_number(s: Seq<char>) -> bool {
    s.len() > 0 && forall|i: int| 0 <= i < s.len() ==> text::is_digit(#[trigger] s[i])
}

/// The number of bytes that the user entered, within the range of the field: a number alone
/// is meant in gibibytes. `parsed` is what the text is as an amount of bytes with a unit.
pub open spec fn entered_bytes(s: Seq<char>, parsed: Option<u64>) -> Option<u64> {
    let t = text::trimmed(s);
    if all_numeric(t) {
        if is_plain_number(t) {
            if text::digits_value(t) <= 1000 {
                Some((BYTES_PER_GIB * text::digits_value(t)) as u64)
            } else {
                Some(UPPER_LIMIT_BYTES)
            }
        } else {
            None
        }
    } else {
        match parsed {
            Some(bytes) => Some(
                if bytes <= UPPER_LIMIT_BYTES {
                    bytes
                } else {
                    UPPER_LIMIT_BYTES
                },
            ),
            None => None,
        }
    }
}

fn chars_are_numeric(v: &Vec<char>) -> (r: bool)
    ensures
        r == all_numeric(v@),
{
    let n: usize = v.len();
    let mut i: usize = 0;
    while i < n
        invariant
            i <= n,
            n == v@.len(),
            forall|j: int| 0 <= j < i ==> is_numeric(#[trigger] v@[j]),
        decreases n - i,
    {
        if !std_is_numeric(v[i]) {
            assert(!is_numeric(v@[i as int]));
            return false;
        }
        i += 1;
    }
    true
}

/// The number of bytes that the user entered.
pub fn parse_budget(s: &str, parsed: Option<u64>) -> (r: Option<u64>)
    ensures
        r == entered_bytes(s@, parsed),
{
    let t: &str = text::trim(s);
    let v: Vec<char> = text::chars_of(t);
    if !chars_are_numeric(&v) {
        return match parsed {
            Some(bytes) => Some(
                if bytes <= UPPER_LIMIT_BYTES {
                    bytes
                } else {
                    UPPER_LIMIT_BYTES
                },
            ),
            None => None,
        };
    }
    let mut gib: u64 = 0;
    let n: usize = v.len();
    let mut i: usize = 0;
    if n == 0 {
        return None;
    }
    assert(t@.take(0) =~= Seq::empty());
    while i < n
        invariant
            i <= n,
            n == v@.len(),
            v@ == t@,
            t@ == text::trimmed(s@),
            all_numeric(t@),
            gib <= 1001,
            text::digits_value(t@.take(i as int)) <= 1000 ==> gib == text::digits_value(
                t@.take(i as int),
            ),
            text::digits_value(t@.take(i as int)) > 1000 ==> gib == 1001,
            forall|j: int| 0 <= j < i ==> text::is_digit(#[trigger] t@[j]),
        decreases n - i,
    {
        let c: char = v[i];
        if !('0' <= c && c <= '9') {
            assert(!text::is_digit(t@[i as int]));
            return None;
        }
        proof {
            assert(t@.take(i + 1).drop_last() =~= t@.take(i as int));
            assert(t@.take(i + 1).last() == c);
        }
        let d: u64 = c as u64 - 48;
        gib = 10 * gib + d;
        if gib > 1000 {
            gib = 1001;
        }
        i += 1;
    }
    assert(t@.take(n as int) =~= t@);
    if gib <= 1000 {
        Some(BYTES_PER_GIB * gib)
    } else {
        Some(UPPER_LIMIT_BYTES)
    }
}

// ---------------------------------------------------------------------------------------
// Prefetching

/// How eagerly chunks are fetched before they are needed.
#[derive(Clone, Copy, Debug, PartialEq, Eq, Structural)]
pub enum FetchStage {
    Required,
    Indicated,
    /// Also what is similar, within this many nanoseconds, or within any time.
    Similar(Option<u64>),
    Everything,
}

pub open spec fn stage_label(stage: FetchStage) -> Seq<char> {
    match stage {
        FetchStage::Required | FetchStage::Indicated => "仅必需"@,
        FetchStage::Similar(_) => "相似"@,
        FetchStage::Everything => "全部"@,
    }
}

impl FetchStage {
    pub fn label(self) -> (r: &'static str)
        ensures
            r@ == stage_label(self),
    {
        match self {
            FetchStage::Required | FetchStage::Indicated => "仅必需",
            FetchStage::Similar(_) => "相似",
            FetchStage::Everything => "全部",
        }
    }

    /// The stages that can be chosen. `default` is the one to begin with.
    pub fn choices(default: FetchStage) -> (r: Vec<FetchStage>)
        ensures
            r@ == seq![FetchStage::Indicated, default, FetchStage::Everything],
    {
        let out: Vec<FetchStage> = vec![FetchStage::Indicated, default, FetchStage::Everything];
        assert(out@ =~= seq![FetchStage::Indicated, default, FetchStage::Everything]);
        out
    }

    /// What stands beside the slider for the time, where there is one: whole seconds.
    pub fn range_label(self) -> (r: Option<String>)
        ensures
            text::opt_view(r) == (match self {
                FetchStage::Similar(Some(nanos)) => Some(
                    text::decimal(nanos as nat / 1_000_000_000) + "s"@,
                ),
                FetchStage::Similar(None) => Some("∞"@),
                _ => None,
            }),
    {
        match self {
            FetchStage::Similar(range) => Some(
                match range {
                    Some(nanos) => {
                        let secs: String = text::decimal_text(nanos / 1_000_000_000);
                        text::cat2(secs.as_str(), "s")
                    },
                    None => "∞".to_owned(),
                },
            ),
            _ => None,
        }
    }
}

// ---------------------------------------------------------------------------------------
// Timestamps

/// How timestamps are shown.
#[derive(Clone, Copy, Debug, PartialEq, Eq, Structural)]
pub enum TimestampFormat {
    Utc,
    LocalTimezone,
    LocalTimezoneImplicit,
    UnixEpoch,
}

pub open spec fn format_label(format: TimestampFormat) -> Seq<char> {
    match format {
        TimestampFormat::Utc => "UTC"@,
        TimestampFormat::LocalTimezone => "本地时间（显示时区）"@,
        TimestampFormat::LocalTimezoneImplicit => "本地时间（隐藏时区）"@,
        TimestampFormat::UnixEpoch => "Unix 纪元以来的秒数"@,
    }
}

impl TimestampFormat {
    /// The formats that can be chosen.
    pub fn choices() -> (r: Vec<TimestampFormat>)
        ensures
            r@ == seq![
                TimestampFormat::Utc,
                TimestampFormat::LocalTimezone,
                TimestampFormat::LocalTimezoneImplicit,
                TimestampFormat::UnixEpoch,
            ],
    {
        let out: Vec<TimestampFormat> = vec![
            TimestampFormat::Utc,
            TimestampFormat::LocalTimezone,
            TimestampFormat::LocalTimezoneImplicit,
            TimestampFormat::UnixEpoch,
        ];
        assert(out@ =~= seq![
            TimestampFormat::Utc,
            TimestampFormat::LocalTimezone,
            TimestampFormat::LocalTimezoneImplicit,
            TimestampFormat::UnixEpoch,
        ]);
        out
    }

    pub fn label(self) -> (r: &'static str)
        ensures
            r@ == format_label(self),
    {
        match self {
            TimestampFormat::Utc => "UTC",
            TimestampFormat::LocalTimezone => "本地时间（显示时区）",
            TimestampFormat::LocalTimezoneImplicit => "本地时间（隐藏时区）",
            TimestampFormat::UnixEpoch => "Unix 纪元以来的秒数",
        }
    }

    /// What stands below its example.
    pub fn note(self) -> (r: Option<&'static str>)
        ensures
            r is Some <==> self == TimestampFormat::LocalTimezoneImplicit,
            r matches Some(words) ==> words@ == "注意：不带时区的时间戳复制到别处后会产生歧义。"@,
    {
        match self {
            TimestampFormat::LocalTimezoneImplicit => Some(
                "注意：不带时区的时间戳复制到别处后会产生歧义。",
            ),
            _ => None,
        }
    }
}

/// The time that a text names, in nanoseconds since the unix epoch, if it names one.
pub uninterp spec fn time_named(s: Seq<char>) -> Option<i128>;

/// `jiff::Timestamp::from_str`, in nanoseconds. What it gives depends on the text alone.
#[verifier::external_body]
fn jiff_parse_timestamp(s: &str) -> (r: Option<i128>)
    ensures
        r == time_named(s@),
{
    s.parse::<jiff::Timestamp>().ok().map(|time| time.as_nanosecond())
}

/// The time that the examples of the formats show.
pub fn example_timestamp() -> (r: Option<i128>)
    ensures
        r == time_named("2023-02-14 21:47:18Z"@),
{
    jiff_parse_timestamp("2023-02-14 21:47:18Z")
}

// ---------------------------------------------------------------------------------------
// Video

/// What is known of the `FFmpeg` program.
#[derive(Debug)]
pub enum FfmpegStatus {
    /// It is being looked at.
    Pending,
    /// It has this version, and that is one that works, or not.
    Version(String, bool),
    /// It is there, and says this of its version.
    UnknownVersion(String),
    NotFound,
    OtherError(String),
}

/// How a line of text is meant.
#[derive(Clone, Copy, Debug, PartialEq, Eq, Structural)]
pub enum LabelKind {
    Loading,
    Success,
    Warning,
    Error,
}

/// What is said of the `FFmpeg` program. Not being able to read its version is a warning and
/// no error, because that is flaky, and it might end up still working.
pub open spec fn ffmpeg_words(status: FfmpegStatus) -> (LabelKind, Seq<char>) {
    match status {
        FfmpegStatus::Pending => (LabelKind::Loading, "正在检查 FFmpeg 版本"@),
        FfmpegStatus::Version(version, works) => if works {
            (LabelKind::Success, "已找到 FFmpeg（版本 "@ + version@ + "）"@)
        } else {
            (LabelKind::Error, "FFmpeg 版本不兼容："@ + version@)
        },
        FfmpegStatus::UnknownVersion(raw) => (
            LabelKind::Warning,
            "找到了 FFmpeg 程序，但无法解析其版本："@ + raw@,
        ),
        FfmpegStatus::NotFound => (
            LabelKind::Error,
            "指定的 FFmpeg 程序路径不存在，或者不是一个文件。"@,
        ),
        FfmpegStatus::OtherError(err) => (LabelKind::Error, err@),
    }
}

impl FfmpegStatus {
    pub fn label(&self) -> (r: (LabelKind, String))
        ensures
            r.0 == ffmpeg_words(*self).0,
            r.1@ == ffmpeg_words(*self).1,
    {
        match self {
            FfmpegStatus::Pending => (LabelKind::Loading, "正在检查 FFmpeg 版本".to_owned()),
            FfmpegStatus::Version(version, works) => if *works {
                (
                    LabelKind::Success,
                    text::cat3("已找到 FFmpeg（版本 ", version.as_str(), "）"),
                )
            } else {
                (LabelKind::Error, text::cat2("FFmpeg 版本不兼容：", version.as_str()))
            },
            FfmpegStatus::UnknownVersion(raw) => (
                LabelKind::Warning,
                text::cat2("找到了 FFmpeg 程序，但无法解析其版本：", raw.as_str()),
            ),
            FfmpegStatus::NotFound => (
                LabelKind::Error,
                "指定的 FFmpeg 程序路径不存在，或者不是一个文件。".to_owned(),
            ),
            FfmpegStatus::OtherError(err) => (LabelKind::Error, err.clone()),
        }
    }
}

/// Where to look for the `FFmpeg` program: at the path that the user gave, if they want that.
pub fn ffmpeg_path(override_path: bool, path: &String) -> (r: Option<String>)
    ensures
        r == (if override_path {
            Some(*path)
        } else {
            None
        }),
{
    if override_path {
        Some(path.clone())
    } else {
        None
    }
}

// ---------------------------------------------------------------------------------------
// Storage of the browser

/// How a message of the log is meant.
#[derive(Clone, Copy, Debug, PartialEq, Eq, Structural)]
pub enum LogLevel {
    Info,
    Warn,
    Error,
}

/// What is logged of the request for persistent storage.
pub fn persistence_message(granted: &Result<bool, String>) -> (r: (LogLevel, String))
    ensures
        match *granted {
            Ok(true) => r.0 == LogLevel::Info && r.1@ == "浏览器已授予持久化存储"@,
            Ok(false) => r.0 == LogLevel::Warn && r.1@ == "浏览器拒绝了持久化存储请求"@,
            Err(err) => r.0 == LogLevel::Error && r.1@ == "申请浏览器持久化存储失败："@ + err@,
        },
{
    match granted {
        Ok(granted) => if *granted {
            (LogLevel::Info, "浏览器已授予持久化存储".to_owned())
        } else {
            (LogLevel::Warn, "浏览器拒绝了持久化存储请求".to_owned())
        },
        Err(err) => (
            LogLevel::Error,
            text::cat2("申请浏览器持久化存储失败：", err.as_str()),
        ),
    }
}

// ---------------------------------------------------------------------------------------
// Laws

/// Whatever is entered for the memory budget, it stays within the range of the field.
pub proof fn law_budget_stays_in_range(s: Seq<char>, parsed: Option<u64>)
    ensures
        entered_bytes(s, parsed) matches Some(bytes) ==> bytes <= UPPER_LIMIT_BYTES,
{
}

/// Each switch is a setting of its own.
pub proof fn law_each_switch_is_its_own_setting(s: AppSwitches)
    ensures
        s.is_on(Switch::ExamplesButton) == s.include_rerun_examples_button_in_recordings_panel,
        s.is_on(Switch::VisualizerLimits) == s.visualizer_limits_enabled,
        s.is_on(Switch::WindowDecorations) == s.custom_window_decorations,
        s.is_on(Switch::Metrics) == s.show_metrics,
        s.is_on(Switch::Toasts) == s.show_notification_toasts,
        s.is_on(Switch::TableCards) == s.table_cards_and_blueprints,
        s.is_on(Switch::PointCloudTransparency) == s.point_cloud_transparency,
        s.is_on(Switch::InternalCatalog) == s.use_internal_catalog,
        s.is_on(Switch::Gamepad) == s.gamepad_navigation,
{
}

/// A number alone is that many gibibytes, a thousand of them at most. An amount with a unit is
/// that many bytes, up to the same limit; what makes no sense is not taken.
pub proof fn law_number_alone_is_gibibytes(
    n: nat,
    before: Seq<char>,
    behind: Seq<char>,
    s: Seq<char>,
    parsed: Option<u64>,
)
    requires
        forall|i: int| 0 <= i < before.len() ==> text::is_whitespace(#[trigger] before[i]),
        forall|i: int| 0 <= i < behind.len() ==> text::is_whitespace(#[trigger] behind[i]),
    ensures
        all_numeric(text::decimal(n)) ==> entered_bytes(
            before + text::decimal(n) + behind,
            parsed,
        ) == Some((if n <= 1000 {
            n * 1_073_741_824
        } else {
            1_073_741_824_000
        }) as u64),
        !all_numeric(text::trimmed(s)) ==> {
            &&& entered_bytes(s, parsed) is Some <==> parsed is Some
            &&& parsed matches Some(bytes) ==> entered_bytes(s, parsed) == Some(
                if bytes <= 1_073_741_824_000 {
                    bytes
                } else {
                    1_073_741_824_000
                },
            )
        },
        text::trimmed(s).len() == 0 ==> entered_bytes(s, parsed) is None,
{
    let digits = text::decimal(n);
    text::lemma_decimal_spells(n);
    assert(text::is_digit(digits[0]) && text::is_digit(digits.last()));
    text::lemma_trimmed_is(before, digits, behind);
}

/// Which entries the screen has: all of them everywhere, but for those that only some viewers
/// can make use of. None is there twice.
pub proof fn law_which_settings_are_shown(
    platform: Platform,
    supports_custom_decorations: bool,
    use_internal_catalog: bool,
    entry: SettingsEntry,
)
    ensures
        ({
            let all = screen_entries(platform, supports_custom_decorations, use_internal_catalog);
            let opfs = platform == Platform::Web && use_internal_catalog;
            all.contains(entry) <==> match entry {
                SettingsEntry::Checkbox(Switch::WindowDecorations) => supports_custom_decorations,
                SettingsEntry::Checkbox(Switch::Gamepad) => platform == Platform::Native,
                SettingsEntry::Section(SettingsSection::Storage) => opfs,
                SettingsEntry::PersistentStorage => opfs,
                _ => true,
            }
        }),
        screen_entries(
            platform,
            supports_custom_decorations,
            use_internal_catalog,
        ).no_duplicates(),
{
    let all = screen_entries(platform, supports_custom_decorations, use_internal_catalog);
    let a: int = if supports_custom_decorations {
        1
    } else {
        0
    };
    let b: int = if platform == Platform::Web && use_internal_catalog {
        2
    } else {
        0
    };
    assert(all[0] == SettingsEntry::Section(SettingsSection::General));
    assert(all[1] == SettingsEntry::Theme);
    assert(all[2] == SettingsEntry::MemoryBudget);
    assert(all[3] == SettingsEntry::Prefetch);
    assert(all[4] == SettingsEntry::Checkbox(Switch::ExamplesButton));
    assert(all[5] == SettingsEntry::Checkbox(Switch::VisualizerLimits));
    assert(all[6] == SettingsEntry::TimestampFormat);
    assert(all[7] == SettingsEntry::Section(SettingsSection::TitleBar));
    if a == 1 {
        assert(all[8] == SettingsEntry::Checkbox(Switch::WindowDecorations));
    }
    assert(all[8 + a] == SettingsEntry::Checkbox(Switch::Metrics));
    assert(all[9 + a] == SettingsEntry::Checkbox(Switch::Toasts));
    assert(all[10 + a] == SettingsEntry::Section(SettingsSection::MapView));
    assert(all[11 + a] == SettingsEntry::MapboxToken);
    assert(all[12 + a] == SettingsEntry::Section(SettingsSection::Video));
    assert(all[13 + a] == SettingsEntry::Video);
    if b == 2 {
        assert(all[14 + a] == SettingsEntry::Section(SettingsSection::Storage));
        assert(all[15 + a] == SettingsEntry::PersistentStorage);
    }
    assert(all[14 + a + b] == SettingsEntry::Section(SettingsSection::Experimental));
    assert(all[15 + a + b] == SettingsEntry::Checkbox(Switch::TableCards));
    assert(all[16 + a + b] == SettingsEntry::Checkbox(Switch::PointCloudTransparency));
    assert(all[17 + a + b] == SettingsEntry::Checkbox(Switch::InternalCatalog));
    if platform == Platform::Native {
        assert(all[18 + a + b] == SettingsEntry::Checkbox(Switch::Gamepad));
    }
}

/// A program that works is a success, one that is there but cannot be judged a warning, and
/// anything else an error; the version, or the reason, is named.
pub proof fn law_video_program_is_judged(status: FfmpegStatus)
    ensures
        ffmpeg_words(status).0 == LabelKind::Success <==> (status matches FfmpegStatus::Version(
            version,
            works,
        ) && works),
        ffmpeg_words(status).0 == LabelKind::Loading <==> status is Pending,
        ffmpeg_words(status).0 == LabelKind::Warning <==> status is UnknownVersion,
        status matches FfmpegStatus::Version(version, works) ==> text::occurs_in(
            ffmpeg_words(status).1,
            version@,
        ),
        status matches FfmpegStatus::UnknownVersion(raw) ==> text::occurs_in(
            ffmpeg_words(status).1,
            raw@,
        ),
        status matches FfmpegStatus::OtherError(err) ==> ffmpeg_words(status).1 == err@,
{
    match status {
        FfmpegStatus::Version(version, works) => {
            if works {
                text::lemma_occurs_between(
                    "已找到 FFmpeg（版本 "@,
                    version@,
                    "）"@,
                    ffmpeg_words(status).1,
                );
            } else {
                text::lemma_occurs_between(
                    "FFmpeg 版本不兼容："@,
                    version@,
                    seq![],
                    ffmpeg_words(status).1,
                );
            }
        },
        FfmpegStatus::UnknownVersion(raw) => {
            text::lemma_occurs_between(
                "找到了 FFmpeg 程序，但无法解析其版本："@,
                raw@,
                seq![],
                ffmpeg_words(status).1,
            );
        },
        _ => {},
    }
}

/// Less than a thousand gibibytes are a limit, and shown as what they are; all from there on
/// means that there is none.
pub proof fn law_no_limit_from_the_end_of_the_range(
    bytes: u64,
    formatted: String,
    limit: MemoryLimit,
    shown: String,
)
    requires
        call_ensures(limit_from_bytes, (bytes,), limit),
        call_ensures(budget_text, (bytes, &formatted), shown),
    ensures
        limit == MemoryLimit::Unlimited <==> bytes >= 1_073_741_824_000,
        bytes < 1_073_741_824_000 ==> limit == MemoryLimit::Bytes(bytes) && shown@ == formatted@,
        bytes >= 1_073_741_824_000 ==> shown@ == "不限"@,
{
}

} // verus!
