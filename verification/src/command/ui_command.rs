//! The commands of the viewer itself: those that are not about one recording.
use vstd::prelude::*;
use vstd::string::*;

use crate::command::shortcut;
use crate::command::shortcut::{Key, KeyboardShortcut, ShortcutList};
use crate::command::{CommandTooltip, MenuButton};
use crate::i18n;
use crate::i18n::{tr, Language};
use crate::icons::Icon;
use crate::lists;
use crate::platform::{Build, OperatingSystem, Platform};
use crate::text;

verus! {

/// Interface for sending [`UICommand`] messages.
pub trait UICommandSender {
    fn send_ui(&self, command: UICommand);
}

/// All the commands we support.
///
/// Most are available in the GUI, some have keyboard shortcuts, and all are visible in the
/// command palette, in the order in which they are listed here.
#[derive(Clone, Copy, Debug, PartialEq, Eq, Hash, Structural)]
pub enum UICommand {
    Open,
    OpenUrl,
    OpenTosDataset,
    OpenHfDataset,
    Import,
    CloseAllEntries,
    NextRecording,
    PreviousRecording,
    NavigateBack,
    NavigateForward,
    Quit,
    OpenWebsite,
    OpenWebHelp,
    OpenRerunDiscord,
    ResetViewer,
    OpenProfiler,
    CaptureProfileTrace,
    TogglePanelStateOverrides,
    ToggleDevPanel,
    ToggleTopPanel,
    ToggleBlueprintPanel,
    ExpandBlueprintPanel,
    ToggleSelectionPanel,
    ExpandSelectionPanel,
    Settings,
    ToggleEguiDebugPanel,
    ToggleFullscreen,
    ZoomIn,
    ZoomOut,
    ZoomReset,
    ToggleCommandPalette,
    ScreenshotWholeApp,
    ResetEguiMemory,
    Share,
    CopyDirectLink,
    CopyTimeSelectionLink,
    CopyEntityHierarchy,
    RestartWithWebGl,
    RestartWithWebGpu,
    AddRedapServer,
}

/// All commands of all builds, in the order of the command palette.
pub open spec fn every_command() -> Seq<UICommand> {
    seq![
        UICommand::Open,
        UICommand::OpenUrl,
        UICommand::OpenTosDataset,
        UICommand::OpenHfDataset,
        UICommand::Import,
        UICommand::CloseAllEntries,
        UICommand::NextRecording,
        UICommand::PreviousRecording,
        UICommand::NavigateBack,
        UICommand::NavigateForward,
        UICommand::Quit,
        UICommand::OpenWebsite,
        UICommand::OpenWebHelp,
        UICommand::OpenRerunDiscord,
        UICommand::ResetViewer,
        UICommand::OpenProfiler,
        UICommand::CaptureProfileTrace,
        UICommand::TogglePanelStateOverrides,
        UICommand::ToggleDevPanel,
        UICommand::ToggleTopPanel,
        UICommand::ToggleBlueprintPanel,
        UICommand::ExpandBlueprintPanel,
        UICommand::ToggleSelectionPanel,
        UICommand::ExpandSelectionPanel,
        UICommand::Settings,
        UICommand::ToggleEguiDebugPanel,
        UICommand::ToggleFullscreen,
        UICommand::ZoomIn,
        UICommand::ZoomOut,
        UICommand::ZoomReset,
        UICommand::ToggleCommandPalette,
        UICommand::ScreenshotWholeApp,
        UICommand::ResetEguiMemory,
        UICommand::Share,
        UICommand::CopyDirectLink,
        UICommand::CopyTimeSelectionLink,
        UICommand::CopyEntityHierarchy,
        UICommand::RestartWithWebGl,
        UICommand::RestartWithWebGpu,
        UICommand::AddRedapServer,
    ]
}

/// The commands of a build, in the order of the command palette.
pub open spec fn commands(build: Build) -> Seq<UICommand> {
    every_command().filter(|c: UICommand| c.exists_in(build))
}

/// The shortcuts of some commands, each with its command, in the order of the commands and,
/// for one command, with its primary shortcut first.
pub open spec fn shortcut_table_of(
    list: Seq<UICommand>,
    platform: Platform,
    os: OperatingSystem,
) -> Seq<(KeyboardShortcut, UICommand)>
    decreases list.len(),
{
    if list.len() == 0 {
        Seq::empty()
    } else {
        let c = list.last();
        shortcut_table_of(list.drop_last(), platform, os) + c.shortcuts(platform, os).map_values(
            |s: KeyboardShortcut| (s, c),
        )
    }
}

impl UICommand {
    /// Whether a build has this command.
    pub open spec fn exists_in(self, build: Build) -> bool {
        match self {
            UICommand::Quit
            | UICommand::OpenProfiler
            | UICommand::CaptureProfileTrace
            | UICommand::ZoomIn
            | UICommand::ZoomOut
            | UICommand::ZoomReset
            | UICommand::ScreenshotWholeApp => build.platform == Platform::Native,
            UICommand::RestartWithWebGl
            | UICommand::RestartWithWebGpu => build.platform == Platform::Web,
            UICommand::ToggleEguiDebugPanel
            | UICommand::ResetEguiMemory => build.debug,
            _ => true,
        }
    }

    /// Whether a build has this command.
    pub fn is_in(self, build: Build) -> (r: bool)
        ensures
            r == self.exists_in(build),
    {
        match self {
            UICommand::Quit
            | UICommand::OpenProfiler
            | UICommand::CaptureProfileTrace
            | UICommand::ZoomIn
            | UICommand::ZoomOut
            | UICommand::ZoomReset
            | UICommand::ScreenshotWholeApp => build.platform == Platform::Native,
            UICommand::RestartWithWebGl
            | UICommand::RestartWithWebGpu => build.platform == Platform::Web,
            UICommand::ToggleEguiDebugPanel
            | UICommand::ResetEguiMemory => build.debug,
            _ => true,
        }
    }

    /// The commands of a build, in the order of the command palette.
    pub fn all(build: Build) -> (r: Vec<UICommand>)
        ensures
            r@ == commands(build),
    {
        let every: Vec<UICommand> = vec![
            UICommand::Open,
            UICommand::OpenUrl,
            UICommand::OpenTosDataset,
            UICommand::OpenHfDataset,
            UICommand::Import,
            UICommand::CloseAllEntries,
            UICommand::NextRecording,
            UICommand::PreviousRecording,
            UICommand::NavigateBack,
            UICommand::NavigateForward,
            UICommand::Quit,
            UICommand::OpenWebsite,
            UICommand::OpenWebHelp,
            UICommand::OpenRerunDiscord,
            UICommand::ResetViewer,
            UICommand::OpenProfiler,
            UICommand::CaptureProfileTrace,
            UICommand::TogglePanelStateOverrides,
            UICommand::ToggleDevPanel,
            UICommand::ToggleTopPanel,
            UICommand::ToggleBlueprintPanel,
            UICommand::ExpandBlueprintPanel,
            UICommand::ToggleSelectionPanel,
            UICommand::ExpandSelectionPanel,
            UICommand::Settings,
            UICommand::ToggleEguiDebugPanel,
            UICommand::ToggleFullscreen,
            UICommand::ZoomIn,
            UICommand::ZoomOut,
            UICommand::ZoomReset,
            UICommand::ToggleCommandPalette,
            UICommand::ScreenshotWholeApp,
            UICommand::ResetEguiMemory,
            UICommand::Share,
            UICommand::CopyDirectLink,
            UICommand::CopyTimeSelectionLink,
            UICommand::CopyEntityHierarchy,
            UICommand::RestartWithWebGl,
            UICommand::RestartWithWebGpu,
            UICommand::AddRedapServer,
        ];
        assert(every@ =~= every_command());
        let ghost here = |c: UICommand| c.exists_in(build);
        let mut out: Vec<UICommand> = Vec::new();
        let n: usize = every.len();
        let mut i: usize = 0;
        assert(every@.take(0).filter(here) =~= Seq::empty()) by {
            reveal(Seq::filter);
        }
        while i < n
            invariant
                i <= n,
                n == every@.len(),
                here == (|c: UICommand| c.exists_in(build)),
                out@ == every@.take(i as int).filter(here),
            decreases n - i,
        {
            proof {
                reveal(Seq::filter);
                assert(every@.take(i + 1).drop_last() =~= every@.take(i as int));
            }
            if every[i].is_in(build) {
                out.push(every[i]);
            }
            i += 1;
        }
        assert(every@.take(n as int) =~= every@);
        out
    }

    /// The name of the command, in English and in Chinese.
    pub open spec fn label(self) -> (Seq<char>, Seq<char>) {
        match self {
            UICommand::Open => ("Open file…"@, "打开文件…"@),
            UICommand::OpenUrl => ("Open from URL…"@, "从 URL 打开…"@),
            UICommand::OpenTosDataset => ("Open from Volcengine TOS…"@, "从火山引擎 TOS 打开…"@),
            UICommand::OpenHfDataset => ("Open from Hugging Face…"@, "从 Hugging Face 打开…"@),
            UICommand::Import => ("Import into current recording…"@, "导入到当前 episode…"@),
            UICommand::CloseAllEntries => ("Close all recordings"@, "关闭所有 episode"@),
            UICommand::NextRecording => ("Next recording"@, "下一个 episode"@),
            UICommand::PreviousRecording => ("Previous recording"@, "上一个 episode"@),
            UICommand::NavigateBack => ("Back in history"@, "后退"@),
            UICommand::NavigateForward => ("Forward in history"@, "前进"@),
            UICommand::Quit => ("Quit"@, "退出"@),
            UICommand::OpenWebsite => ("rerun.io"@, "rerun.io"@),
            UICommand::OpenWebHelp => ("Docs"@, "文档"@),
            UICommand::OpenRerunDiscord => ("Rerun Discord"@, "Rerun Discord"@),
            UICommand::ResetViewer => ("Reset Viewer"@, "重置 Viewer"@),
            UICommand::OpenProfiler => ("Open profiler"@, "打开性能分析器"@),
            UICommand::CaptureProfileTrace => ("Capture profile trace…"@, "抓取性能数据…"@),
            UICommand::TogglePanelStateOverrides => ("Toggle panel state overrides"@, "切换面板状态覆盖"@),
            UICommand::ToggleDevPanel => ("Toggle dev panel"@, "显示/隐藏开发者面板"@),
            UICommand::ToggleTopPanel => ("Toggle top panel"@, "显示/隐藏顶部面板"@),
            UICommand::ToggleBlueprintPanel => ("Toggle blueprint panel"@, "显示/隐藏 Blueprint 面板"@),
            UICommand::ExpandBlueprintPanel => ("Expand blueprint panel"@, "展开 Blueprint 面板"@),
            UICommand::ToggleSelectionPanel => ("Toggle selection panel"@, "显示/隐藏 Selection 面板"@),
            UICommand::ExpandSelectionPanel => ("Expand selection panel"@, "展开 Selection 面板"@),
            UICommand::Settings => ("Settings…"@, "设置…"@),
            UICommand::ToggleEguiDebugPanel => ("Toggle egui debug panel"@, "显示/隐藏 egui 调试面板"@),
            UICommand::ToggleFullscreen => ("Toggle fullscreen"@, "切换全屏"@),
            UICommand::ZoomIn => ("Zoom in"@, "放大"@),
            UICommand::ZoomOut => ("Zoom out"@, "缩小"@),
            UICommand::ZoomReset => ("Reset zoom"@, "重置缩放"@),
            UICommand::ToggleCommandPalette => ("Command palette…"@, "命令面板…"@),
            UICommand::ScreenshotWholeApp => ("Screenshot"@, "截图"@),
            UICommand::ResetEguiMemory => ("Reset egui memory"@, "重置 egui 内存"@),
            UICommand::Share => ("Share…"@, "分享…"@),
            UICommand::CopyDirectLink => ("Copy direct link"@, "复制直达链接"@),
            UICommand::CopyTimeSelectionLink => ("Copy link to selected time range"@, "复制选中时间段的链接"@),
            UICommand::CopyEntityHierarchy => ("Copy entity hierarchy"@, "复制实体层级"@),
            UICommand::RestartWithWebGl => ("Restart with WebGL"@, "用 WebGL 重启"@),
            UICommand::RestartWithWebGpu => ("Restart with WebGPU"@, "用 WebGPU 重启"@),
            UICommand::AddRedapServer => ("Connect to a server…"@, "连接服务器…"@),
        }
    }

    /// What the command does, in English and in Chinese.
    pub open spec fn explanation(self, platform: Platform) -> (Seq<char>, Seq<char>) {
        match self {
            UICommand::Open => (
                "Open any supported files (.rrd, images, meshes, …) in a new recording"@,
                "在新的 episode 中打开任意支持的文件（.rrd、图片、网格模型等）"@,
            ),
            UICommand::OpenUrl => (
                "Open or navigate to data from any supported URL"@,
                "打开或跳转到任意支持的 URL 数据"@,
            ),
            UICommand::OpenTosDataset => (
                "Open a dataset from a Volcengine TOS bucket."@,
                "从火山引擎 TOS 桶打开数据集。"@,
            ),
            UICommand::OpenHfDataset => (
                "Open a dataset from Hugging Face."@,
                "从 Hugging Face 打开数据集。"@,
            ),
            UICommand::Import => (
                "Import any supported files (.rrd, images, meshes, …) in the current recording"@,
                "把任意支持的文件（.rrd、图片、网格模型等）导入到当前 episode"@,
            ),
            UICommand::CloseAllEntries => (
                "Close all open current recording (unsaved data will be lost)"@,
                "关闭所有打开的 episode（未保存的数据会丢失）"@,
            ),
            UICommand::NextRecording => (
                "Switch to the next open recording"@,
                "切换到下一个打开的 episode"@,
            ),
            UICommand::PreviousRecording => (
                "Switch to the previous open recording"@,
                "切换到上一个打开的 episode"@,
            ),
            UICommand::NavigateBack => (
                "Go back in history"@,
                "回到上一个浏览位置"@,
            ),
            UICommand::NavigateForward => (
                "Go forward in history"@,
                "去往下一个浏览位置"@,
            ),
            UICommand::Quit => (
                "Close the Rerun Viewer"@,
                "关闭 Rerun Viewer"@,
            ),
            UICommand::OpenWebsite => (
                "Visit our homepage"@,
                "访问 Rerun 官网"@,
            ),
            UICommand::OpenWebHelp => (
                "Visit the docs on our website, with troubleshooting tips and more"@,
                "访问官网文档，包含常见问题排查等内容"@,
            ),
            UICommand::OpenRerunDiscord => (
                "Visit the Rerun Discord server, where you can ask questions and get help"@,
                "访问 Rerun 的 Discord 社区，可以提问和寻求帮助"@,
            ),
            UICommand::ResetViewer => (
                "Reset the Viewer to how it looked the first time you ran it, forgetting UI state and all stored blueprints, except the ones loaded from *.rbl resources"@,
                "把 Viewer 恢复到第一次运行时的样子，清除界面状态和所有已保存的 blueprint（从 *.rbl 资源加载的除外）"@,
            ),
            UICommand::OpenProfiler => (
                "Starts a profiler, showing what makes the viewer run slow"@,
                "启动性能分析器，查看是什么拖慢了 Viewer"@,
            ),
            UICommand::CaptureProfileTrace => (
                "Capture profiling data and save them as a .puffin file"@,
                "抓取性能分析数据并保存为 .puffin 文件"@,
            ),
            UICommand::TogglePanelStateOverrides => (
                "Toggle panel state between app blueprint and overrides"@,
                "在应用 blueprint 与手动覆盖之间切换面板状态"@,
            ),
            UICommand::ToggleDevPanel => (
                "View developer stats like RAM usage inside Rerun Viewer"@,
                "查看 Rerun Viewer 的内存占用等开发者统计信息"@,
            ),
            UICommand::ToggleTopPanel => (
                "Toggle the top panel"@,
                "显示或隐藏顶部面板"@,
            ),
            UICommand::ToggleBlueprintPanel => (
                "Toggle the left panel"@,
                "显示或隐藏左侧面板"@,
            ),
            UICommand::ExpandBlueprintPanel => (
                "Expand the left panel"@,
                "展开左侧面板"@,
            ),
            UICommand::ToggleSelectionPanel => (
                "Toggle the right panel"@,
                "显示或隐藏右侧面板"@,
            ),
            UICommand::ExpandSelectionPanel => (
                "Expand the right panel"@,
                "展开右侧面板"@,
            ),
            UICommand::Settings => (
                "Show the settings screen"@,
                "打开设置页面"@,
            ),
            UICommand::ToggleEguiDebugPanel => (
                "View and change global egui style settings"@,
                "查看和修改 egui 全局样式设置"@,
            ),
            UICommand::ToggleFullscreen => match platform {
                Platform::Web => (
                    "Toggle between full viewport dimensions and initial dimensions"@,
                    "在占满整个页面和初始大小之间切换"@,
                ),
                Platform::Native => (
                    "Toggle between windowed and fullscreen viewer"@,
                    "在窗口模式和全屏模式之间切换"@,
                ),
            },
            UICommand::ZoomIn => (
                "Increases the UI zoom level"@,
                "放大界面显示"@,
            ),
            UICommand::ZoomOut => (
                "Decreases the UI zoom level"@,
                "缩小界面显示"@,
            ),
            UICommand::ZoomReset => (
                "Resets the UI zoom level to the operating system's default value"@,
                "把界面缩放恢复到操作系统的默认值"@,
            ),
            UICommand::ToggleCommandPalette => (
                "Toggle the Command Palette"@,
                "打开或关闭命令面板"@,
            ),
            UICommand::ScreenshotWholeApp => (
                "Copy screenshot of the whole app to clipboard"@,
                "把整个应用的截图复制到剪贴板"@,
            ),
            UICommand::ResetEguiMemory => (
                "Reset egui memory, useful for debugging UI code."@,
                "重置 egui 内存，用于调试界面代码。"@,
            ),
            UICommand::Share => (
                "Share the current screen as a link"@,
                "把当前画面以链接形式分享"@,
            ),
            UICommand::CopyDirectLink => (
                "Try to copy a shareable link to the current screen. This is not supported for all data sources & viewer states."@,
                "尝试复制当前画面的分享链接。并非所有数据源和 Viewer 状态都支持。"@,
            ),
            UICommand::CopyTimeSelectionLink => (
                "Copy a link to the part of the active recording within the loop selection bounds."@,
                "复制当前 episode 中循环选区对应时间段的链接。"@,
            ),
            UICommand::CopyEntityHierarchy => (
                "Copy the complete entity hierarchy tree of the currently active recording to the clipboard."@,
                "把当前 episode 的完整实体层级树复制到剪贴板。"@,
            ),
            UICommand::RestartWithWebGl => (
                "Reloads the webpage and force WebGL for rendering. All data will be lost."@,
                "重新加载网页并强制使用 WebGL 渲染。所有数据会丢失。"@,
            ),
            UICommand::RestartWithWebGpu => (
                "Reloads the webpage and force WebGPU for rendering. All data will be lost."@,
                "重新加载网页并强制使用 WebGPU 渲染。所有数据会丢失。"@,
            ),
            UICommand::AddRedapServer => (
                "Connect to a Redap server (experimental)"@,
                "连接 Redap 服务器（实验功能）"@,
            ),
        }
    }

    /// The name of the command, as the interface shows it.
    pub open spec fn text_in(self, lang: Language) -> Seq<char> {
        i18n::translated(lang, self.label().0, self.label().1)
    }

    /// What the command does, as the interface shows it.
    pub open spec fn tooltip_in(self, platform: Platform, lang: Language) -> Seq<char> {
        i18n::translated(lang, self.explanation(platform).0, self.explanation(platform).1)
    }

    pub fn text(self, lang: Language) -> (r: &'static str)
        ensures
            r@ == self.text_in(lang),
    {
        match self {
            UICommand::Open => tr(lang, "Open file…", "打开文件…"),
            UICommand::OpenUrl => tr(lang, "Open from URL…", "从 URL 打开…"),
            UICommand::OpenTosDataset => tr(lang, "Open from Volcengine TOS…", "从火山引擎 TOS 打开…"),
            UICommand::OpenHfDataset => tr(lang, "Open from Hugging Face…", "从 Hugging Face 打开…"),
            UICommand::Import => tr(lang, "Import into current recording…", "导入到当前 episode…"),
            UICommand::CloseAllEntries => tr(lang, "Close all recordings", "关闭所有 episode"),
            UICommand::NextRecording => tr(lang, "Next recording", "下一个 episode"),
            UICommand::PreviousRecording => tr(lang, "Previous recording", "上一个 episode"),
            UICommand::NavigateBack => tr(lang, "Back in history", "后退"),
            UICommand::NavigateForward => tr(lang, "Forward in history", "前进"),
            UICommand::Quit => tr(lang, "Quit", "退出"),
            UICommand::OpenWebsite => tr(lang, "rerun.io", "rerun.io"),
            UICommand::OpenWebHelp => tr(lang, "Docs", "文档"),
            UICommand::OpenRerunDiscord => tr(lang, "Rerun Discord", "Rerun Discord"),
            UICommand::ResetViewer => tr(lang, "Reset Viewer", "重置 Viewer"),
            UICommand::OpenProfiler => tr(lang, "Open profiler", "打开性能分析器"),
            UICommand::CaptureProfileTrace => tr(lang, "Capture profile trace…", "抓取性能数据…"),
            UICommand::TogglePanelStateOverrides => tr(lang, "Toggle panel state overrides", "切换面板状态覆盖"),
            UICommand::ToggleDevPanel => tr(lang, "Toggle dev panel", "显示/隐藏开发者面板"),
            UICommand::ToggleTopPanel => tr(lang, "Toggle top panel", "显示/隐藏顶部面板"),
            UICommand::ToggleBlueprintPanel => tr(lang, "Toggle blueprint panel", "显示/隐藏 Blueprint 面板"),
            UICommand::ExpandBlueprintPanel => tr(lang, "Expand blueprint panel", "展开 Blueprint 面板"),
            UICommand::ToggleSelectionPanel => tr(lang, "Toggle selection panel", "显示/隐藏 Selection 面板"),
            UICommand::ExpandSelectionPanel => tr(lang, "Expand selection panel", "展开 Selection 面板"),
            UICommand::Settings => tr(lang, "Settings…", "设置…"),
            UICommand::ToggleEguiDebugPanel => tr(lang, "Toggle egui debug panel", "显示/隐藏 egui 调试面板"),
            UICommand::ToggleFullscreen => tr(lang, "Toggle fullscreen", "切换全屏"),
            UICommand::ZoomIn => tr(lang, "Zoom in", "放大"),
            UICommand::ZoomOut => tr(lang, "Zoom out", "缩小"),
            UICommand::ZoomReset => tr(lang, "Reset zoom", "重置缩放"),
            UICommand::ToggleCommandPalette => tr(lang, "Command palette…", "命令面板…"),
            UICommand::ScreenshotWholeApp => tr(lang, "Screenshot", "截图"),
            UICommand::ResetEguiMemory => tr(lang, "Reset egui memory", "重置 egui 内存"),
            UICommand::Share => tr(lang, "Share…", "分享…"),
            UICommand::CopyDirectLink => tr(lang, "Copy direct link", "复制直达链接"),
            UICommand::CopyTimeSelectionLink => tr(lang, "Copy link to selected time range", "复制选中时间段的链接"),
            UICommand::CopyEntityHierarchy => tr(lang, "Copy entity hierarchy", "复制实体层级"),
            UICommand::RestartWithWebGl => tr(lang, "Restart with WebGL", "用 WebGL 重启"),
            UICommand::RestartWithWebGpu => tr(lang, "Restart with WebGPU", "用 WebGPU 重启"),
            UICommand::AddRedapServer => tr(lang, "Connect to a server…", "连接服务器…"),
        }
    }

    pub fn tooltip(self, platform: Platform, lang: Language) -> (r: &'static str)
        ensures
            r@ == self.tooltip_in(platform, lang),
    {
        match self {
            UICommand::Open => tr(
                lang,
                "Open any supported files (.rrd, images, meshes, …) in a new recording",
                "在新的 episode 中打开任意支持的文件（.rrd、图片、网格模型等）",
            ),
            UICommand::OpenUrl => tr(
                lang,
                "Open or navigate to data from any supported URL",
                "打开或跳转到任意支持的 URL 数据",
            ),
            UICommand::OpenTosDataset => tr(
                lang,
                "Open a dataset from a Volcengine TOS bucket.",
                "从火山引擎 TOS 桶打开数据集。",
            ),
            UICommand::OpenHfDataset => tr(
                lang,
                "Open a dataset from Hugging Face.",
                "从 Hugging Face 打开数据集。",
            ),
            UICommand::Import => tr(
                lang,
                "Import any supported files (.rrd, images, meshes, …) in the current recording",
                "把任意支持的文件（.rrd、图片、网格模型等）导入到当前 episode",
            ),
            UICommand::CloseAllEntries => tr(
                lang,
                "Close all open current recording (unsaved data will be lost)",
                "关闭所有打开的 episode（未保存的数据会丢失）",
            ),
            UICommand::NextRecording => tr(
                lang,
                "Switch to the next open recording",
                "切换到下一个打开的 episode",
            ),
            UICommand::PreviousRecording => tr(
                lang,
                "Switch to the previous open recording",
                "切换到上一个打开的 episode",
            ),
            UICommand::NavigateBack => tr(
                lang,
                "Go back in history",
                "回到上一个浏览位置",
            ),
            UICommand::NavigateForward => tr(
                lang,
                "Go forward in history",
                "去往下一个浏览位置",
            ),
            UICommand::Quit => tr(
                lang,
                "Close the Rerun Viewer",
                "关闭 Rerun Viewer",
            ),
            UICommand::OpenWebsite => tr(
                lang,
                "Visit our homepage",
                "访问 Rerun 官网",
            ),
            UICommand::OpenWebHelp => tr(
                lang,
                "Visit the docs on our website, with troubleshooting tips and more",
                "访问官网文档，包含常见问题排查等内容",
            ),
            UICommand::OpenRerunDiscord => tr(
                lang,
                "Visit the Rerun Discord server, where you can ask questions and get help",
                "访问 Rerun 的 Discord 社区，可以提问和寻求帮助",
            ),
            UICommand::ResetViewer => tr(
                lang,
                "Reset the Viewer to how it looked the first time you ran it, forgetting UI state and all stored blueprints, except the ones loaded from *.rbl resources",
                "把 Viewer 恢复到第一次运行时的样子，清除界面状态和所有已保存的 blueprint（从 *.rbl 资源加载的除外）",
            ),
            UICommand::OpenProfiler => tr(
                lang,
                "Starts a profiler, showing what makes the viewer run slow",
                "启动性能分析器，查看是什么拖慢了 Viewer",
            ),
            UICommand::CaptureProfileTrace => tr(
                lang,
                "Capture profiling data and save them as a .puffin file",
                "抓取性能分析数据并保存为 .puffin 文件",
            ),
            UICommand::TogglePanelStateOverrides => tr(
                lang,
                "Toggle panel state between app blueprint and overrides",
                "在应用 blueprint 与手动覆盖之间切换面板状态",
            ),
            UICommand::ToggleDevPanel => tr(
                lang,
                "View developer stats like RAM usage inside Rerun Viewer",
                "查看 Rerun Viewer 的内存占用等开发者统计信息",
            ),
            UICommand::ToggleTopPanel => tr(
                lang,
                "Toggle the top panel",
                "显示或隐藏顶部面板",
            ),
            UICommand::ToggleBlueprintPanel => tr(
                lang,
                "Toggle the left panel",
                "显示或隐藏左侧面板",
            ),
            UICommand::ExpandBlueprintPanel => tr(
                lang,
                "Expand the left panel",
                "展开左侧面板",
            ),
            UICommand::ToggleSelectionPanel => tr(
                lang,
                "Toggle the right panel",
                "显示或隐藏右侧面板",
            ),
            UICommand::ExpandSelectionPanel => tr(
                lang,
                "Expand the right panel",
                "展开右侧面板",
            ),
            UICommand::Settings => tr(
                lang,
                "Show the settings screen",
                "打开设置页面",
            ),
            UICommand::ToggleEguiDebugPanel => tr(
                lang,
                "View and change global egui style settings",
                "查看和修改 egui 全局样式设置",
            ),
            UICommand::ToggleFullscreen => match platform {
                Platform::Web => tr(
                    lang,
                    "Toggle between full viewport dimensions and initial dimensions",
                    "在占满整个页面和初始大小之间切换",
                ),
                Platform::Native => tr(
                    lang,
                    "Toggle between windowed and fullscreen viewer",
                    "在窗口模式和全屏模式之间切换",
                ),
            },
            UICommand::ZoomIn => tr(
                lang,
                "Increases the UI zoom level",
                "放大界面显示",
            ),
            UICommand::ZoomOut => tr(
                lang,
                "Decreases the UI zoom level",
                "缩小界面显示",
            ),
            UICommand::ZoomReset => tr(
                lang,
                "Resets the UI zoom level to the operating system's default value",
                "把界面缩放恢复到操作系统的默认值",
            ),
            UICommand::ToggleCommandPalette => tr(
                lang,
                "Toggle the Command Palette",
                "打开或关闭命令面板",
            ),
            UICommand::ScreenshotWholeApp => tr(
                lang,
                "Copy screenshot of the whole app to clipboard",
                "把整个应用的截图复制到剪贴板",
            ),
            UICommand::ResetEguiMemory => tr(
                lang,
                "Reset egui memory, useful for debugging UI code.",
                "重置 egui 内存，用于调试界面代码。",
            ),
            UICommand::Share => tr(
                lang,
                "Share the current screen as a link",
                "把当前画面以链接形式分享",
            ),
            UICommand::CopyDirectLink => tr(
                lang,
                "Try to copy a shareable link to the current screen. This is not supported for all data sources & viewer states.",
                "尝试复制当前画面的分享链接。并非所有数据源和 Viewer 状态都支持。",
            ),
            UICommand::CopyTimeSelectionLink => tr(
                lang,
                "Copy a link to the part of the active recording within the loop selection bounds.",
                "复制当前 episode 中循环选区对应时间段的链接。",
            ),
            UICommand::CopyEntityHierarchy => tr(
                lang,
                "Copy the complete entity hierarchy tree of the currently active recording to the clipboard.",
                "把当前 episode 的完整实体层级树复制到剪贴板。",
            ),
            UICommand::RestartWithWebGl => tr(
                lang,
                "Reloads the webpage and force WebGL for rendering. All data will be lost.",
                "重新加载网页并强制使用 WebGL 渲染。所有数据会丢失。",
            ),
            UICommand::RestartWithWebGpu => tr(
                lang,
                "Reloads the webpage and force WebGPU for rendering. All data will be lost.",
                "重新加载网页并强制使用 WebGPU 渲染。所有数据会丢失。",
            ),
            UICommand::AddRedapServer => tr(
                lang,
                "Connect to a Redap server (experimental)",
                "连接 Redap 服务器（实验功能）",
            ),
        }
    }

    pub fn text_and_tooltip(self, platform: Platform, lang: Language) -> (r: (
        &'static str,
        &'static str,
    ))
        ensures
            r.0@ == self.text_in(lang),
            r.1@ == self.tooltip_in(platform, lang),
    {
        (self.text(lang), self.tooltip(platform, lang))
    }

    /// All keyboard shortcuts, with the primary first.
    pub open spec fn shortcuts(self, platform: Platform, os: OperatingSystem) -> Seq<
        KeyboardShortcut,
    > {
        match self {
            UICommand::Quit => if os == OperatingSystem::Windows {
                seq![shortcut::with_alt(Key::F4)]
            } else {
                seq![shortcut::with_cmd(Key::Q)]
            },
            UICommand::ToggleFullscreen => match platform {
                Platform::Web => seq![],
                Platform::Native => seq![shortcut::plain(Key::F11)],
            },
            UICommand::Open => seq![shortcut::with_cmd(Key::O)],
            UICommand::OpenUrl => seq![shortcut::with_cmd_shift(Key::L)],
            UICommand::Import => seq![shortcut::with_cmd_shift(Key::O)],
            UICommand::NextRecording => seq![shortcut::with_cmd_alt(Key::ArrowDown)],
            UICommand::PreviousRecording => seq![shortcut::with_cmd_alt(Key::ArrowUp)],
            UICommand::NavigateBack => seq![shortcut::with_cmd(Key::OpenBracket)],
            UICommand::NavigateForward => seq![shortcut::with_cmd(Key::CloseBracket)],
            UICommand::ResetViewer => seq![shortcut::with_ctrl_shift(Key::R)],
            UICommand::OpenProfiler => seq![shortcut::with_ctrl_shift(Key::P)],
            UICommand::ToggleDevPanel => seq![shortcut::with_ctrl_shift(Key::M)],
            UICommand::ToggleBlueprintPanel => seq![shortcut::with_ctrl_shift(Key::B)],
            UICommand::ToggleSelectionPanel => seq![shortcut::with_ctrl_shift(Key::S)],
            UICommand::Settings => seq![shortcut::with_cmd(Key::Comma)],
            UICommand::ToggleEguiDebugPanel => seq![shortcut::with_ctrl_shift(Key::U)],
            UICommand::ZoomIn => seq![shortcut::with_cmd(Key::Plus)],
            UICommand::ZoomOut => seq![shortcut::with_cmd(Key::Minus)],
            UICommand::ZoomReset => seq![shortcut::with_cmd(Key::Num0)],
            UICommand::ToggleCommandPalette => seq![shortcut::with_cmd(Key::K), shortcut::with_cmd(Key::P)],
            UICommand::Share => seq![shortcut::with_cmd(Key::L)],
            UICommand::CopyEntityHierarchy => seq![shortcut::with_ctrl_shift(Key::E)],
            UICommand::OpenTosDataset
            | UICommand::OpenHfDataset
            | UICommand::CloseAllEntries
            | UICommand::OpenWebsite
            | UICommand::OpenWebHelp
            | UICommand::OpenRerunDiscord
            | UICommand::CaptureProfileTrace
            | UICommand::TogglePanelStateOverrides
            | UICommand::ToggleTopPanel
            | UICommand::ExpandBlueprintPanel
            | UICommand::ExpandSelectionPanel
            | UICommand::ScreenshotWholeApp
            | UICommand::ResetEguiMemory
            | UICommand::CopyDirectLink
            | UICommand::CopyTimeSelectionLink
            | UICommand::RestartWithWebGl
            | UICommand::RestartWithWebGpu
            | UICommand::AddRedapServer => seq![],
        }
    }

    /// All keyboard shortcuts, with the primary first.
    pub fn kb_shortcuts(self, platform: Platform, os: OperatingSystem) -> (r: ShortcutList)
        ensures
            r@ == self.shortcuts(platform, os),
    {
        match self {
            UICommand::Quit => if os == OperatingSystem::Windows {
                ShortcutList::one(shortcut::alt(Key::F4))
            } else {
                ShortcutList::one(shortcut::cmd(Key::Q))
            },
            UICommand::ToggleFullscreen => match platform {
                Platform::Web => ShortcutList::none(),
                Platform::Native => ShortcutList::one(shortcut::key(Key::F11)),
            },
            UICommand::Open => ShortcutList::one(shortcut::cmd(Key::O)),
            UICommand::OpenUrl => ShortcutList::one(shortcut::cmd_shift(Key::L)),
            UICommand::Import => ShortcutList::one(shortcut::cmd_shift(Key::O)),
            UICommand::NextRecording => ShortcutList::one(shortcut::cmd_alt(Key::ArrowDown)),
            UICommand::PreviousRecording => ShortcutList::one(shortcut::cmd_alt(Key::ArrowUp)),
            UICommand::NavigateBack => ShortcutList::one(shortcut::cmd(Key::OpenBracket)),
            UICommand::NavigateForward => ShortcutList::one(shortcut::cmd(Key::CloseBracket)),
            UICommand::ResetViewer => ShortcutList::one(shortcut::ctrl_shift(Key::R)),
            UICommand::OpenProfiler => ShortcutList::one(shortcut::ctrl_shift(Key::P)),
            UICommand::ToggleDevPanel => ShortcutList::one(shortcut::ctrl_shift(Key::M)),
            UICommand::ToggleBlueprintPanel => ShortcutList::one(shortcut::ctrl_shift(Key::B)),
            UICommand::ToggleSelectionPanel => ShortcutList::one(shortcut::ctrl_shift(Key::S)),
            UICommand::Settings => ShortcutList::one(shortcut::cmd(Key::Comma)),
            UICommand::ToggleEguiDebugPanel => ShortcutList::one(shortcut::ctrl_shift(Key::U)),
            UICommand::ZoomIn => ShortcutList::one(shortcut::cmd(Key::Plus)),
            UICommand::ZoomOut => ShortcutList::one(shortcut::cmd(Key::Minus)),
            UICommand::ZoomReset => ShortcutList::one(shortcut::cmd(Key::Num0)),
            UICommand::ToggleCommandPalette => ShortcutList::two(shortcut::cmd(Key::K), shortcut::cmd(Key::P)),
            UICommand::Share => ShortcutList::one(shortcut::cmd(Key::L)),
            UICommand::CopyEntityHierarchy => ShortcutList::one(shortcut::ctrl_shift(Key::E)),
            UICommand::OpenTosDataset
            | UICommand::OpenHfDataset
            | UICommand::CloseAllEntries
            | UICommand::OpenWebsite
            | UICommand::OpenWebHelp
            | UICommand::OpenRerunDiscord
            | UICommand::CaptureProfileTrace
            | UICommand::TogglePanelStateOverrides
            | UICommand::ToggleTopPanel
            | UICommand::ExpandBlueprintPanel
            | UICommand::ExpandSelectionPanel
            | UICommand::ScreenshotWholeApp
            | UICommand::ResetEguiMemory
            | UICommand::CopyDirectLink
            | UICommand::CopyTimeSelectionLink
            | UICommand::RestartWithWebGl
            | UICommand::RestartWithWebGpu
            | UICommand::AddRedapServer => ShortcutList::none(),
        }
    }

    /// Primary keyboard shortcut
    pub fn primary_kb_shortcut(self, platform: Platform, os: OperatingSystem) -> (r: Option<
        KeyboardShortcut,
    >)
        ensures
            r == shortcut::primary(self.shortcuts(platform, os)),
    {
        self.kb_shortcuts(platform, os).first()
    }

    /// The primary shortcut in words or symbols.
    pub open spec fn shortcut_text(
        self,
        platform: Platform,
        os: OperatingSystem,
        can_show_symbols: bool,
    ) -> Option<Seq<char>> {
        match shortcut::primary(self.shortcuts(platform, os)) {
            Some(s) => shortcut::formatted(s, os, can_show_symbols),
            None => None,
        }
    }

    /// Return the keyboard shortcut for this command, nicely formatted.
    ///
    /// Only the primary shortcut is shown to the user. The others are there for people who
    /// have muscle memory for them.
    pub fn formatted_kb_shortcut(
        self,
        platform: Platform,
        os: OperatingSystem,
        can_show_symbols: bool,
    ) -> (r: Option<String>)
        ensures
            text::opt_view(r) == self.shortcut_text(platform, os, can_show_symbols),
            r is Some <==> self.shortcuts(platform, os).len() > 0,
    {
        match self.primary_kb_shortcut(platform, os) {
            Some(s) => shortcut::format_shortcut(s, os, can_show_symbols),
            None => None,
        }
    }

    pub open spec fn shown_icon(self) -> Option<Icon> {
        match self {
            UICommand::OpenWebsite | UICommand::OpenWebHelp => Some(Icon::ExternalLink),
            UICommand::OpenRerunDiscord => Some(Icon::Discord),
            _ => None,
        }
    }

    pub fn icon(self) -> (r: Option<Icon>)
        ensures
            r == self.shown_icon(),
    {
        match self {
            UICommand::OpenWebsite | UICommand::OpenWebHelp => Some(Icon::ExternalLink),
            UICommand::OpenRerunDiscord => Some(Icon::Discord),
            _ => None,
        }
    }

    /// Does the command open a web page?
    pub fn is_link(self) -> (r: bool)
        ensures
            r == (self == UICommand::OpenWebHelp || self == UICommand::OpenRerunDiscord),
    {
        self == UICommand::OpenWebHelp || self == UICommand::OpenRerunDiscord
    }

    /// Does this command only exist in debug builds?
    ///
    /// Such commands are marked with an orange "debug only" badge in the UI.
    pub fn is_debug_only(self) -> (r: bool)
        ensures
            r == (self == UICommand::ToggleEguiDebugPanel || self == UICommand::ResetEguiMemory),
    {
        self == UICommand::ToggleEguiDebugPanel || self == UICommand::ResetEguiMemory
    }

    /// What to listen for: each shortcut of each command of the build, with its command.
    pub fn shortcut_table(build: Build, os: OperatingSystem) -> (r: Vec<
        (KeyboardShortcut, UICommand),
    >)
        ensures
            r@ == shortcut_table_of(commands(build), build.platform, os),
    {
        let list: Vec<UICommand> = UICommand::all(build);
        let n: usize = list.len();
        let mut out: Vec<(KeyboardShortcut, UICommand)> = Vec::new();
        let mut i: usize = 0;
        while i < n
            invariant
                i <= n,
                n == list@.len(),
                out@ == shortcut_table_of(list@.take(i as int), build.platform, os),
            decreases n - i,
        {
            let c: UICommand = list[i];
            let keys: Vec<KeyboardShortcut> = c.kb_shortcuts(build.platform, os).into_vec();
            let m: usize = keys.len();
            let ghost before = out@;
            let ghost pair = |s: KeyboardShortcut| (s, c);
            let mut j: usize = 0;
            while j < m
                invariant
                    j <= m,
                    m == keys@.len(),
                    pair == (|s: KeyboardShortcut| (s, c)),
                    out@ == before + keys@.take(j as int).map_values(pair),
                decreases m - j,
            {
                out.push((keys[j], c));
                j += 1;
                assert(out@ =~= before + keys@.take(j as int).map_values(pair));
            }
            i += 1;
            proof {
                assert(keys@.take(m as int) =~= keys@);
                assert(list@.take(i as int).drop_last() =~= list@.take(i - 1));
            }
        }
        assert(list@.take(n as int) =~= list@);
        out
    }

    /// The menu button of this command, as it is to be drawn.
    pub fn menu_button(
        self,
        build: Build,
        lang: Language,
        os: OperatingSystem,
        can_show_symbols: bool,
    ) -> (r: MenuButton)
        ensures
            r.text@ == self.text_in(lang),
            r.icon == self.shown_icon(),
            r.debug_badge == (build.debug && self.shown_icon() is None && (self
                == UICommand::ToggleEguiDebugPanel || self == UICommand::ResetEguiMemory)),
            text::opt_view(r.shortcut_text) == self.shortcut_text(
                build.platform,
                os,
                can_show_symbols,
            ),
            r.tooltip@ == self.tooltip_in(build.platform, lang),
            r.pointing_hand == (self == UICommand::OpenWebHelp || self
                == UICommand::OpenRerunDiscord),
    {
        MenuButton {
            text: self.text(lang),
            icon: self.icon(),
            debug_badge: build.debug && self.icon().is_none() && self.is_debug_only(),
            shortcut_text: self.formatted_kb_shortcut(build.platform, os, can_show_symbols),
            tooltip: self.tooltip(build.platform, lang),
            pointing_hand: self.is_link(),
        }
    }

    /// What a click on the menu button sends: this command.
    pub fn on_menu_button(self, clicked: bool) -> (r: Option<UICommand>)
        ensures
            r == (if clicked {
                Some(self)
            } else {
                None
            }),
    {
        if clicked {
            Some(self)
        } else {
            None
        }
    }

    /// Name of command and how to activate it
    pub fn tooltip_content(self, platform: Platform, lang: Language, os: OperatingSystem) -> (r:
        CommandTooltip)
        ensures
            r.label@ == self.text_in(lang),
            r.shortcut == shortcut::primary(self.shortcuts(platform, os)),
            r.details@ == self.tooltip_in(platform, lang),
    {
        CommandTooltip {
            label: self.text(lang),
            shortcut: self.primary_kb_shortcut(platform, os),
            details: self.tooltip(platform, lang),
        }
    }
}

// ---------------------------------------------------------------------------------------
// Laws

proof fn lemma_every_command_is_listed(c: UICommand)
    ensures
        every_command().contains(c),
{
    let all = every_command();
    match c {
        UICommand::Open => assert(all[0] == c),
        UICommand::OpenUrl => assert(all[1] == c),
        UICommand::OpenTosDataset => assert(all[2] == c),
        UICommand::OpenHfDataset => assert(all[3] == c),
        UICommand::Import => assert(all[4] == c),
        UICommand::CloseAllEntries => assert(all[5] == c),
        UICommand::NextRecording => assert(all[6] == c),
        UICommand::PreviousRecording => assert(all[7] == c),
        UICommand::NavigateBack => assert(all[8] == c),
        UICommand::NavigateForward => assert(all[9] == c),
        UICommand::Quit => assert(all[10] == c),
        UICommand::OpenWebsite => assert(all[11] == c),
        UICommand::OpenWebHelp => assert(all[12] == c),
        UICommand::OpenRerunDiscord => assert(all[13] == c),
        UICommand::ResetViewer => assert(all[14] == c),
        UICommand::OpenProfiler => assert(all[15] == c),
        UICommand::CaptureProfileTrace => assert(all[16] == c),
        UICommand::TogglePanelStateOverrides => assert(all[17] == c),
        UICommand::ToggleDevPanel => assert(all[18] == c),
        UICommand::ToggleTopPanel => assert(all[19] == c),
        UICommand::ToggleBlueprintPanel => assert(all[20] == c),
        UICommand::ExpandBlueprintPanel => assert(all[21] == c),
        UICommand::ToggleSelectionPanel => assert(all[22] == c),
        UICommand::ExpandSelectionPanel => assert(all[23] == c),
        UICommand::Settings => assert(all[24] == c),
        UICommand::ToggleEguiDebugPanel => assert(all[25] == c),
        UICommand::ToggleFullscreen => assert(all[26] == c),
        UICommand::ZoomIn => assert(all[27] == c),
        UICommand::ZoomOut => assert(all[28] == c),
        UICommand::ZoomReset => assert(all[29] == c),
        UICommand::ToggleCommandPalette => assert(all[30] == c),
        UICommand::ScreenshotWholeApp => assert(all[31] == c),
        UICommand::ResetEguiMemory => assert(all[32] == c),
        UICommand::Share => assert(all[33] == c),
        UICommand::CopyDirectLink => assert(all[34] == c),
        UICommand::CopyTimeSelectionLink => assert(all[35] == c),
        UICommand::CopyEntityHierarchy => assert(all[36] == c),
        UICommand::RestartWithWebGl => assert(all[37] == c),
        UICommand::RestartWithWebGpu => assert(all[38] == c),
        UICommand::AddRedapServer => assert(all[39] == c),
    }
}

/// A build lists each of its commands once, and no other.
pub proof fn law_commands_are_listed_once(build: Build)
    ensures
        commands(build).no_duplicates(),
        forall|c: UICommand| #[trigger] commands(build).contains(c) <==> c.exists_in(build),
{
    let here = |c: UICommand| c.exists_in(build);
    let all = every_command();
    assert(all.no_duplicates());
    lists::lemma_filter(all, here);
    assert forall|c: UICommand| all.contains(c) by {
        lemma_every_command_is_listed(c);
    }
}

/// In one build, no press of keys is the shortcut of two commands, nor twice of one.
pub proof fn law_shortcuts_are_distinct(
    build: Build,
    os: OperatingSystem,
    a: UICommand,
    i: int,
    b: UICommand,
    j: int,
)
    requires
        a.exists_in(build),
        b.exists_in(build),
        0 <= i < a.shortcuts(build.platform, os).len(),
        0 <= j < b.shortcuts(build.platform, os).len(),
        shortcut::same_press(
            a.shortcuts(build.platform, os)[i],
            b.shortcuts(build.platform, os)[j],
            os,
        ),
    ensures
        a == b && i == j,
{
}

/// What the names of the commands are told apart by.
spec fn label_marks(c: UICommand, lang: Language) -> (nat, char, char, char) {
    match lang {
        Language::English => match c {
            UICommand::Open => (10, 'O', 'n', 'f'),
            UICommand::OpenUrl => (14, 'O', ' ', 'o'),
            UICommand::OpenTosDataset => (25, 'O', 'm', 'l'),
            UICommand::OpenHfDataset => (23, 'O', 'o', 'u'),
            UICommand::Import => (30, 'I', 'o', 'r'),
            UICommand::CloseAllEntries => (20, 'C', 'a', 'r'),
            UICommand::NextRecording => (14, 'N', ' ', 'c'),
            UICommand::PreviousRecording => (18, 'P', 'u', 'r'),
            UICommand::NavigateBack => (15, 'B', 'i', ' '),
            UICommand::NavigateForward => (18, 'F', 'd', 'n'),
            UICommand::Quit => (4, 'Q', 'u', 'i'),
            UICommand::OpenWebsite => (8, 'r', 'r', 'n'),
            UICommand::OpenWebHelp => (4, 'D', 'o', 'c'),
            UICommand::OpenRerunDiscord => (13, 'R', 'n', 'D'),
            UICommand::ResetViewer => (12, 'R', 't', 'V'),
            UICommand::OpenProfiler => (13, 'O', ' ', 'r'),
            UICommand::CaptureProfileTrace => (22, 'C', ' ', 'f'),
            UICommand::TogglePanelStateOverrides => (28, 'T', 'n', 't'),
            UICommand::ToggleDevPanel => (16, 'T', 'e', 'e'),
            UICommand::ToggleTopPanel => (16, 'T', 'e', 'o'),
            UICommand::ToggleBlueprintPanel => (22, 'T', 'b', 'p'),
            UICommand::ExpandBlueprintPanel => (22, 'E', 'b', 'p'),
            UICommand::ToggleSelectionPanel => (22, 'T', 's', 'c'),
            UICommand::ExpandSelectionPanel => (22, 'E', 's', 'c'),
            UICommand::Settings => (9, 'S', 't', 'i'),
            UICommand::ToggleEguiDebugPanel => (23, 'T', 'e', ' '),
            UICommand::ToggleFullscreen => (17, 'T', 'e', 'u'),
            UICommand::ZoomIn => (7, 'Z', 'o', 'm'),
            UICommand::ZoomOut => (8, 'Z', 'o', ' '),
            UICommand::ZoomReset => (10, 'R', 'e', ' '),
            UICommand::ToggleCommandPalette => (16, 'C', 'n', 'p'),
            UICommand::ScreenshotWholeApp => (10, 'S', 'e', 'n'),
            UICommand::ResetEguiMemory => (17, 'R', ' ', 'u'),
            UICommand::Share => (6, 'S', 'a', 'r'),
            UICommand::CopyDirectLink => (16, 'C', 'd', 'e'),
            UICommand::CopyTimeSelectionLink => (32, 'C', 't', 'e'),
            UICommand::CopyEntityHierarchy => (21, 'C', 't', 'y'),
            UICommand::RestartWithWebGl => (18, 'R', 't', 'i'),
            UICommand::RestartWithWebGpu => (19, 'R', 't', 'i'),
            UICommand::AddRedapServer => (20, 'C', 't', ' '),
        },
        Language::Chinese => match c {
            UICommand::Open => (5, '打', '开', '文'),
            UICommand::OpenUrl => (9, '从', 'R', 'L'),
            UICommand::OpenTosDataset => (13, '从', '擎', 'T'),
            UICommand::OpenHfDataset => (18, '从', 'i', ' '),
            UICommand::Import => (14, '导', '前', 'p'),
            UICommand::CloseAllEntries => (12, '关', ' ', 'p'),
            UICommand::NextRecording => (11, '下', ' ', 'p'),
            UICommand::PreviousRecording => (11, '上', ' ', 'p'),
            UICommand::NavigateBack => (2, '后', '后', '退'),
            UICommand::NavigateForward => (2, '前', '前', '进'),
            UICommand::Quit => (2, '退', '退', '出'),
            UICommand::OpenWebsite => (8, 'r', 'r', 'n'),
            UICommand::OpenWebHelp => (2, '文', '文', '档'),
            UICommand::OpenRerunDiscord => (13, 'R', 'n', 'D'),
            UICommand::ResetViewer => (9, '重', 'V', 'i'),
            UICommand::OpenProfiler => (7, '打', '性', '能'),
            UICommand::CaptureProfileTrace => (7, '抓', '性', '能'),
            UICommand::TogglePanelStateOverrides => (8, '切', '面', '状'),
            UICommand::ToggleDevPanel => (10, '显', '隐', '开'),
            UICommand::ToggleTopPanel => (9, '显', '隐', '藏'),
            UICommand::ToggleBlueprintPanel => (18, '显', 'B', 'e'),
            UICommand::ExpandBlueprintPanel => (15, '展', 'u', 'p'),
            UICommand::ToggleSelectionPanel => (18, '显', 'S', 'e'),
            UICommand::ExpandSelectionPanel => (15, '展', 'l', 'c'),
            UICommand::Settings => (3, '设', '置', '置'),
            UICommand::ToggleEguiDebugPanel => (15, '显', ' ', 'g'),
            UICommand::ToggleFullscreen => (4, '切', '换', '全'),
            UICommand::ZoomIn => (2, '放', '放', '大'),
            UICommand::ZoomOut => (2, '缩', '缩', '小'),
            UICommand::ZoomReset => (4, '重', '置', '缩'),
            UICommand::ToggleCommandPalette => (5, '命', '令', '面'),
            UICommand::ScreenshotWholeApp => (2, '截', '截', '图'),
            UICommand::ResetEguiMemory => (10, '重', 'e', 'u'),
            UICommand::Share => (3, '分', '享', '享'),
            UICommand::CopyDirectLink => (6, '复', '直', '达'),
            UICommand::CopyTimeSelectionLink => (10, '复', '中', '间'),
            UICommand::CopyEntityHierarchy => (6, '复', '实', '体'),
            UICommand::RestartWithWebGl => (10, '用', 'e', 'G'),
            UICommand::RestartWithWebGpu => (11, '用', 'e', 'G'),
            UICommand::AddRedapServer => (6, '连', '服', '务'),
        },
    }
}

proof fn lemma_label_marks(c: UICommand, lang: Language)
    ensures
        text::marks(c.text_in(lang)) == label_marks(c, lang),
{
    match c {
        UICommand::Open => {
            reveal_strlit("Open file…");
            reveal_strlit("打开文件…");
        },
        UICommand::OpenUrl => {
            reveal_strlit("Open from URL…");
            reveal_strlit("从 URL 打开…");
        },
        UICommand::OpenTosDataset => {
            reveal_strlit("Open from Volcengine TOS…");
            reveal_strlit("从火山引擎 TOS 打开…");
        },
        UICommand::OpenHfDataset => {
            reveal_strlit("Open from Hugging Face…");
            reveal_strlit("从 Hugging Face 打开…");
        },
        UICommand::Import => {
            reveal_strlit("Import into current recording…");
            reveal_strlit("导入到当前 episode…");
        },
        UICommand::CloseAllEntries => {
            reveal_strlit("Close all recordings");
            reveal_strlit("关闭所有 episode");
        },
        UICommand::NextRecording => {
            reveal_strlit("Next recording");
            reveal_strlit("下一个 episode");
        },
        UICommand::PreviousRecording => {
            reveal_strlit("Previous recording");
            reveal_strlit("上一个 episode");
        },
        UICommand::NavigateBack => {
            reveal_strlit("Back in history");
            reveal_strlit("后退");
        },
        UICommand::NavigateForward => {
            reveal_strlit("Forward in history");
            reveal_strlit("前进");
        },
        UICommand::Quit => {
            reveal_strlit("Quit");
            reveal_strlit("退出");
        },
        UICommand::OpenWebsite => {
            reveal_strlit("rerun.io");
        },
        UICommand::OpenWebHelp => {
            reveal_strlit("Docs");
            reveal_strlit("文档");
        },
        UICommand::OpenRerunDiscord => {
            reveal_strlit("Rerun Discord");
        },
        UICommand::ResetViewer => {
            reveal_strlit("Reset Viewer");
            reveal_strlit("重置 Viewer");
        },
        UICommand::OpenProfiler => {
            reveal_strlit("Open profiler");
            reveal_strlit("打开性能分析器");
        },
        UICommand::CaptureProfileTrace => {
            reveal_strlit("Capture profile trace…");
            reveal_strlit("抓取性能数据…");
        },
        UICommand::TogglePanelStateOverrides => {
            reveal_strlit("Toggle panel state overrides");
            reveal_strlit("切换面板状态覆盖");
        },
        UICommand::ToggleDevPanel => {
            reveal_strlit("Toggle dev panel");
            reveal_strlit("显示/隐藏开发者面板");
        },
        UICommand::ToggleTopPanel => {
            reveal_strlit("Toggle top panel");
            reveal_strlit("显示/隐藏顶部面板");
        },
        UICommand::ToggleBlueprintPanel => {
            reveal_strlit("Toggle blueprint panel");
            reveal_strlit("显示/隐藏 Blueprint 面板");
        },
        UICommand::ExpandBlueprintPanel => {
            reveal_strlit("Expand blueprint panel");
            reveal_strlit("展开 Blueprint 面板");
        },
        UICommand::ToggleSelectionPanel => {
            reveal_strlit("Toggle selection panel");
            reveal_strlit("显示/隐藏 Selection 面板");
        },
        UICommand::ExpandSelectionPanel => {
            reveal_strlit("Expand selection panel");
            reveal_strlit("展开 Selection 面板");
        },
        UICommand::Settings => {
            reveal_strlit("Settings…");
            reveal_strlit("设置…");
        },
        UICommand::ToggleEguiDebugPanel => {
            reveal_strlit("Toggle egui debug panel");
            reveal_strlit("显示/隐藏 egui 调试面板");
        },
        UICommand::ToggleFullscreen => {
            reveal_strlit("Toggle fullscreen");
            reveal_strlit("切换全屏");
        },
        UICommand::ZoomIn => {
            reveal_strlit("Zoom in");
            reveal_strlit("放大");
        },
        UICommand::ZoomOut => {
            reveal_strlit("Zoom out");
            reveal_strlit("缩小");
        },
        UICommand::ZoomReset => {
            reveal_strlit("Reset zoom");
            reveal_strlit("重置缩放");
        },
        UICommand::ToggleCommandPalette => {
            reveal_strlit("Command palette…");
            reveal_strlit("命令面板…");
        },
        UICommand::ScreenshotWholeApp => {
            reveal_strlit("Screenshot");
            reveal_strlit("截图");
        },
        UICommand::ResetEguiMemory => {
            reveal_strlit("Reset egui memory");
            reveal_strlit("重置 egui 内存");
        },
        UICommand::Share => {
            reveal_strlit("Share…");
            reveal_strlit("分享…");
        },
        UICommand::CopyDirectLink => {
            reveal_strlit("Copy direct link");
            reveal_strlit("复制直达链接");
        },
        UICommand::CopyTimeSelectionLink => {
            reveal_strlit("Copy link to selected time range");
            reveal_strlit("复制选中时间段的链接");
        },
        UICommand::CopyEntityHierarchy => {
            reveal_strlit("Copy entity hierarchy");
            reveal_strlit("复制实体层级");
        },
        UICommand::RestartWithWebGl => {
            reveal_strlit("Restart with WebGL");
            reveal_strlit("用 WebGL 重启");
        },
        UICommand::RestartWithWebGpu => {
            reveal_strlit("Restart with WebGPU");
            reveal_strlit("用 WebGPU 重启");
        },
        UICommand::AddRedapServer => {
            reveal_strlit("Connect to a server…");
            reveal_strlit("连接服务器…");
        },
    }
}

/// No two commands have the same name.
pub proof fn law_labels_are_distinct(a: UICommand, b: UICommand, lang: Language)
    requires
        a.text_in(lang) == b.text_in(lang),
    ensures
        a == b,
{
    lemma_label_marks(a, lang);
    lemma_label_marks(b, lang);
}

/// The table of shortcuts lists the shortcuts of each command, in the order of the commands and
/// of their shortcuts.
pub proof fn law_table_lists_all_shortcuts(
    a: Seq<UICommand>,
    b: Seq<UICommand>,
    c: UICommand,
    platform: Platform,
    os: OperatingSystem,
    i: int,
)
    ensures
        shortcut_table_of(a + b, platform, os) == shortcut_table_of(a, platform, os)
            + shortcut_table_of(b, platform, os),
        shortcut_table_of(seq![c], platform, os).len() == c.shortcuts(platform, os).len(),
        0 <= i < c.shortcuts(platform, os).len() ==> shortcut_table_of(seq![c], platform, os)[i]
            == (c.shortcuts(platform, os)[i], c),
    decreases b.len(),
{
    if b.len() > 0 {
        law_table_lists_all_shortcuts(a, b.drop_last(), c, platform, os, i);
        assert((a + b).drop_last() =~= a + b.drop_last());
        assert((a + b).last() == b.last());
        assert(shortcut_table_of(a + b, platform, os) =~= shortcut_table_of(a, platform, os)
            + shortcut_table_of(b, platform, os));
    } else {
        assert(a + b =~= a);
        assert(shortcut_table_of(a, platform, os) + shortcut_table_of(b, platform, os)
            =~= shortcut_table_of(a, platform, os));
    }
    let one = seq![c];
    assert(one.drop_last() =~= Seq::empty());
    assert(one.last() == c);
    assert(shortcut_table_of(one.drop_last(), platform, os) =~= Seq::empty());
}

/// A browser has its own zoom and cannot be quit or profiled; only there the renderer can be
/// chosen anew; and only builds for developers look into the toolkit. Everything else is there
/// in all viewers.
pub proof fn law_where_commands_exist(c: UICommand, build: Build)
    ensures
        c is ZoomIn || c is ZoomOut || c is ZoomReset || c is Quit || c is OpenProfiler
            || c is CaptureProfileTrace || c is ScreenshotWholeApp ==> c.exists_in(build) == (
        build.platform == Platform::Native),
        c is RestartWithWebGl || c is RestartWithWebGpu ==> c.exists_in(build) == (build.platform
            == Platform::Web),
        c is ToggleEguiDebugPanel || c is ResetEguiMemory ==> c.exists_in(build) == build.debug,
        !c.exists_in(build) ==> c is ZoomIn || c is ZoomOut || c is ZoomReset || c is Quit
            || c is OpenProfiler || c is CaptureProfileTrace || c is ScreenshotWholeApp
            || c is RestartWithWebGl || c is RestartWithWebGpu || c is ToggleEguiDebugPanel
            || c is ResetEguiMemory,
{
}

/// Opposite commands have opposite keys, and the same modifiers; the way to quit is that of the
/// system; and the browser keeps its own key for full screen.
pub proof fn law_opposite_commands_have_opposite_keys(platform: Platform, os: OperatingSystem)
    ensures
        UICommand::NextRecording.shortcuts(platform, os)[0].logical_key == Key::ArrowDown,
        UICommand::PreviousRecording.shortcuts(platform, os)[0].logical_key == Key::ArrowUp,
        UICommand::NextRecording.shortcuts(platform, os)[0].modifiers
            == UICommand::PreviousRecording.shortcuts(platform, os)[0].modifiers,
        UICommand::NavigateBack.shortcuts(platform, os)[0].logical_key == Key::OpenBracket,
        UICommand::NavigateForward.shortcuts(platform, os)[0].logical_key == Key::CloseBracket,
        UICommand::NavigateBack.shortcuts(platform, os)[0].modifiers
            == UICommand::NavigateForward.shortcuts(platform, os)[0].modifiers,
        UICommand::ZoomIn.shortcuts(platform, os)[0].logical_key == Key::Plus,
        UICommand::ZoomOut.shortcuts(platform, os)[0].logical_key == Key::Minus,
        UICommand::ZoomIn.shortcuts(platform, os)[0].modifiers == UICommand::ZoomOut.shortcuts(
            platform,
            os,
        )[0].modifiers,
        (UICommand::Quit.shortcuts(platform, os)[0].logical_key == Key::F4) == (os
            == OperatingSystem::Windows),
        (UICommand::ToggleFullscreen.shortcuts(platform, os).len() > 0) == (platform
            == Platform::Native),
{
}

} // verus!
