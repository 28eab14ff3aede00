//! The commands that act on one recording.
use vstd::arithmetic::div_mod::*;
use vstd::arithmetic::power::*;
use vstd::prelude::*;
use vstd::string::*;

use crate::command::shortcut;
use crate::command::shortcut::{Key, KeyboardShortcut, ShortcutList};
use crate::command::ui_command::UICommand;
use crate::command::{CommandEnvironment, CommandTooltip, MenuButton};
use crate::icons::Icon;
use crate::lists;
use crate::platform::{Build, OperatingSystem, Platform};
use crate::store_id::StoreId;
use crate::text;

verus! {

/// Interface for sending [`RecordingCommand`] messages.
pub trait RecordingCommandSender {
    fn send_recording_command(&self, command: RecordingCommand);
}

/// A playback speed, as a fraction of real time.
#[derive(Clone, Copy, Debug, PartialEq, Eq, Structural)]
pub struct SetPlaybackSpeed {
    pub numerator: u32,
    pub denominator: u32,
}

/// Real time.
pub open spec fn normal_speed() -> SetPlaybackSpeed {
    SetPlaybackSpeed { numerator: 1, denominator: 1 }
}

impl Default for SetPlaybackSpeed {
    fn default() -> (r: Self)
        ensures
            r == normal_speed(),
    {
        SetPlaybackSpeed { numerator: 1, denominator: 1 }
    }
}

/// A command that acts on a specific recording.
///
/// Unlike [`UICommand`], these carry the [`StoreId`] of the recording they act on, so they
/// can be used both from the command palette (acting on the active recording) and from menus
/// and buttons (acting on a specific recording).
#[derive(Debug)]
pub struct RecordingCommand {
    /// The recording this command acts on.
    pub recording_id: StoreId,
    /// What to do with the recording.
    pub kind: RecordingCommandKind,
}

/// What a [`RecordingCommand`] does to its recording.
///
/// Listed in the order in which they show up in the command palette.
#[derive(Clone, Copy, Debug, PartialEq, Eq, Structural)]
pub enum RecordingCommandKind {
    /// Save the recording, or all selected recordings.
    Save,
    /// Save the current time selection of the recording.
    SaveTimeSelection,
    /// Save the active blueprint of the recording.
    SaveBlueprint,
    /// Close the recording.
    Close,
    /// Undo the latest blueprint edit.
    Undo,
    /// Redo the latest undone blueprint edit.
    Redo,
    /// Add a view or container to the viewport.
    AddViewOrContainer,
    /// Reset the active blueprint to the default one.
    ClearActiveBlueprint,
    /// Reset the active blueprint to a heuristic one.
    ClearActiveBlueprintAndEnableHeuristics,
    ToggleTimePanel,
    ToggleChunkStoreBrowser,
    ToggleBlueprintInspectionPanel,
    PlaybackTogglePlayPause,
    PlaybackStepBack,
    PlaybackStepForward,
    PlaybackBack,
    PlaybackForward,
    PlaybackBackFast,
    PlaybackForwardFast,
    PlaybackBeginning,
    PlaybackEndAndFollow,
    PlaybackSpeed(SetPlaybackSpeed),
    PrintChunkStore,
    PrintBlueprintStore,
    PrintPrimaryCache,
}

/// All kinds of command of all builds, in the order of the command palette.
pub open spec fn every_kind() -> Seq<RecordingCommandKind> {
    seq![
        RecordingCommandKind::Save,
        RecordingCommandKind::SaveTimeSelection,
        RecordingCommandKind::SaveBlueprint,
        RecordingCommandKind::Close,
        RecordingCommandKind::Undo,
        RecordingCommandKind::Redo,
        RecordingCommandKind::AddViewOrContainer,
        RecordingCommandKind::ClearActiveBlueprint,
        RecordingCommandKind::ClearActiveBlueprintAndEnableHeuristics,
        RecordingCommandKind::ToggleTimePanel,
        RecordingCommandKind::ToggleChunkStoreBrowser,
        RecordingCommandKind::ToggleBlueprintInspectionPanel,
        RecordingCommandKind::PlaybackTogglePlayPause,
        RecordingCommandKind::PlaybackStepBack,
        RecordingCommandKind::PlaybackStepForward,
        RecordingCommandKind::PlaybackBack,
        RecordingCommandKind::PlaybackForward,
        RecordingCommandKind::PlaybackBackFast,
        RecordingCommandKind::PlaybackForwardFast,
        RecordingCommandKind::PlaybackBeginning,
        RecordingCommandKind::PlaybackEndAndFollow,
        RecordingCommandKind::PlaybackSpeed(normal_speed()),
        RecordingCommandKind::PrintChunkStore,
        RecordingCommandKind::PrintBlueprintStore,
        RecordingCommandKind::PrintPrimaryCache,
    ]
}

/// The kinds of command of a build, in the order of the command palette.
pub open spec fn kinds(build: Build) -> Seq<RecordingCommandKind> {
    every_kind().filter(|k: RecordingCommandKind| k.exists_in(build))
}

impl RecordingCommand {
    /// All commands that act on the given recording.
    pub fn all_for_recording(recording_id: &StoreId, build: Build) -> (r: Vec<Self>)
        ensures
            r@.len() == kinds(build).len(),
            forall|i: int|
                0 <= i < r@.len() ==> (#[trigger] r@[i]).kind == kinds(build)[i]
                    && r@[i].recording_id == *recording_id,
    {
        let list: Vec<RecordingCommandKind> = RecordingCommandKind::all(build);
        let n: usize = list.len();
        let mut out: Vec<RecordingCommand> = Vec::new();
        let mut i: usize = 0;
        while i < n
            invariant
                i <= n,
                n == list@.len(),
                out@.len() == i,
                forall|j: int|
                    0 <= j < i ==> (#[trigger] out@[j]).kind == list@[j] && out@[j].recording_id
                        == *recording_id,
            decreases n - i,
        {
            out.push(RecordingCommand { recording_id: recording_id.clone(), kind: list[i] });
            i += 1;
        }
        out
    }

    /// What a click on the menu button of this command sends.
    pub fn on_menu_button(self, clicked: bool) -> (r: Option<RecordingCommand>)
        ensures
            r == (if clicked {
                Some(self)
            } else {
                None
            }),
    {
        self.kind.on_menu_button(Some(&self.recording_id), clicked)
    }
}

impl RecordingCommandKind {
    /// Whether a build has this command.
    pub open spec fn exists_in(self, build: Build) -> bool {
        match self {
            RecordingCommandKind::PrintChunkStore
            | RecordingCommandKind::PrintBlueprintStore
            | RecordingCommandKind::PrintPrimaryCache => build.platform == Platform::Native,
            RecordingCommandKind::ToggleBlueprintInspectionPanel => build.debug,
            _ => true,
        }
    }

    /// Whether a build has this command.
    pub fn is_in(self, build: Build) -> (r: bool)
        ensures
            r == self.exists_in(build),
    {
        match self {
            RecordingCommandKind::PrintChunkStore
            | RecordingCommandKind::PrintBlueprintStore
            | RecordingCommandKind::PrintPrimaryCache => build.platform == Platform::Native,
            RecordingCommandKind::ToggleBlueprintInspectionPanel => build.debug,
            _ => true,
        }
    }

    /// The kinds of command of a build, in the order of the command palette.
    ///
    /// The playback speed is listed once, as real time.
    pub fn all(build: Build) -> (r: Vec<RecordingCommandKind>)
        ensures
            r@ == kinds(build),
    {
        let every: Vec<RecordingCommandKind> = vec![
            RecordingCommandKind::Save,
            RecordingCommandKind::SaveTimeSelection,
            RecordingCommandKind::SaveBlueprint,
            RecordingCommandKind::Close,
            RecordingCommandKind::Undo,
            RecordingCommandKind::Redo,
            RecordingCommandKind::AddViewOrContainer,
            RecordingCommandKind::ClearActiveBlueprint,
            RecordingCommandKind::ClearActiveBlueprintAndEnableHeuristics,
            RecordingCommandKind::ToggleTimePanel,
            RecordingCommandKind::ToggleChunkStoreBrowser,
            RecordingCommandKind::ToggleBlueprintInspectionPanel,
            RecordingCommandKind::PlaybackTogglePlayPause,
            RecordingCommandKind::PlaybackStepBack,
            RecordingCommandKind::PlaybackStepForward,
            RecordingCommandKind::PlaybackBack,
            RecordingCommandKind::PlaybackForward,
            RecordingCommandKind::PlaybackBackFast,
            RecordingCommandKind::PlaybackForwardFast,
            RecordingCommandKind::PlaybackBeginning,
            RecordingCommandKind::PlaybackEndAndFollow,
            RecordingCommandKind::PlaybackSpeed(SetPlaybackSpeed::default()),
            RecordingCommandKind::PrintChunkStore,
            RecordingCommandKind::PrintBlueprintStore,
            RecordingCommandKind::PrintPrimaryCache,
        ];
        assert(every@ =~= every_kind());
        let ghost here = |k: RecordingCommandKind| k.exists_in(build);
        let mut out: Vec<RecordingCommandKind> = Vec::new();
        let n: usize = every.len();
        let mut i: usize = 0;
        assert(every@.take(0).filter(here) =~= Seq::empty()) by {
            reveal(Seq::filter);
        }
        while i < n
            invariant
                i <= n,
                n == every@.len(),
                here == (|k: RecordingCommandKind| k.exists_in(build)),
                out@ == every@.take(i as int).filter(here),
            decreases n - i,
        {
            proof {
                reveal(Seq::filter);
                assert(every@.take(i + 1).drop_last() =~= every@.take(i as int));
            }
            if every[i].is_in(build) {
                out.push(every[i]);
            }
            i += 1;
        }
        assert(every@.take(n as int) =~= every@);
        out
    }

    /// Is this a "timeline" command, i.e. playback bound to a space/arrow/home/end key
    /// (or the playback-speed chord)?
    ///
    /// These keys must be consumed early, before they move the keyboard focus or scroll.
    pub open spec fn moves_time(self) -> bool {
        match self {
            RecordingCommandKind::PlaybackTogglePlayPause
            | RecordingCommandKind::PlaybackStepBack
            | RecordingCommandKind::PlaybackStepForward
            | RecordingCommandKind::PlaybackBack
            | RecordingCommandKind::PlaybackForward
            | RecordingCommandKind::PlaybackBackFast
            | RecordingCommandKind::PlaybackForwardFast
            | RecordingCommandKind::PlaybackBeginning
            | RecordingCommandKind::PlaybackEndAndFollow
            | RecordingCommandKind::PlaybackSpeed(_) => true,
            _ => false,
        }
    }

    pub fn is_timeline(self) -> (r: bool)
        ensures
            r == self.moves_time(),
    {
        match self {
            RecordingCommandKind::PlaybackTogglePlayPause
            | RecordingCommandKind::PlaybackStepBack
            | RecordingCommandKind::PlaybackStepForward
            | RecordingCommandKind::PlaybackBack
            | RecordingCommandKind::PlaybackForward
            | RecordingCommandKind::PlaybackBackFast
            | RecordingCommandKind::PlaybackForwardFast
            | RecordingCommandKind::PlaybackBeginning
            | RecordingCommandKind::PlaybackEndAndFollow
            | RecordingCommandKind::PlaybackSpeed(_) => true,
            _ => false,
        }
    }

    /// Does this command only exist in debug builds?
    ///
    /// Such commands are marked with an orange "debug only" badge in the UI.
    pub fn is_debug_only(self) -> (r: bool)
        ensures
            r == (self == RecordingCommandKind::ToggleBlueprintInspectionPanel),
    {
        self == RecordingCommandKind::ToggleBlueprintInspectionPanel
    }

    /// Pair this command with the active recording (from `env`) to make it dispatchable.
    ///
    /// Returns `None` when there is no active recording.
    pub fn for_environment(self, env: &CommandEnvironment) -> (r: Option<RecordingCommand>)
        ensures
            r == (match env.recording {
                Some(recording_id) => Some(RecordingCommand { recording_id, kind: self }),
                None => None,
            }),
    {
        match &env.recording {
            Some(id) => Some(RecordingCommand { recording_id: id.clone(), kind: self }),
            None => None,
        }
    }

    /// The name of the command.
    pub open spec fn label(self) -> Seq<char> {
        match self {
            RecordingCommandKind::Save => "保存录制文件…"@,
            RecordingCommandKind::SaveTimeSelection => "保存当前选中时间段…"@,
            RecordingCommandKind::SaveBlueprint => "保存 blueprint…"@,
            RecordingCommandKind::Close => "关闭当前录制文件"@,
            RecordingCommandKind::Undo => "撤销"@,
            RecordingCommandKind::Redo => "重做"@,
            RecordingCommandKind::AddViewOrContainer => "添加视图或容器…"@,
            RecordingCommandKind::ClearActiveBlueprint => "重置为默认 blueprint"@,
            RecordingCommandKind::ClearActiveBlueprintAndEnableHeuristics => "重置为自动推断的 blueprint"@,
            RecordingCommandKind::ToggleTimePanel => "显示/隐藏时间面板"@,
            RecordingCommandKind::ToggleChunkStoreBrowser => "显示/隐藏 chunk 存储浏览器"@,
            RecordingCommandKind::ToggleBlueprintInspectionPanel => "显示/隐藏 blueprint 检查面板"@,
            RecordingCommandKind::PlaybackTogglePlayPause => "播放/暂停"@,
            RecordingCommandKind::PlaybackStepBack => "上一步"@,
            RecordingCommandKind::PlaybackStepForward => "下一步"@,
            RecordingCommandKind::PlaybackBack => "后退 1"@,
            RecordingCommandKind::PlaybackForward => "前进 1"@,
            RecordingCommandKind::PlaybackBackFast => "后退 10"@,
            RecordingCommandKind::PlaybackForwardFast => "前进 10"@,
            RecordingCommandKind::PlaybackBeginning => "回到时间轴开头"@,
            RecordingCommandKind::PlaybackEndAndFollow => "跳到时间轴末尾"@,
            RecordingCommandKind::PlaybackSpeed(_) => "设置播放速度"@,
            RecordingCommandKind::PrintChunkStore => "打印数据存储"@,
            RecordingCommandKind::PrintBlueprintStore => "打印 blueprint 存储"@,
            RecordingCommandKind::PrintPrimaryCache => "打印主缓存"@,
        }
    }

    /// What the command does.
    pub open spec fn explanation(self) -> Seq<char> {
        match self {
            RecordingCommandKind::Save => "把全部数据保存为 Rerun 数据文件（.rrd）"@,
            RecordingCommandKind::SaveTimeSelection => "把当前循环选区内的数据保存为 Rerun 数据文件（.rrd）"@,
            RecordingCommandKind::SaveBlueprint => "把当前的 Viewer 布局保存为 Rerun blueprint 文件（.rbl）"@,
            RecordingCommandKind::Close => "关闭当前录制文件（未保存的数据会丢失）"@,
            RecordingCommandKind::Undo => "撤销当前录制文件上最近一次 blueprint 修改"@,
            RecordingCommandKind::Redo => "重做刚撤销的操作"@,
            RecordingCommandKind::AddViewOrContainer => "在视口中添加一个新的视图或容器"@,
            RecordingCommandKind::ClearActiveBlueprint => "清除当前 blueprint，改用默认 blueprint。如果没有设置默认 blueprint，会改用自动推断的 blueprint。"@,
            RecordingCommandKind::ClearActiveBlueprintAndEnableHeuristics => "用默认可视化器自动选择视图，重新填充视口"@,
            RecordingCommandKind::ToggleTimePanel => "显示或隐藏底部面板"@,
            RecordingCommandKind::ToggleChunkStoreBrowser => "显示或隐藏 chunk 存储浏览器"@,
            RecordingCommandKind::ToggleBlueprintInspectionPanel => "查看内部 blueprint 数据的时间轴。"@,
            RecordingCommandKind::PlaybackTogglePlayPause => "播放或暂停时间"@,
            RecordingCommandKind::PlaybackStepBack => "把时间标记移到上一个有数据的时间点"@,
            RecordingCommandKind::PlaybackStepForward => "把时间标记移到下一个有数据的时间点"@,
            RecordingCommandKind::PlaybackBack => "把时间标记后退 1 秒"@,
            RecordingCommandKind::PlaybackForward => "把时间标记前进 0.1 秒"@,
            RecordingCommandKind::PlaybackBackFast => "把时间标记后退 1 秒"@,
            RecordingCommandKind::PlaybackForwardFast => "把时间标记前进 0.1 秒"@,
            RecordingCommandKind::PlaybackBeginning => "跳到时间轴的起点"@,
            RecordingCommandKind::PlaybackEndAndFollow => "跳到时间轴末尾，并跟随不断流入的最新数据"@,
            RecordingCommandKind::PlaybackSpeed(_) => "这是组合按键：比如依次按 5、0 就是 50 倍速"@,
            RecordingCommandKind::PrintChunkStore => "把整个 chunk 存储打印到控制台和剪贴板。注意：文本量可能非常大。"@,
            RecordingCommandKind::PrintBlueprintStore => "把整个 blueprint 存储打印到控制台和剪贴板。注意：文本量可能非常大。"@,
            RecordingCommandKind::PrintPrimaryCache => "把整个主缓存的状态打印到控制台和剪贴板。注意：文本量可能非常大。"@,
        }
    }

    pub fn text(self) -> (r: &'static str)
        ensures
            r@ == self.label(),
    {
        match self {
            RecordingCommandKind::Save => "保存录制文件…",
            RecordingCommandKind::SaveTimeSelection => "保存当前选中时间段…",
            RecordingCommandKind::SaveBlueprint => "保存 blueprint…",
            RecordingCommandKind::Close => "关闭当前录制文件",
            RecordingCommandKind::Undo => "撤销",
            RecordingCommandKind::Redo => "重做",
            RecordingCommandKind::AddViewOrContainer => "添加视图或容器…",
            RecordingCommandKind::ClearActiveBlueprint => "重置为默认 blueprint",
            RecordingCommandKind::ClearActiveBlueprintAndEnableHeuristics => "重置为自动推断的 blueprint",
            RecordingCommandKind::ToggleTimePanel => "显示/隐藏时间面板",
            RecordingCommandKind::ToggleChunkStoreBrowser => "显示/隐藏 chunk 存储浏览器",
            RecordingCommandKind::ToggleBlueprintInspectionPanel => "显示/隐藏 blueprint 检查面板",
            RecordingCommandKind::PlaybackTogglePlayPause => "播放/暂停",
            RecordingCommandKind::PlaybackStepBack => "上一步",
            RecordingCommandKind::PlaybackStepForward => "下一步",
            RecordingCommandKind::PlaybackBack => "后退 1",
            RecordingCommandKind::PlaybackForward => "前进 1",
            RecordingCommandKind::PlaybackBackFast => "后退 10",
            RecordingCommandKind::PlaybackForwardFast => "前进 10",
            RecordingCommandKind::PlaybackBeginning => "回到时间轴开头",
            RecordingCommandKind::PlaybackEndAndFollow => "跳到时间轴末尾",
            RecordingCommandKind::PlaybackSpeed(_) => "设置播放速度",
            RecordingCommandKind::PrintChunkStore => "打印数据存储",
            RecordingCommandKind::PrintBlueprintStore => "打印 blueprint 存储",
            RecordingCommandKind::PrintPrimaryCache => "打印主缓存",
        }
    }

    pub fn tooltip(self) -> (r: &'static str)
        ensures
            r@ == self.explanation(),
    {
        match self {
            RecordingCommandKind::Save => "把全部数据保存为 Rerun 数据文件（.rrd）",
            RecordingCommandKind::SaveTimeSelection => "把当前循环选区内的数据保存为 Rerun 数据文件（.rrd）",
            RecordingCommandKind::SaveBlueprint => "把当前的 Viewer 布局保存为 Rerun blueprint 文件（.rbl）",
            RecordingCommandKind::Close => "关闭当前录制文件（未保存的数据会丢失）",
            RecordingCommandKind::Undo => "撤销当前录制文件上最近一次 blueprint 修改",
            RecordingCommandKind::Redo => "重做刚撤销的操作",
            RecordingCommandKind::AddViewOrContainer => "在视口中添加一个新的视图或容器",
            RecordingCommandKind::ClearActiveBlueprint => "清除当前 blueprint，改用默认 blueprint。如果没有设置默认 blueprint，会改用自动推断的 blueprint。",
            RecordingCommandKind::ClearActiveBlueprintAndEnableHeuristics => "用默认可视化器自动选择视图，重新填充视口",
            RecordingCommandKind::ToggleTimePanel => "显示或隐藏底部面板",
            RecordingCommandKind::ToggleChunkStoreBrowser => "显示或隐藏 chunk 存储浏览器",
            RecordingCommandKind::ToggleBlueprintInspectionPanel => "查看内部 blueprint 数据的时间轴。",
            RecordingCommandKind::PlaybackTogglePlayPause => "播放或暂停时间",
            RecordingCommandKind::PlaybackStepBack => "把时间标记移到上一个有数据的时间点",
            RecordingCommandKind::PlaybackStepForward => "把时间标记移到下一个有数据的时间点",
            RecordingCommandKind::PlaybackBack => "把时间标记后退 1 秒",
            RecordingCommandKind::PlaybackForward => "把时间标记前进 0.1 秒",
            RecordingCommandKind::PlaybackBackFast => "把时间标记后退 1 秒",
            RecordingCommandKind::PlaybackForwardFast => "把时间标记前进 0.1 秒",
            RecordingCommandKind::PlaybackBeginning => "跳到时间轴的起点",
            RecordingCommandKind::PlaybackEndAndFollow => "跳到时间轴末尾，并跟随不断流入的最新数据",
            RecordingCommandKind::PlaybackSpeed(_) => "这是组合按键：比如依次按 5、0 就是 50 倍速",
            RecordingCommandKind::PrintChunkStore => "把整个 chunk 存储打印到控制台和剪贴板。注意：文本量可能非常大。",
            RecordingCommandKind::PrintBlueprintStore => "把整个 blueprint 存储打印到控制台和剪贴板。注意：文本量可能非常大。",
            RecordingCommandKind::PrintPrimaryCache => "把整个主缓存的状态打印到控制台和剪贴板。注意：文本量可能非常大。",
        }
    }

    pub fn text_and_tooltip(self) -> (r: (&'static str, &'static str))
        ensures
            r.0@ == self.label(),
            r.1@ == self.explanation(),
    {
        (self.text(), self.tooltip())
    }

    pub open spec fn shown_icon(self) -> Option<Icon> {
        match self {
            RecordingCommandKind::AddViewOrContainer => Some(Icon::Add),
            RecordingCommandKind::ClearActiveBlueprint
            | RecordingCommandKind::ClearActiveBlueprintAndEnableHeuristics => Some(Icon::Reset),
            _ => None,
        }
    }

    pub fn icon(self) -> (r: Option<Icon>)
        ensures
            r == self.shown_icon(),
    {
        match self {
            RecordingCommandKind::AddViewOrContainer => Some(Icon::Add),
            RecordingCommandKind::ClearActiveBlueprint
            | RecordingCommandKind::ClearActiveBlueprintAndEnableHeuristics => Some(Icon::Reset),
            _ => None,
        }
    }

    /// All keyboard shortcuts, with the primary first.
    ///
    /// The playback speed is set by a chord, so it has no single shortcut.
    pub open spec fn shortcuts(self, os: OperatingSystem) -> Seq<KeyboardShortcut> {
        match self {
            RecordingCommandKind::Redo => if os == OperatingSystem::Mac {
                seq![shortcut::with_cmd_shift(Key::Z), shortcut::with_cmd(Key::Y)]
            } else {
                seq![shortcut::with_ctrl(Key::Y), shortcut::with_ctrl_shift(Key::Z)]
            },
            RecordingCommandKind::Save => seq![shortcut::with_cmd(Key::S)],
            RecordingCommandKind::SaveTimeSelection => seq![shortcut::with_cmd_alt(Key::S)],
            RecordingCommandKind::Undo => seq![shortcut::with_cmd(Key::Z)],
            RecordingCommandKind::ToggleTimePanel => seq![shortcut::with_ctrl_shift(Key::T)],
            RecordingCommandKind::ToggleChunkStoreBrowser => seq![shortcut::with_ctrl_shift(Key::D)],
            RecordingCommandKind::ToggleBlueprintInspectionPanel => seq![shortcut::with_ctrl_shift(Key::I)],
            RecordingCommandKind::PlaybackTogglePlayPause => seq![shortcut::plain(Key::Space)],
            RecordingCommandKind::PlaybackStepBack => seq![shortcut::with_cmd(Key::ArrowLeft)],
            RecordingCommandKind::PlaybackStepForward => seq![shortcut::with_cmd(Key::ArrowRight)],
            RecordingCommandKind::PlaybackBack => seq![shortcut::plain(Key::ArrowLeft)],
            RecordingCommandKind::PlaybackForward => seq![shortcut::plain(Key::ArrowRight)],
            RecordingCommandKind::PlaybackBackFast => seq![shortcut::with_shift(Key::ArrowLeft)],
            RecordingCommandKind::PlaybackForwardFast => seq![shortcut::with_shift(Key::ArrowRight)],
            RecordingCommandKind::PlaybackBeginning => seq![shortcut::plain(Key::Home)],
            RecordingCommandKind::PlaybackEndAndFollow => seq![shortcut::plain(Key::End), shortcut::with_alt(Key::ArrowRight)],
            RecordingCommandKind::SaveBlueprint
            | RecordingCommandKind::Close
            | RecordingCommandKind::AddViewOrContainer
            | RecordingCommandKind::ClearActiveBlueprint
            | RecordingCommandKind::ClearActiveBlueprintAndEnableHeuristics
            | RecordingCommandKind::PlaybackSpeed(_)
            | RecordingCommandKind::PrintChunkStore
            | RecordingCommandKind::PrintBlueprintStore
            | RecordingCommandKind::PrintPrimaryCache => seq![],
        }
    }

    /// All keyboard shortcuts, with the primary first.
    pub fn kb_shortcuts(self, os: OperatingSystem) -> (r: ShortcutList)
        ensures
            r@ == self.shortcuts(os),
    {
        match self {
            RecordingCommandKind::Redo => if os == OperatingSystem::Mac {
                ShortcutList::two(shortcut::cmd_shift(Key::Z), shortcut::cmd(Key::Y))
            } else {
                ShortcutList::two(shortcut::ctrl(Key::Y), shortcut::ctrl_shift(Key::Z))
            },
            RecordingCommandKind::Save => ShortcutList::one(shortcut::cmd(Key::S)),
            RecordingCommandKind::SaveTimeSelection => ShortcutList::one(shortcut::cmd_alt(Key::S)),
            RecordingCommandKind::Undo => ShortcutList::one(shortcut::cmd(Key::Z)),
            RecordingCommandKind::ToggleTimePanel => ShortcutList::one(shortcut::ctrl_shift(Key::T)),
            RecordingCommandKind::ToggleChunkStoreBrowser => ShortcutList::one(shortcut::ctrl_shift(Key::D)),
            RecordingCommandKind::ToggleBlueprintInspectionPanel => ShortcutList::one(shortcut::ctrl_shift(Key::I)),
            RecordingCommandKind::PlaybackTogglePlayPause => ShortcutList::one(shortcut::key(Key::Space)),
            RecordingCommandKind::PlaybackStepBack => ShortcutList::one(shortcut::cmd(Key::ArrowLeft)),
            RecordingCommandKind::PlaybackStepForward => ShortcutList::one(shortcut::cmd(Key::ArrowRight)),
            RecordingCommandKind::PlaybackBack => ShortcutList::one(shortcut::key(Key::ArrowLeft)),
            RecordingCommandKind::PlaybackForward => ShortcutList::one(shortcut::key(Key::ArrowRight)),
            RecordingCommandKind::PlaybackBackFast => ShortcutList::one(shortcut::shift(Key::ArrowLeft)),
            RecordingCommandKind::PlaybackForwardFast => ShortcutList::one(shortcut::shift(Key::ArrowRight)),
            RecordingCommandKind::PlaybackBeginning => ShortcutList::one(shortcut::key(Key::Home)),
            RecordingCommandKind::PlaybackEndAndFollow => ShortcutList::two(shortcut::key(Key::End), shortcut::alt(Key::ArrowRight)),
            RecordingCommandKind::SaveBlueprint
            | RecordingCommandKind::Close
            | RecordingCommandKind::AddViewOrContainer
            | RecordingCommandKind::ClearActiveBlueprint
            | RecordingCommandKind::ClearActiveBlueprintAndEnableHeuristics
            | RecordingCommandKind::PlaybackSpeed(_)
            | RecordingCommandKind::PrintChunkStore
            | RecordingCommandKind::PrintBlueprintStore
            | RecordingCommandKind::PrintPrimaryCache => ShortcutList::none(),
        }
    }

    /// Primary keyboard shortcut
    pub fn primary_kb_shortcut(self, os: OperatingSystem) -> (r: Option<KeyboardShortcut>)
        ensures
            r == shortcut::primary(self.shortcuts(os)),
    {
        self.kb_shortcuts(os).first()
    }

    /// How to give the command by keyboard, in words or symbols.
    pub open spec fn shortcut_text(self, os: OperatingSystem, can_show_symbols: bool) -> Option<
        Seq<char>,
    > {
        if self is PlaybackSpeed {
            Some("01-99"@)
        } else {
            match shortcut::primary(self.shortcuts(os)) {
                Some(s) => shortcut::formatted(s, os, can_show_symbols),
                None => None,
            }
        }
    }

    /// Return the keyboard shortcut for this command, nicely formatted.
    ///
    /// Only the primary shortcut is shown to the user. The others are there for people who
    /// have muscle memory for them.
    pub fn formatted_kb_shortcut(self, os: OperatingSystem, can_show_symbols: bool) -> (r: Option<
        String,
    >)
        ensures
            text::opt_view(r) == self.shortcut_text(os, can_show_symbols),
            r is Some <==> self is PlaybackSpeed || self.shortcuts(os).len() > 0,
    {
        if let RecordingCommandKind::PlaybackSpeed(_) = self {
            return Some("01-99".to_owned());
        }
        match self.primary_kb_shortcut(os) {
            Some(s) => shortcut::format_shortcut(s, os, can_show_symbols),
            None => None,
        }
    }

    /// The menu button of this command, as it is to be drawn.
    pub fn menu_button(self, build: Build, os: OperatingSystem, can_show_symbols: bool) -> (r:
        MenuButton)
        ensures
            r.text@ == self.label(),
            r.icon == self.shown_icon(),
            r.debug_badge == (build.debug && self
                == RecordingCommandKind::ToggleBlueprintInspectionPanel),
            text::opt_view(r.shortcut_text) == self.shortcut_text(os, can_show_symbols),
            r.tooltip@ == self.explanation(),
            !r.pointing_hand,
    {
        MenuButton {
            text: self.text(),
            icon: self.icon(),
            debug_badge: build.debug && self.icon().is_none() && self.is_debug_only(),
            shortcut_text: self.formatted_kb_shortcut(os, can_show_symbols),
            tooltip: self.tooltip(),
            pointing_hand: false,
        }
    }

    /// Whether the menu button can be clicked: there has to be a recording to act on.
    pub fn menu_button_enabled(self, recording_id: Option<&StoreId>) -> (r: bool)
        ensures
            r == recording_id is Some,
    {
        recording_id.is_some()
    }

    /// What a click on the menu button sends: this command, for the given recording.
    pub fn on_menu_button(self, recording_id: Option<&StoreId>, clicked: bool) -> (r: Option<
        RecordingCommand,
    >)
        ensures
            r == (match recording_id {
                Some(id) => if clicked {
                    Some(RecordingCommand { recording_id: *id, kind: self })
                } else {
                    None
                },
                None => None,
            }),
    {
        match recording_id {
            Some(id) => if clicked {
                Some(RecordingCommand { recording_id: id.clone(), kind: self })
            } else {
                None
            },
            None => None,
        }
    }

    /// Name of command and how to activate it
    pub fn tooltip_content(self, os: OperatingSystem) -> (r: CommandTooltip)
        ensures
            r.label@ == self.label(),
            r.shortcut == shortcut::primary(self.shortcuts(os)),
            r.details@ == self.explanation(),
    {
        CommandTooltip {
            label: self.text(),
            shortcut: self.primary_kb_shortcut(os),
            details: self.tooltip(),
        }
    }

    /// A chord for setting the playback speed: type e.g. `5` then `0` for 50x speed.
    ///
    /// A key of another kind, or a modifier, ends the chord, and so does a pause. Leading
    /// zeros divide the speed by ten for each zero, so `05` is half speed.
    pub fn handle_playback_chord(chord: &mut PlaybackChord, input: &ChordInput) -> (r: Option<
        RecordingCommandKind,
    >)
        requires
            old(chord).valid(),
        ensures
            final(chord).valid(),
            input.text_edit_focused ==> *final(chord) == *old(chord) && r is None,
            !input.text_edit_focused ==> final(chord)@ == after_input(old(chord)@, *input)
                && r == asked_speed(old(chord)@, *input),
    {
        if input.text_edit_focused {
            return None;
        }
        let mut pressed: Option<u8> = first_pressed(&input.pressed);
        if input.modifiers || holds_other_key(&input.held_keys) {
            *chord = PlaybackChord::new();
            pressed = None;
        }
        let expired: bool = match chord.last_key_time {
            Some(last) => input.now.saturating_sub(last) >= CHORD_TIMEOUT_NANOS,
            None => false,
        };
        if expired {
            *chord = PlaybackChord::new();
        }
        match pressed {
            None => None,
            Some(d) => {
                if chord.digits.len() < MAX_CHORD_DIGITS {
                    chord.digits.push(d);
                }
                chord.last_key_time = Some(input.now);
                chord.speed()
            },
        }
    }
}

// ---------------------------------------------------------------------------------------
// The playback-speed chord

/// A pause of half a second ends a chord.
pub const CHORD_TIMEOUT_NANOS: u64 = 500_000_000;

/// No more digits than this are taken in, so that holding a key down comes to an end.
pub const MAX_CHORD_DIGITS: usize = 8;

/// The digits typed so far, and when the last one was.
pub struct PlaybackChord {
    /// In nanoseconds, on a clock that does not run backwards.
    pub last_key_time: Option<u64>,
    pub digits: Vec<u8>,
}

/// What the keyboard reports in one frame.
pub struct ChordInput {
    /// Whether the keys go to a text field.
    pub text_edit_focused: bool,
    /// Which of the number keys, from 0 to 9, were pressed in this frame.
    pub pressed: [bool; 10],
    /// The keys held down, each as its digit, or `None` for one that is not a number key.
    pub held_keys: Vec<Option<u8>>,
    /// Whether any modifier is held down.
    pub modifiers: bool,
    /// The time, in nanoseconds.
    pub now: u64,
}

/// A chord as its time and its digits.
pub type ChordView = (Option<u64>, Seq<u8>);

impl View for PlaybackChord {
    type V = ChordView;

    open spec fn view(&self) -> ChordView {
        (self.last_key_time, self.digits@)
    }
}

/// A chord that has not begun.
pub open spec fn no_chord() -> ChordView {
    (None, Seq::empty())
}

/// What is typed is digits, and not too many of them.
pub open spec fn valid_digits(digits: Seq<u8>) -> bool {
    digits.len() <= MAX_CHORD_DIGITS && forall|i: int| 0 <= i < digits.len() ==> digits[i] < 10
}

/// The smallest of the number keys pressed.
pub open spec fn pressed_digit(pressed: Seq<bool>, from: int) -> Option<u8>
    decreases pressed.len() - from,
{
    if from >= pressed.len() {
        None
    } else if pressed[from] {
        Some(from as u8)
    } else {
        pressed_digit(pressed, from + 1)
    }
}

/// Whether what is held down rules a chord out.
pub open spec fn disturbed(input: ChordInput) -> bool {
    input.modifiers || exists|i: int|
        0 <= i < input.held_keys@.len() && (#[trigger] input.held_keys@[i]) is None
}

/// Whether too much time has passed for the chord to go on.
pub open spec fn timed_out(chord: ChordView, now: u64) -> bool {
    chord.0 is Some && now - chord.0->0 >= CHORD_TIMEOUT_NANOS
}

/// What of a chord is still to be continued.
pub open spec fn carried_on(chord: ChordView, input: ChordInput) -> ChordView {
    if disturbed(input) || timed_out(chord, input.now) {
        no_chord()
    } else {
        chord
    }
}

/// The digit that an input adds.
pub open spec fn typed(input: ChordInput) -> Option<u8> {
    if disturbed(input) {
        None
    } else {
        pressed_digit(input.pressed@, 0)
    }
}

/// The digits with one more, as far as there is room.
pub open spec fn with_digit(digits: Seq<u8>, d: u8) -> Seq<u8> {
    if digits.len() < MAX_CHORD_DIGITS {
        digits.push(d)
    } else {
        digits
    }
}

/// The chord after an input that does not go to a text field.
pub open spec fn after_input(chord: ChordView, input: ChordInput) -> ChordView {
    let kept = carried_on(chord, input);
    match typed(input) {
        Some(d) => (Some(input.now), with_digit(kept.1, d)),
        None => kept,
    }
}

/// The speed that such an input asks for, if any.
pub open spec fn asked_speed(chord: ChordView, input: ChordInput) -> Option<RecordingCommandKind> {
    match typed(input) {
        Some(d) => spelled_speed(with_digit(carried_on(chord, input).1, d)),
        None => None,
    }
}

/// The number that digits spell.
pub open spec fn spelled(digits: Seq<u8>) -> nat
    decreases digits.len(),
{
    if digits.len() == 0 {
        0
    } else {
        10 * spelled(digits.drop_last()) + digits.last() as nat
    }
}

/// How many zeros the digits begin with.
pub open spec fn leading_zeros(digits: Seq<u8>) -> nat
    decreases digits.len(),
{
    if digits.len() == 0 || digits[0] != 0 {
        0
    } else {
        1 + leading_zeros(digits.drop_first())
    }
}

pub open spec fn power_of_ten(n: nat) -> nat
    decreases n,
{
    if n == 0 {
        1
    } else {
        10 * power_of_ten((n - 1) as nat)
    }
}

/// The speed that digits spell: their number, divided by ten for each leading zero. Nothing
/// but zeros is no speed.
pub open spec fn spelled_speed(digits: Seq<u8>) -> Option<RecordingCommandKind> {
    if spelled(digits) > 0 {
        Some(
            RecordingCommandKind::PlaybackSpeed(
                SetPlaybackSpeed {
                    numerator: spelled(digits) as u32,
                    denominator: power_of_ten(leading_zeros(digits)) as u32,
                },
            ),
        )
    } else {
        None
    }
}

proof fn lemma_power_of_ten_grows(m: nat, n: nat)
    requires
        m <= n,
    ensures
        0 < power_of_ten(m) <= power_of_ten(n),
    decreases n,
{
    if m < n {
        lemma_power_of_ten_grows(m, (n - 1) as nat);
    } else if n > 0 {
        lemma_power_of_ten_grows((m - 1) as nat, (n - 1) as nat);
    }
}

proof fn lemma_spelled_bound(digits: Seq<u8>)
    requires
        forall|i: int| 0 <= i < digits.len() ==> digits[i] < 10,
    ensures
        spelled(digits) < power_of_ten(digits.len()),
        leading_zeros(digits) <= digits.len(),
    decreases digits.len(),
{
    if digits.len() > 0 {
        lemma_spelled_bound(digits.drop_last());
        if digits[0] == 0 {
            lemma_spelled_bound(digits.drop_first());
        }
    }
}

proof fn lemma_eight_digits()
    ensures
        power_of_ten(8) == 100_000_000,
{
    reveal_with_fuel(power_of_ten, 9);
}

fn first_pressed(pressed: &[bool; 10]) -> (r: Option<u8>)
    ensures
        r == pressed_digit(pressed@, 0),
        r is Some ==> r->0 < 10,
{
    let mut i: usize = 0;
    while i < 10
        invariant
            i <= 10,
            pressed_digit(pressed@, 0) == pressed_digit(pressed@, i as int),
        decreases 10 - i,
    {
        if pressed[i] {
            return Some(i as u8);
        }
        i += 1;
    }
    None
}

fn holds_other_key(held: &Vec<Option<u8>>) -> (r: bool)
    ensures
        r == exists|i: int| 0 <= i < held@.len() && (#[trigger] held@[i]) is None,
{
    let n: usize = held.len();
    let mut i: usize = 0;
    while i < n
        invariant
            i <= n,
            n == held@.len(),
            forall|j: int| 0 <= j < i ==> (#[trigger] held@[j]) is Some,
        decreases n - i,
    {
        if held[i].is_none() {
            assert(held@[i as int] is None);
            return true;
        }
        i += 1;
    }
    false
}

impl PlaybackChord {
    pub open spec fn valid(&self) -> bool {
        valid_digits(self.digits@)
    }

    /// No chord.
    pub fn new() -> (r: Self)
        ensures
            r.valid(),
            r@ == no_chord(),
    {
        PlaybackChord { last_key_time: None, digits: Vec::new() }
    }

    /// The speed that the digits typed so far ask for.
    pub fn speed(&self) -> (r: Option<RecordingCommandKind>)
        requires
            self.valid(),
        ensures
            r == spelled_speed(self.digits@),
    {
        let ghost digits = self.digits@;
        let n: usize = self.digits.len();
        let mut number: u32 = 0;
        let mut denominator: u32 = 1;
        let mut leading: bool = true;
        let mut i: usize = 0;
        assert(digits.take(0) =~= Seq::empty());
        assert(digits.skip(0) =~= digits);
        while i < n
            invariant
                i <= n,
                n == digits.len(),
                digits == self.digits@,
                valid_digits(digits),
                number == spelled(digits.take(i as int)),
                number < power_of_ten(i as nat),
                denominator <= power_of_ten(i as nat),
                leading ==> denominator == power_of_ten(i as nat) && leading_zeros(digits) == i
                    + leading_zeros(digits.skip(i as int)),
                !leading ==> denominator == power_of_ten(leading_zeros(digits)),
            decreases n - i,
        {
            let d: u8 = self.digits[i];
            proof {
                lemma_power_of_ten_grows((i + 1) as nat, 8);
                lemma_eight_digits();
                assert(digits.take(i + 1).drop_last() =~= digits.take(i as int));
                assert(digits.skip(i as int).drop_first() =~= digits.skip(i + 1));
            }
            number = 10 * number + d as u32;
            if leading {
                if d == 0 {
                    denominator = 10 * denominator;
                } else {
                    leading = false;
                }
            }
            i += 1;
        }
        proof {
            assert(digits.take(n as int) =~= digits);
            assert(leading_zeros(digits.skip(n as int)) == 0);
        }
        if number > 0 {
            Some(RecordingCommandKind::PlaybackSpeed(SetPlaybackSpeed { numerator: number, denominator }))
        } else {
            None
        }
    }
}

// ---------------------------------------------------------------------------------------
// Laws

proof fn lemma_every_kind_is_listed(k: RecordingCommandKind)
    requires
        k is PlaybackSpeed ==> k->PlaybackSpeed_0 == normal_speed(),
    ensures
        every_kind().contains(k),
{
    let all = every_kind();
    match k {
        RecordingCommandKind::Save => assert(all[0] == k),
        RecordingCommandKind::SaveTimeSelection => assert(all[1] == k),
        RecordingCommandKind::SaveBlueprint => assert(all[2] == k),
        RecordingCommandKind::Close => assert(all[3] == k),
        RecordingCommandKind::Undo => assert(all[4] == k),
        RecordingCommandKind::Redo => assert(all[5] == k),
        RecordingCommandKind::AddViewOrContainer => assert(all[6] == k),
        RecordingCommandKind::ClearActiveBlueprint => assert(all[7] == k),
        RecordingCommandKind::ClearActiveBlueprintAndEnableHeuristics => assert(all[8] == k),
        RecordingCommandKind::ToggleTimePanel => assert(all[9] == k),
        RecordingCommandKind::ToggleChunkStoreBrowser => assert(all[10] == k),
        RecordingCommandKind::ToggleBlueprintInspectionPanel => assert(all[11] == k),
        RecordingCommandKind::PlaybackTogglePlayPause => assert(all[12] == k),
        RecordingCommandKind::PlaybackStepBack => assert(all[13] == k),
        RecordingCommandKind::PlaybackStepForward => assert(all[14] == k),
        RecordingCommandKind::PlaybackBack => assert(all[15] == k),
        RecordingCommandKind::PlaybackForward => assert(all[16] == k),
        RecordingCommandKind::PlaybackBackFast => assert(all[17] == k),
        RecordingCommandKind::PlaybackForwardFast => assert(all[18] == k),
        RecordingCommandKind::PlaybackBeginning => assert(all[19] == k),
        RecordingCommandKind::PlaybackEndAndFollow => assert(all[20] == k),
        RecordingCommandKind::PlaybackSpeed(_) => assert(all[21] == k),
        RecordingCommandKind::PrintChunkStore => assert(all[22] == k),
        RecordingCommandKind::PrintBlueprintStore => assert(all[23] == k),
        RecordingCommandKind::PrintPrimaryCache => assert(all[24] == k),
    }
}

/// A build lists each of its commands once, and no other; the playback speed, as real time.
pub proof fn law_kinds_are_listed_once(build: Build)
    ensures
        kinds(build).no_duplicates(),
        forall|k: RecordingCommandKind| #[trigger]
            kinds(build).contains(k) <==> k.exists_in(build) && (k is PlaybackSpeed
                ==> k->PlaybackSpeed_0 == normal_speed()),
{
    let here = |k: RecordingCommandKind| k.exists_in(build);
    let all = every_kind();
    assert(all.no_duplicates());
    lists::lemma_filter(all, here);
    assert forall|k: RecordingCommandKind| #[trigger] all.contains(k) <==> (k is PlaybackSpeed
        ==> k->PlaybackSpeed_0 == normal_speed()) by {
        if k is PlaybackSpeed ==> k->PlaybackSpeed_0 == normal_speed() {
            lemma_every_kind_is_listed(k);
        }
    }
}

/// No press of keys is the shortcut of two commands on a recording, nor twice of one.
pub proof fn law_recording_shortcuts_are_distinct(
    os: OperatingSystem,
    a: RecordingCommandKind,
    i: int,
    b: RecordingCommandKind,
    j: int,
)
    requires
        0 <= i < a.shortcuts(os).len(),
        0 <= j < b.shortcuts(os).len(),
        shortcut::same_press(a.shortcuts(os)[i], b.shortcuts(os)[j], os),
    ensures
        a == b && i == j,
{
}

/// No press of keys is the shortcut of a command on a recording and of one of the viewer.
pub proof fn law_shortcuts_do_not_clash(
    platform: Platform,
    os: OperatingSystem,
    a: RecordingCommandKind,
    i: int,
    b: UICommand,
    j: int,
)
    requires
        0 <= i < a.shortcuts(os).len(),
        0 <= j < b.shortcuts(platform, os).len(),
    ensures
        !shortcut::same_press(a.shortcuts(os)[i], b.shortcuts(platform, os)[j], os),
{
}

/// A zero typed in front leaves the number as it is and divides the speed by ten.
pub proof fn law_leading_zero_divides_by_ten(digits: Seq<u8>)
    ensures
        spelled(seq![0u8] + digits) == spelled(digits),
        power_of_ten(leading_zeros(seq![0u8] + digits)) == 10 * power_of_ten(leading_zeros(digits)),
{
    lemma_zero_in_front(digits);
    assert((seq![0u8] + digits).drop_first() =~= digits);
}

proof fn lemma_zero_in_front(digits: Seq<u8>)
    ensures
        spelled(seq![0u8] + digits) == spelled(digits),
    decreases digits.len(),
{
    let longer = seq![0u8] + digits;
    if digits.len() > 0 {
        lemma_zero_in_front(digits.drop_last());
        assert(longer.drop_last() =~= seq![0u8] + digits.drop_last());
    } else {
        assert(longer.drop_last() =~= digits);
    }
}

/// The speed that a valid chord asks for is the number it spells over the power of ten of
/// its leading zeros, as numbers: both fit.
pub proof fn law_chord_speed_is_exact(digits: Seq<u8>)
    requires
        valid_digits(digits),
    ensures
        spelled_speed(digits) is Some <==> spelled(digits) > 0,
        spelled_speed(digits) matches Some(RecordingCommandKind::PlaybackSpeed(speed)) ==> {
            &&& speed.numerator == spelled(digits)
            &&& speed.denominator == power_of_ten(leading_zeros(digits))
            &&& speed.denominator > 0
        },
{
    lemma_spelled_bound(digits);
    lemma_power_of_ten_grows(digits.len(), 8);
    lemma_power_of_ten_grows(leading_zeros(digits), 8);
    lemma_eight_digits();
}

/// Once a chord is disturbed or has timed out, what it held no longer matters.
pub proof fn law_ended_chord_is_forgotten(chord: ChordView, other: ChordView, input: ChordInput)
    requires
        disturbed(input) || (timed_out(chord, input.now) && timed_out(other, input.now)),
    ensures
        after_input(chord, input) == after_input(other, input),
        asked_speed(chord, input) == asked_speed(other, input),
{
}

/// What the names of the commands are told apart by.
spec fn label_marks(k: RecordingCommandKind) -> (nat, char, char, char) {
    match k {
        RecordingCommandKind::Save => (7, '保', '录', '制'),
        RecordingCommandKind::SaveTimeSelection => (10, '保', '前', '中'),
        RecordingCommandKind::SaveBlueprint => (13, '保', 'l', 'e'),
        RecordingCommandKind::Close => (8, '关', '当', '录'),
        RecordingCommandKind::Undo => (2, '撤', '撤', '销'),
        RecordingCommandKind::Redo => (2, '重', '重', '做'),
        RecordingCommandKind::AddViewOrContainer => (8, '添', '视', '或'),
        RecordingCommandKind::ClearActiveBlueprint => (15, '重', ' ', 'l'),
        RecordingCommandKind::ClearActiveBlueprintAndEnableHeuristics => (18, '重', '断', 'b'),
        RecordingCommandKind::ToggleTimePanel => (9, '显', '隐', '藏'),
        RecordingCommandKind::ToggleChunkStoreBrowser => (17, '显', ' ', 'u'),
        RecordingCommandKind::ToggleBlueprintInspectionPanel => (20, '显', 'b', 'p'),
        RecordingCommandKind::PlaybackTogglePlayPause => (5, '播', '放', '/'),
        RecordingCommandKind::PlaybackStepBack => (3, '上', '一', '一'),
        RecordingCommandKind::PlaybackStepForward => (3, '下', '一', '一'),
        RecordingCommandKind::PlaybackBack => (4, '后', '退', ' '),
        RecordingCommandKind::PlaybackForward => (4, '前', '进', ' '),
        RecordingCommandKind::PlaybackBackFast => (5, '后', '退', ' '),
        RecordingCommandKind::PlaybackForwardFast => (5, '前', '进', ' '),
        RecordingCommandKind::PlaybackBeginning => (7, '回', '时', '间'),
        RecordingCommandKind::PlaybackEndAndFollow => (7, '跳', '时', '间'),
        RecordingCommandKind::PlaybackSpeed(_) => (6, '设', '播', '放'),
        RecordingCommandKind::PrintChunkStore => (6, '打', '数', '据'),
        RecordingCommandKind::PrintBlueprintStore => (15, '打', 'u', 'p'),
        RecordingCommandKind::PrintPrimaryCache => (5, '打', '印', '主'),
    }
}

proof fn lemma_label_marks(k: RecordingCommandKind)
    ensures
        text::marks(k.label()) == label_marks(k),
{
    match k {
        RecordingCommandKind::Save => {
            reveal_strlit("保存录制文件…");
        },
        RecordingCommandKind::SaveTimeSelection => {
            reveal_strlit("保存当前选中时间段…");
        },
        RecordingCommandKind::SaveBlueprint => {
            reveal_strlit("保存 blueprint…");
        },
        RecordingCommandKind::Close => {
            reveal_strlit("关闭当前录制文件");
        },
        RecordingCommandKind::Undo => {
            reveal_strlit("撤销");
        },
        RecordingCommandKind::Redo => {
            reveal_strlit("重做");
        },
        RecordingCommandKind::AddViewOrContainer => {
            reveal_strlit("添加视图或容器…");
        },
        RecordingCommandKind::ClearActiveBlueprint => {
            reveal_strlit("重置为默认 blueprint");
        },
        RecordingCommandKind::ClearActiveBlueprintAndEnableHeuristics => {
            reveal_strlit("重置为自动推断的 blueprint");
        },
        RecordingCommandKind::ToggleTimePanel => {
            reveal_strlit("显示/隐藏时间面板");
        },
        RecordingCommandKind::ToggleChunkStoreBrowser => {
            reveal_strlit("显示/隐藏 chunk 存储浏览器");
        },
        RecordingCommandKind::ToggleBlueprintInspectionPanel => {
            reveal_strlit("显示/隐藏 blueprint 检查面板");
        },
        RecordingCommandKind::PlaybackTogglePlayPause => {
            reveal_strlit("播放/暂停");
        },
        RecordingCommandKind::PlaybackStepBack => {
            reveal_strlit("上一步");
        },
        RecordingCommandKind::PlaybackStepForward => {
            reveal_strlit("下一步");
        },
        RecordingCommandKind::PlaybackBack => {
            reveal_strlit("后退 1");
        },
        RecordingCommandKind::PlaybackForward => {
            reveal_strlit("前进 1");
        },
        RecordingCommandKind::PlaybackBackFast => {
            reveal_strlit("后退 10");
        },
        RecordingCommandKind::PlaybackForwardFast => {
            reveal_strlit("前进 10");
        },
        RecordingCommandKind::PlaybackBeginning => {
            reveal_strlit("回到时间轴开头");
        },
        RecordingCommandKind::PlaybackEndAndFollow => {
            reveal_strlit("跳到时间轴末尾");
        },
        RecordingCommandKind::PlaybackSpeed(_) => {
            reveal_strlit("设置播放速度");
        },
        RecordingCommandKind::PrintChunkStore => {
            reveal_strlit("打印数据存储");
        },
        RecordingCommandKind::PrintBlueprintStore => {
            reveal_strlit("打印 blueprint 存储");
        },
        RecordingCommandKind::PrintPrimaryCache => {
            reveal_strlit("打印主缓存");
        },
    }
}

/// No two commands on a recording have the same name, but for those that set different speeds.
pub proof fn law_recording_labels_are_distinct(a: RecordingCommandKind, b: RecordingCommandKind)
    requires
        a.label() == b.label(),
    ensures
        a == b || (a is PlaybackSpeed && b is PlaybackSpeed),
{
    lemma_label_marks(a);
    lemma_label_marks(b);
}

/// One more digit, a zero as any other, multiplies the number by ten and adds itself.
pub proof fn law_another_digit_counts(digits: Seq<u8>, d: u8)
    ensures
        spelled(digits.push(d)) == 10 * spelled(digits) + d,
        spelled(seq![d]) == d,
{
    reveal_with_fuel(spelled, 2);
    assert(digits.push(d).drop_last() =~= digits);
    assert(seq![d].drop_last() =~= Seq::<u8>::empty());
}

/// The number has the digits that were typed, each in its decimal place.
pub proof fn law_number_has_the_typed_digits(digits: Seq<u8>, i: int)
    requires
        forall|j: int| 0 <= j < digits.len() ==> digits[j] < 10,
        0 <= i < digits.len(),
    ensures
        (spelled(digits) as int / pow(10, (digits.len() - 1 - i) as nat)) % 10 == digits[i],
        spelled(digits) < pow(10, digits.len()),
    decreases digits.len(),
{
    let before = digits.drop_last();
    let place = (digits.len() - 1 - i) as nat;
    let number = spelled(digits) as int;
    lemma_pow_is_power_of_ten(digits.len());
    lemma_spelled_bound(digits);
    reveal(pow);
    if i < digits.len() - 1 {
        law_number_has_the_typed_digits(before, i);
        let rest = pow(10, (place - 1) as nat);
        lemma_pow_positive(10, (place - 1) as nat);
        lemma_div_denominator(number, 10, rest);
        assert(pow(10, place) == 10 * rest);
        assert(number / 10 == spelled(before));
    } else {
        assert(pow(10, 0) == 1);
    }
}

proof fn lemma_pow_is_power_of_ten(n: nat)
    ensures
        power_of_ten(n) == pow(10, n),
    decreases n,
{
    reveal(pow);
    if n > 0 {
        lemma_pow_is_power_of_ten((n - 1) as nat);
    }
}

proof fn lemma_leading_zeros_are(digits: Seq<u8>, zeros: int)
    requires
        0 <= zeros <= digits.len(),
        forall|i: int| 0 <= i < zeros ==> digits[i] == 0,
        zeros < digits.len() ==> digits[zeros] != 0,
    ensures
        leading_zeros(digits) == zeros,
    decreases digits.len(),
{
    if zeros > 0 {
        lemma_leading_zeros_are(digits.drop_first(), zeros - 1);
    }
}

proof fn lemma_spelled_is_positive(digits: Seq<u8>)
    ensures
        spelled(digits) > 0 <==> exists|i: int| 0 <= i < digits.len() && digits[i] != 0,
    decreases digits.len(),
{
    if digits.len() > 0 {
        let before = digits.drop_last();
        lemma_spelled_is_positive(before);
        if spelled(before) > 0 {
            let i = choose|i: int| 0 <= i < before.len() && before[i] != 0;
            assert(digits[i] != 0);
        }
        if exists|i: int| 0 <= i < digits.len() && digits[i] != 0 {
            let i = choose|i: int| 0 <= i < digits.len() && digits[i] != 0;
            if i < before.len() {
                assert(before[i] != 0);
            }
        }
    }
}

/// The speed is the number typed, divided by ten for each zero in front of the first other
/// digit. As long as nothing but zeros was typed there is none.
pub proof fn law_speed_is_the_number_over_its_zeros(digits: Seq<u8>, zeros: int)
    requires
        digits.len() <= 8,
        forall|i: int| 0 <= i < digits.len() ==> digits[i] < 10,
        0 <= zeros <= digits.len(),
        forall|i: int| 0 <= i < zeros ==> digits[i] == 0,
        zeros < digits.len() ==> digits[zeros] != 0,
    ensures
        zeros == digits.len() ==> spelled_speed(digits) is None,
        zeros < digits.len() ==> (spelled_speed(digits) matches Some(
            RecordingCommandKind::PlaybackSpeed(speed),
        ) && speed.numerator == spelled(digits) && speed.denominator == pow(10, zeros as nat)),
{
    lemma_leading_zeros_are(digits, zeros);
    lemma_spelled_is_positive(digits);
    lemma_spelled_bound(digits);
    lemma_eight_digits();
    lemma_power_of_ten_grows(digits.len(), 8);
    lemma_power_of_ten_grows(zeros as nat, 8);
    lemma_pow_is_power_of_ten(zeros as nat);
    if zeros < digits.len() {
        assert(digits[zeros] != 0);
    }
}

/// Whether of the number keys this is the one that counts: it is pressed, and no smaller one.
pub open spec fn is_first_pressed(input: ChordInput, d: int) -> bool {
    &&& 0 <= d < 10
    &&& input.pressed@[d]
    &&& forall|j: int| 0 <= j < d ==> !input.pressed@[j]
}

/// Whether nothing but number keys is held down.
pub open spec fn only_number_keys(input: ChordInput) -> bool {
    !input.modifiers && forall|i: int|
        0 <= i < input.held_keys@.len() ==> (#[trigger] input.held_keys@[i]) is Some
}

proof fn lemma_pressed_digit(pressed: Seq<bool>, from: int, d: int)
    requires
        pressed.len() == 10,
        0 <= from <= d < 10,
        pressed[d],
        forall|j: int| from <= j < d ==> !pressed[j],
    ensures
        pressed_digit(pressed, from) == Some(d as u8),
    decreases d - from,
{
    if from < d {
        lemma_pressed_digit(pressed, from + 1, d);
    }
}

proof fn lemma_nothing_pressed(pressed: Seq<bool>, from: int)
    requires
        0 <= from,
        forall|j: int| from <= j < pressed.len() ==> !pressed[j],
    ensures
        pressed_digit(pressed, from) is None,
    decreases pressed.len() - from,
{
    if from < pressed.len() {
        lemma_nothing_pressed(pressed, from + 1);
    }
}

/// A digit that is typed within half a second of the last one is added behind those typed so
/// far, of which there are eight at most, and the speed is that of all of them.
pub proof fn law_digit_continues_the_chord(chord: ChordView, input: ChordInput, d: int)
    requires
        only_number_keys(input),
        is_first_pressed(input, d),
        chord.0 matches Some(last) ==> input.now - last < 500_000_000,
    ensures
        chord.1.len() < 8 ==> {
            &&& after_input(chord, input) == (Some(input.now), chord.1.push(d as u8))
            &&& asked_speed(chord, input) == spelled_speed(chord.1.push(d as u8))
        },
        chord.1.len() >= 8 ==> {
            &&& after_input(chord, input) == (Some(input.now), chord.1)
            &&& asked_speed(chord, input) == spelled_speed(chord.1)
        },
{
    lemma_pressed_digit(input.pressed@, 0, d);
}

/// A digit that is typed half a second or more after the last one begins a new number.
pub proof fn law_pause_begins_anew(chord: ChordView, input: ChordInput, d: int)
    requires
        only_number_keys(input),
        is_first_pressed(input, d),
        chord.0 matches Some(last) && input.now - last >= 500_000_000,
    ensures
        after_input(chord, input) == (Some(input.now), seq![d as u8]),
        asked_speed(chord, input) == spelled_speed(seq![d as u8]),
{
    lemma_pressed_digit(input.pressed@, 0, d);
    assert(Seq::<u8>::empty().push(d as u8) =~= seq![d as u8]);
}

/// With another key or a modifier held down nothing is typed, and what was is forgotten. While
/// no key is pressed nothing is asked for, and within half a second nothing is forgotten.
pub proof fn law_without_a_digit_nothing_is_asked(chord: ChordView, input: ChordInput)
    ensures
        !only_number_keys(input) ==> {
            &&& after_input(chord, input) == (None::<u64>, Seq::<u8>::empty())
            &&& asked_speed(chord, input) is None
        },
        only_number_keys(input) && (forall|j: int| 0 <= j < 10 ==> !input.pressed@[j]) ==> {
            &&& asked_speed(chord, input) is None
            &&& (chord.0 is None || input.now - chord.0->0 < 500_000_000) ==> after_input(
                chord,
                input,
            ) == chord
        },
{
    if !only_number_keys(input) && !input.modifiers {
        let i = choose|i: int|
            0 <= i < input.held_keys@.len() && (#[trigger] input.held_keys@[i]) is None;
        assert(disturbed(input));
    }
    if forall|j: int| 0 <= j < 10 ==> !input.pressed@[j] {
        lemma_nothing_pressed(input.pressed@, 0);
    }
}

/// The keys for moving back are those for moving forward, with the other arrow: alone for a
/// small step, with shift for a large one, and with the command key for a step to the next
/// data.
pub proof fn law_arrows_move_in_their_direction(os: OperatingSystem)
    ensures
        RecordingCommandKind::PlaybackBack.shortcuts(os).len() == 1,
        RecordingCommandKind::PlaybackBack.shortcuts(os)[0].logical_key == Key::ArrowLeft,
        RecordingCommandKind::PlaybackForward.shortcuts(os)[0].logical_key == Key::ArrowRight,
        RecordingCommandKind::PlaybackBackFast.shortcuts(os)[0].logical_key == Key::ArrowLeft,
        RecordingCommandKind::PlaybackForwardFast.shortcuts(os)[0].logical_key == Key::ArrowRight,
        RecordingCommandKind::PlaybackStepBack.shortcuts(os)[0].logical_key == Key::ArrowLeft,
        RecordingCommandKind::PlaybackStepForward.shortcuts(os)[0].logical_key == Key::ArrowRight,
        RecordingCommandKind::PlaybackBack.shortcuts(os)[0].modifiers
            == RecordingCommandKind::PlaybackForward.shortcuts(os)[0].modifiers,
        RecordingCommandKind::PlaybackBackFast.shortcuts(os)[0].modifiers
            == RecordingCommandKind::PlaybackForwardFast.shortcuts(os)[0].modifiers,
        RecordingCommandKind::PlaybackStepBack.shortcuts(os)[0].modifiers
            == RecordingCommandKind::PlaybackStepForward.shortcuts(os)[0].modifiers,
        shortcut::held(RecordingCommandKind::PlaybackBack.shortcuts(os)[0].modifiers, os) == (
            false,
            false,
            false,
            false,
        ),
        shortcut::held(RecordingCommandKind::PlaybackBackFast.shortcuts(os)[0].modifiers, os) == (
            false,
            false,
            true,
            false,
        ),
        RecordingCommandKind::PlaybackStepBack.shortcuts(os)[0].modifiers.command,
{
}

/// Redoing takes one more key than undoing, or the key next to it, with the same command key.
pub proof fn law_redo_is_undo_with_another_key(os: OperatingSystem)
    ensures
        RecordingCommandKind::Undo.shortcuts(os).len() == 1,
        RecordingCommandKind::Redo.shortcuts(os).len() == 2,
        exists|i: int|
            0 <= i < 2 && (#[trigger] RecordingCommandKind::Redo.shortcuts(os)[i]).logical_key
                == RecordingCommandKind::Undo.shortcuts(os)[0].logical_key
                && RecordingCommandKind::Redo.shortcuts(os)[i].modifiers.shift,
        exists|i: int|
            0 <= i < 2 && (#[trigger] RecordingCommandKind::Redo.shortcuts(os)[i]).logical_key
                == Key::Y && !RecordingCommandKind::Redo.shortcuts(os)[i].modifiers.shift,
        (RecordingCommandKind::Redo.shortcuts(os)[0].logical_key == Key::Z) == (os
            == OperatingSystem::Mac),
{
    let redo = RecordingCommandKind::Redo.shortcuts(os);
    assert(redo[0].logical_key == Key::Z || redo[1].logical_key == Key::Z);
    assert(redo[0].logical_key == Key::Y || redo[1].logical_key == Key::Y);
}

/// Printing needs a console, and only builds for developers look into blueprints; everything
/// else is there in all viewers.
pub proof fn law_where_commands_exist(k: RecordingCommandKind, build: Build)
    ensures
        build.platform == Platform::Native && build.debug ==> k.exists_in(build),
        !k.exists_in(build) && build.platform == Platform::Native ==> k
            == RecordingCommandKind::ToggleBlueprintInspectionPanel,
        !k.exists_in(build) && build.debug ==> k is PrintChunkStore || k is PrintBlueprintStore
            || k is PrintPrimaryCache,
        k is PrintChunkStore || k is PrintBlueprintStore || k is PrintPrimaryCache ==> k.exists_in(
            build,
        ) == (build.platform == Platform::Native),
        k is ToggleBlueprintInspectionPanel ==> k.exists_in(build) == build.debug,
        k.moves_time() ==> k.exists_in(build) && !(k is Save) && !(k is Undo) && !(
        k is ToggleTimePanel),
{
}

} // verus!
