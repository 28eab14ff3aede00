use viewer_logic::command::recording_command::{
    ChordInput, PlaybackChord, RecordingCommand, RecordingCommandKind, SetPlaybackSpeed,
};
use viewer_logic::command::shortcut::{
    alt, cmd, cmd_alt, cmd_shift, ctrl, ctrl_shift, format_shortcut, key, shift, Key,
    KeyboardShortcut, ShortcutList,
};
use viewer_logic::command::ui_command::UICommand;
use viewer_logic::command::CommandEnvironment;
use viewer_logic::i18n::Language;
use viewer_logic::icons::Icon;
use viewer_logic::platform::{Build, OperatingSystem, Platform};
use viewer_logic::store_id::{StoreId, StoreKind};

const NATIVE: Build = Build { platform: Platform::Native, debug: false };
const NATIVE_DEBUG: Build = Build { platform: Platform::Native, debug: true };
const WEB: Build = Build { platform: Platform::Web, debug: false };

fn recording() -> StoreId {
    StoreId {
        kind: StoreKind::Recording,
        application_id: "app".to_owned(),
        recording_id: "rec".to_owned(),
    }
}

fn shown(s: KeyboardShortcut, os: OperatingSystem, symbols: bool) -> String {
    format_shortcut(s, os, symbols).unwrap()
}

#[test]
fn shortcuts_read_as_words() {
    let os = OperatingSystem::Nix;
    assert_eq!(shown(cmd(Key::O), os, true), "Ctrl+O");
    assert_eq!(shown(cmd_shift(Key::L), os, true), "Ctrl+Shift+L");
    assert_eq!(shown(cmd_alt(Key::ArrowDown), os, false), "Ctrl+Alt+Down");
    assert_eq!(shown(ctrl_shift(Key::R), os, false), "Ctrl+Shift+R");
    assert_eq!(shown(alt(Key::F4), OperatingSystem::Windows, false), "Alt+F4");
    assert_eq!(shown(key(Key::Space), os, false), "Space");
    assert_eq!(shown(shift(Key::Comma), os, false), "Shift+Comma");
    assert_eq!(shown(ctrl(Key::Num0), os, false), "Ctrl+0");
}

#[test]
fn shortcuts_read_as_symbols_on_a_mac() {
    let os = OperatingSystem::Mac;
    assert_eq!(shown(cmd(Key::O), os, true), "⌘O");
    assert_eq!(shown(cmd_alt(Key::ArrowDown), os, true), "⌥⌘⏷");
    assert_eq!(shown(ctrl_shift(Key::Comma), os, true), "⌃⇧,");
    assert_eq!(shown(cmd_alt(Key::S), os, false), "Option+Cmd+S");
}

#[test]
fn every_key_has_a_name() {
    assert_eq!(Key::Num0.name(), "0");
    assert_eq!(Key::ArrowDown.name(), "ArrowDown");
    assert!(format_shortcut(key(Key::OpenBracket), OperatingSystem::Unknown, false).is_some());
    assert!(format_shortcut(key(Key::CloseBracket), OperatingSystem::Unknown, false).is_some());
    assert!(format_shortcut(key(Key::Minus), OperatingSystem::Ios, true).is_some());
}

#[test]
fn lists_keep_their_order() {
    assert_eq!(ShortcutList::none().first(), None);
    assert!(ShortcutList::none().into_vec().is_empty());
    assert_eq!(ShortcutList::one(key(Key::B)).first(), Some(key(Key::B)));
    let two = ShortcutList::two(key(Key::B), key(Key::D));
    assert_eq!(two.first(), Some(key(Key::B)));
    assert_eq!(two.into_vec(), vec![key(Key::B), key(Key::D)]);
}

#[test]
fn a_build_lists_its_own_commands() {
    let native = UICommand::all(NATIVE);
    let web = UICommand::all(WEB);
    assert!(native.contains(&UICommand::Quit));
    assert!(!web.contains(&UICommand::Quit));
    assert!(web.contains(&UICommand::RestartWithWebGl));
    assert!(!native.contains(&UICommand::RestartWithWebGl));
    assert!(!native.contains(&UICommand::ResetEguiMemory));
    assert!(UICommand::all(NATIVE_DEBUG).contains(&UICommand::ResetEguiMemory));
    assert_eq!(native[0], UICommand::Open);
    for command in &native {
        assert!(command.is_in(NATIVE));
        assert_eq!(native.iter().filter(|c| *c == command).count(), 1);
    }
    assert_eq!(native.len(), 36);
    assert_eq!(web.len(), 31);
}

#[test]
fn commands_have_texts() {
    assert_eq!(UICommand::Open.text(Language::English), "Open file…");
    assert_eq!(UICommand::Open.text(Language::Chinese), "打开文件…");
    assert_eq!(UICommand::Quit.text(Language::Chinese), "退出");
    let (text, tooltip) = UICommand::ZoomIn.text_and_tooltip(Platform::Native, Language::English);
    assert_eq!(text, UICommand::ZoomIn.text(Language::English));
    assert_eq!(tooltip, UICommand::ZoomIn.tooltip(Platform::Native, Language::English));
    assert!(!tooltip.is_empty());
}

#[test]
fn commands_have_shortcuts() {
    let os = OperatingSystem::Nix;
    assert_eq!(
        UICommand::ToggleCommandPalette.kb_shortcuts(Platform::Native, os).into_vec(),
        vec![cmd(Key::K), cmd(Key::P)]
    );
    assert_eq!(
        UICommand::ToggleFullscreen.primary_kb_shortcut(Platform::Native, os),
        Some(key(Key::F11))
    );
    assert_eq!(UICommand::ToggleFullscreen.primary_kb_shortcut(Platform::Web, os), None);
    assert_eq!(
        UICommand::Quit.primary_kb_shortcut(Platform::Native, OperatingSystem::Windows),
        Some(alt(Key::F4))
    );
    assert_eq!(UICommand::Quit.primary_kb_shortcut(Platform::Native, os), Some(cmd(Key::Q)));
    assert_eq!(
        UICommand::Settings.formatted_kb_shortcut(Platform::Native, os, false).as_deref(),
        Some("Ctrl+Comma")
    );
    assert_eq!(UICommand::OpenWebsite.formatted_kb_shortcut(Platform::Native, os, false), None);
}

#[test]
fn no_two_commands_share_a_shortcut() {
    for os in [OperatingSystem::Nix, OperatingSystem::Mac, OperatingSystem::Windows] {
        let table = UICommand::shortcut_table(NATIVE_DEBUG, os);
        assert!(table.len() > 20);
        for (i, (a, _)) in table.iter().enumerate() {
            for (b, _) in &table[i + 1..] {
                assert!(a != b, "{a:?}");
            }
        }
    }
}

#[test]
fn links_have_an_icon() {
    assert_eq!(UICommand::OpenWebHelp.icon(), Some(Icon::ExternalLink));
    assert_eq!(UICommand::OpenWebsite.icon(), Some(Icon::ExternalLink));
    assert_eq!(UICommand::OpenRerunDiscord.icon(), Some(Icon::Discord));
    assert_eq!(UICommand::Open.icon(), None);
    assert!(UICommand::OpenWebHelp.is_link());
    assert!(!UICommand::OpenWebsite.is_link());
}

#[test]
fn a_menu_button_shows_its_command() {
    let button =
        UICommand::OpenWebHelp.menu_button(NATIVE, Language::Chinese, OperatingSystem::Nix, false);
    assert_eq!(button.text, "文档");
    assert_eq!(button.icon, Some(Icon::ExternalLink));
    assert!(button.pointing_hand);
    assert_eq!(button.shortcut_text, None);
    let button = UICommand::ResetEguiMemory.menu_button(
        NATIVE_DEBUG,
        Language::English,
        OperatingSystem::Nix,
        false,
    );
    assert!(button.debug_badge);
    assert!(!button.pointing_hand);
    assert!(UICommand::ResetEguiMemory.is_debug_only());
    let content =
        UICommand::Open.tooltip_content(Platform::Native, Language::English, OperatingSystem::Nix);
    assert_eq!(content.label, "Open file…");
    assert_eq!(content.shortcut, Some(cmd(Key::O)));
    assert_eq!(content.details, UICommand::Open.tooltip(Platform::Native, Language::English));
}

#[test]
fn recording_commands_name_their_recording() {
    let commands = RecordingCommand::all_for_recording(&recording(), NATIVE);
    assert_eq!(commands.len(), RecordingCommandKind::all(NATIVE).len());
    assert!(commands.iter().all(|c| c.recording_id.is_same(&recording())));
    assert_eq!(commands[0].kind, RecordingCommandKind::Save);

    let env = CommandEnvironment { recording: Some(recording()) };
    let command = RecordingCommandKind::Undo.for_environment(&env).unwrap();
    assert_eq!(command.kind, RecordingCommandKind::Undo);
    assert_eq!(command.recording_id.recording_id, "rec");
    assert!(RecordingCommandKind::Undo.for_environment(&CommandEnvironment { recording: None }).is_none());
}

#[test]
fn a_build_lists_its_recording_commands() {
    let native = RecordingCommandKind::all(NATIVE);
    assert_eq!(native.len(), 24);
    assert_eq!(RecordingCommandKind::all(WEB).len(), 21);
    assert!(native.contains(&RecordingCommandKind::PrintChunkStore));
    assert!(!RecordingCommandKind::all(WEB).contains(&RecordingCommandKind::PrintChunkStore));
    assert!(native.contains(&RecordingCommandKind::PlaybackSpeed(SetPlaybackSpeed::default())));
    assert!(!RecordingCommandKind::ToggleBlueprintInspectionPanel.is_in(NATIVE));
    assert!(RecordingCommandKind::ToggleBlueprintInspectionPanel.is_in(NATIVE_DEBUG));
}

#[test]
fn redo_differs_by_system() {
    let redo = RecordingCommandKind::Redo;
    assert_eq!(
        redo.kb_shortcuts(OperatingSystem::Mac).into_vec(),
        vec![cmd_shift(Key::Z), cmd(Key::Y)]
    );
    assert_eq!(
        redo.kb_shortcuts(OperatingSystem::Nix).into_vec(),
        vec![ctrl(Key::Y), ctrl_shift(Key::Z)]
    );
    assert_eq!(redo.primary_kb_shortcut(OperatingSystem::Mac), Some(cmd_shift(Key::Z)));
    assert_eq!(redo.formatted_kb_shortcut(OperatingSystem::Nix, false).as_deref(), Some("Ctrl+Y"));
    let speed = RecordingCommandKind::PlaybackSpeed(SetPlaybackSpeed::default());
    assert_eq!(speed.formatted_kb_shortcut(OperatingSystem::Nix, false).as_deref(), Some("01-99"));
}

#[test]
fn a_recording_button_needs_a_recording() {
    let close = RecordingCommandKind::Close;
    let id = recording();
    assert!(close.menu_button_enabled(Some(&id)));
    assert!(!close.menu_button_enabled(None));
    assert!(close.on_menu_button(None, true).is_none());
    assert!(close.on_menu_button(Some(&id), false).is_none());
    assert_eq!(close.on_menu_button(Some(&id), true).unwrap().kind, close);
    let command = RecordingCommand { recording_id: recording(), kind: close };
    assert!(command.on_menu_button(false).is_none());
    let command = RecordingCommand { recording_id: recording(), kind: close };
    assert_eq!(command.on_menu_button(true).unwrap().kind, close);
    let button = close.menu_button(NATIVE, OperatingSystem::Nix, false);
    assert_eq!(button.text, close.text());
    assert_eq!(button.tooltip, close.tooltip());
    assert!(!button.pointing_hand);
    assert_eq!(close.text_and_tooltip(), (close.text(), close.tooltip()));
    assert_eq!(close.tooltip_content(OperatingSystem::Nix).shortcut, None);
}

#[test]
fn playback_belongs_to_the_timeline() {
    assert!(RecordingCommandKind::PlaybackBack.is_timeline());
    assert!(!RecordingCommandKind::Save.is_timeline());
}

fn press(digit: Option<usize>, now_ms: u64) -> ChordInput {
    let mut pressed = [false; 10];
    if let Some(digit) = digit {
        pressed[digit] = true;
    }
    ChordInput {
        text_edit_focused: false,
        pressed,
        held_keys: vec![],
        modifiers: false,
        now: now_ms * 1_000_000,
    }
}

fn speed(numerator: u32, denominator: u32) -> Option<RecordingCommandKind> {
    Some(RecordingCommandKind::PlaybackSpeed(SetPlaybackSpeed { numerator, denominator }))
}

fn feed(chord: &mut PlaybackChord, input: &ChordInput) -> Option<RecordingCommandKind> {
    RecordingCommandKind::handle_playback_chord(chord, input)
}

#[test]
fn digits_spell_a_speed() {
    let mut chord = PlaybackChord::new();
    assert_eq!(feed(&mut chord, &press(Some(1), 0)), speed(1, 1));
    assert_eq!(feed(&mut chord, &press(None, 100)), None);
    assert_eq!(feed(&mut chord, &press(Some(2), 400)), speed(12, 1));
    assert_eq!(chord.speed(), speed(12, 1));
}

#[test]
fn leading_zeros_divide() {
    let mut chord = PlaybackChord::new();
    assert_eq!(feed(&mut chord, &press(Some(0), 0)), None);
    assert_eq!(feed(&mut chord, &press(Some(5), 1)), speed(5, 10));
    let mut chord = PlaybackChord::new();
    feed(&mut chord, &press(Some(0), 0));
    feed(&mut chord, &press(Some(0), 1));
    assert_eq!(feed(&mut chord, &press(Some(5), 2)), speed(5, 100));
}

#[test]
fn a_chord_times_out() {
    let mut chord = PlaybackChord::new();
    feed(&mut chord, &press(Some(1), 0));
    assert_eq!(feed(&mut chord, &press(Some(2), 499)), speed(12, 1));
    assert_eq!(feed(&mut chord, &press(Some(3), 999)), speed(3, 1));
    feed(&mut chord, &press(None, 5000));
    assert_eq!(chord.last_key_time, None);
    assert!(chord.digits.is_empty());
}

#[test]
fn other_keys_end_a_chord() {
    let mut chord = PlaybackChord::new();
    feed(&mut chord, &press(Some(1), 0));
    let mut input = press(Some(2), 1);
    input.modifiers = true;
    assert_eq!(feed(&mut chord, &input), None);
    assert!(chord.digits.is_empty());

    feed(&mut chord, &press(Some(1), 2));
    let mut input = press(Some(2), 3);
    input.held_keys = vec![Some(2), None];
    assert_eq!(feed(&mut chord, &input), None);
    assert!(chord.digits.is_empty());
}

#[test]
fn a_text_field_keeps_the_keys() {
    let mut chord = PlaybackChord::new();
    feed(&mut chord, &press(Some(1), 0));
    let mut input = press(Some(2), 1);
    input.text_edit_focused = true;
    assert_eq!(feed(&mut chord, &input), None);
    assert_eq!(chord.digits, vec![1]);
}

#[test]
fn a_held_key_comes_to_an_end() {
    let mut chord = PlaybackChord::new();
    for i in 0..20 {
        assert_eq!(feed(&mut chord, &press(Some(0), i)), None);
    }
    assert_eq!(chord.digits.len(), 8);
    assert_eq!(feed(&mut chord, &press(Some(7), 21)), None);
    let mut chord = PlaybackChord::new();
    for i in 0..20 {
        feed(&mut chord, &press(Some(9), i));
    }
    assert_eq!(chord.speed(), speed(99_999_999, 1));
}

#[test]
fn the_lowest_key_counts() {
    let mut chord = PlaybackChord::new();
    let mut input = press(Some(7), 0);
    input.pressed[3] = true;
    assert_eq!(feed(&mut chord, &input), speed(3, 1));
}

#[test]
fn labels_are_distinct() {
    let debug = Build { platform: Platform::Web, debug: true };
    for language in [Language::English, Language::Chinese] {
        for build in [NATIVE_DEBUG, debug] {
            let mut labels: Vec<&str> =
                UICommand::all(build).into_iter().map(|c| c.text(language)).collect();
            let count = labels.len();
            labels.sort();
            labels.dedup();
            assert_eq!(labels.len(), count);
        }
    }
    let kinds = RecordingCommandKind::all(NATIVE_DEBUG);
    let mut labels: Vec<&str> = kinds.iter().map(|k| k.text()).collect();
    labels.sort();
    labels.dedup();
    assert_eq!(labels.len(), kinds.len());
}

#[test]
fn a_click_sends_the_command() {
    assert_eq!(UICommand::Quit.on_menu_button(true), Some(UICommand::Quit));
    assert_eq!(UICommand::Quit.on_menu_button(false), None);
}
