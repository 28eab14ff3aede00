use viewer_logic::i18n::Language;
use viewer_logic::platform::Platform;
use viewer_logic::settings::{
    budget_text, example_timestamp, ffmpeg_path, keep_open, limit_from_bytes, parse_budget,
    persistence_message, settings_screen, settings_texts, AppSwitches, FetchStage, FfmpegStatus,
    LabelKind, LogLevel, MemoryLimit, SettingsEntry, SettingsSection, Switch, TimestampFormat,
    BYTES_PER_GIB, UPPER_LIMIT_BYTES,
};

fn switches() -> AppSwitches {
    AppSwitches {
        include_rerun_examples_button_in_recordings_panel: true,
        visualizer_limits_enabled: false,
        custom_window_decorations: false,
        show_metrics: false,
        show_notification_toasts: true,
        table_cards_and_blueprints: false,
        point_cloud_transparency: false,
        use_internal_catalog: false,
        gamepad_navigation: true,
    }
}

#[test]
fn switches_are_set_one_by_one() {
    let mut s = switches();
    assert!(!s.set(Switch::Metrics, true));
    assert!(s.get(Switch::Metrics) && s.get(Switch::Toasts) && !s.get(Switch::TableCards));
    assert!(s.set(Switch::Gamepad, false));
    assert!(!s.set(Switch::Gamepad, false));
    assert!(!s.set(Switch::Gamepad, true));
    assert_eq!(Switch::Metrics.label(), "显示性能指标");
    assert_eq!(Switch::Metrics.hint(), Some("在顶部栏显示每帧耗时（毫秒）和内存占用"));
    assert_eq!(Switch::ExamplesButton.hint(), None);
}

#[test]
fn the_screen_fits_the_platform() {
    let native = settings_screen(Platform::Native, false, true);
    assert_eq!(native[0], SettingsEntry::Section(SettingsSection::General));
    assert!(native.contains(&SettingsEntry::Checkbox(Switch::Gamepad)));
    assert!(!native.contains(&SettingsEntry::PersistentStorage));
    assert!(!native.contains(&SettingsEntry::Checkbox(Switch::WindowDecorations)));
    let web = settings_screen(Platform::Web, true, true);
    assert!(web.contains(&SettingsEntry::PersistentStorage));
    assert!(web.contains(&SettingsEntry::Checkbox(Switch::WindowDecorations)));
    assert!(!web.contains(&SettingsEntry::Checkbox(Switch::Gamepad)));
    assert!(!settings_screen(Platform::Web, true, false).contains(&SettingsEntry::PersistentStorage));
    assert_eq!(SettingsSection::Video.heading(Language::English), "视频");
    assert_eq!(SettingsSection::General.heading(Language::English), "General");
    assert_eq!(settings_texts(Language::Chinese).title, "设置");
}

#[test]
fn the_screen_closes() {
    assert!(keep_open(true, false, false));
    assert!(!keep_open(true, true, false));
    assert!(!keep_open(true, false, true));
    assert!(!keep_open(false, false, false));
}

#[test]
fn numbers_alone_are_gibibytes() {
    assert_eq!(parse_budget(" 16 ", None), Some(16 * BYTES_PER_GIB));
    assert_eq!(parse_budget("0", Some(5)), Some(0));
    assert_eq!(parse_budget("1000", None), Some(UPPER_LIMIT_BYTES));
    assert_eq!(parse_budget("99999999999999999999999999", None), Some(UPPER_LIMIT_BYTES));
    assert_eq!(parse_budget("007", None), Some(7 * BYTES_PER_GIB));
}

#[test]
fn amounts_with_a_unit_are_taken() {
    assert_eq!(parse_budget("2 GB", Some(2_000_000_000)), Some(2_000_000_000));
    assert_eq!(parse_budget("9 EB", Some(u64::MAX)), Some(UPPER_LIMIT_BYTES));
    assert_eq!(parse_budget("much", None), None);
    assert_eq!(parse_budget("", Some(1)), None);
    // Numeric, but no number that can be read.
    assert_eq!(parse_budget("½", Some(1)), None);
    assert_eq!(parse_budget("٣", Some(1)), None);
    // Not numeric: the unit decides.
    assert_eq!(parse_budget("1.5", Some(7)), Some(7));
}

#[test]
fn the_largest_budget_is_none() {
    assert_eq!(limit_from_bytes(5), MemoryLimit::Bytes(5));
    assert_eq!(limit_from_bytes(UPPER_LIMIT_BYTES), MemoryLimit::Unlimited);
    assert_eq!(budget_text(5, &"5 B".to_owned()), "5 B");
    assert_eq!(budget_text(UPPER_LIMIT_BYTES, &"1 TB".to_owned()), "不限");
}

#[test]
fn prefetching_has_stages() {
    assert_eq!(FetchStage::Required.label(), "仅必需");
    let similar = |nanos: u64| FetchStage::Similar(Some(nanos));
    assert_eq!(similar(30_000_000_000).range_label().as_deref(), Some("30s"));
    assert_eq!(similar(1_999_999_999).range_label().as_deref(), Some("1s"));
    assert_eq!(FetchStage::Similar(None).range_label().as_deref(), Some("∞"));
    assert_eq!(FetchStage::Everything.range_label(), None);
    let default = FetchStage::Similar(Some(10_000_000_000));
    assert_eq!(
        FetchStage::choices(default),
        vec![FetchStage::Indicated, default, FetchStage::Everything]
    );
}

#[test]
fn timestamps_have_formats() {
    assert_eq!(TimestampFormat::choices().len(), 4);
    assert_eq!(TimestampFormat::Utc.label(), "UTC");
    assert!(TimestampFormat::LocalTimezoneImplicit.note().is_some());
    assert!(TimestampFormat::LocalTimezone.note().is_none());
    assert_eq!(example_timestamp(), Some(1_676_411_238_000_000_000));
}

#[test]
fn ffmpeg_is_looked_at() {
    let label = |s: FfmpegStatus| s.label();
    assert_eq!(label(FfmpegStatus::Pending).0, LabelKind::Loading);
    assert_eq!(
        label(FfmpegStatus::Version("7.1".to_owned(), true)),
        (LabelKind::Success, "已找到 FFmpeg（版本 7.1）".to_owned())
    );
    assert_eq!(
        label(FfmpegStatus::Version("3.0".to_owned(), false)),
        (LabelKind::Error, "FFmpeg 版本不兼容：3.0".to_owned())
    );
    assert_eq!(label(FfmpegStatus::UnknownVersion("?".to_owned())).0, LabelKind::Warning);
    assert_eq!(label(FfmpegStatus::NotFound).0, LabelKind::Error);
    assert_eq!(
        label(FfmpegStatus::OtherError("e".to_owned())),
        (LabelKind::Error, "e".to_owned())
    );
    assert_eq!(ffmpeg_path(true, &"/f".to_owned()).as_deref(), Some("/f"));
    assert_eq!(ffmpeg_path(false, &"/f".to_owned()), None);
}

#[test]
fn persistent_storage_is_answered() {
    assert_eq!(
        persistence_message(&Ok(true)),
        (LogLevel::Info, "浏览器已授予持久化存储".to_owned())
    );
    assert_eq!(
        persistence_message(&Ok(false)),
        (LogLevel::Warn, "浏览器拒绝了持久化存储请求".to_owned())
    );
    assert_eq!(
        persistence_message(&Err("x".to_owned())),
        (LogLevel::Error, "申请浏览器持久化存储失败：x".to_owned())
    );
}
