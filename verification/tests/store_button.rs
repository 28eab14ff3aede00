use viewer_logic::effects::{Effect, Route, StreamCommand, SystemCommand};
use viewer_logic::hidden_recordings::HiddenRecordings;
use viewer_logic::i18n::Language;
use viewer_logic::icons::Icon;
use viewer_logic::store_button::{
    downloading_label, store_reference, store_row, DownloadProgress, DownloadTotal, LoadPhase,
    RowAction, RowLook, RowMenuAction, RowMenuFacts, StoreFacts, StoreReference,
    ANNOUNCED_MAX_BYTES,
};
use viewer_logic::store_id::{StoreId, StoreKind};

fn id(recording: &str) -> StoreId {
    StoreId {
        kind: StoreKind::Recording,
        application_id: "app".to_owned(),
        recording_id: recording.to_owned(),
    }
}

fn facts() -> StoreFacts {
    StoreFacts {
        store_id: id("rec"),
        recording_name: Some("ep 1 · 42 frames".to_owned()),
        segment_id: None,
        started: None,
        utc_offset: 0,
        size: 1_000_000,
        size_text: "1 MB".to_owned(),
        loading: false,
        failure: None,
        progress: None,
        streaming: true,
        dataset_paused: false,
        parked: false,
        failed: false,
        more_placeholder: false,
        hidden: false,
        artifact_url: None,
    }
}

fn progress() -> DownloadProgress {
    DownloadProgress {
        phase: LoadPhase::Downloading,
        kind: Some("mcap".to_owned()),
        done: "10 MB".to_owned(),
        total: Some(DownloadTotal { text: "40 MB".to_owned(), percent: 25 }),
        rate: "2 MB".to_owned(),
        eta_nanos: None,
    }
}

fn same<T: std::fmt::Debug>(a: &T, b: &T) {
    assert_eq!(format!("{a:?}"), format!("{b:?}"));
}

#[test]
fn the_given_name_comes_first() {
    let mut f = facts();
    f.segment_id = Some("segment".to_owned());
    f.started = Some(0);
    assert_eq!(f.name(), "ep 1 · 42 frames");
    f.recording_name = None;
    assert_eq!(f.name(), "segment");
    f.segment_id = None;
    assert_eq!(f.name(), "00:00:00");
    f.started = None;
    assert_eq!(f.name(), "<unknown>");
}

#[test]
fn the_start_is_told_by_local_clocks() {
    let mut f = facts();
    f.recording_name = None;
    f.started = Some((13 * 3600 + 5 * 60 + 9) * 1_000_000_000 + 999_999_999);
    assert_eq!(f.name(), "13:05:09");
    f.utc_offset = 8 * 3600;
    assert_eq!(f.name(), "21:05:09");
    f.utc_offset = 11 * 3600;
    assert_eq!(f.name(), "00:05:09");
    // Before the epoch, and half a second into a second.
    f.utc_offset = 0;
    f.started = Some(-500_000_000);
    assert_eq!(f.name(), "23:59:59");
    f.started = Some(i64::MIN);
    assert_eq!(f.name(), "00:12:43");
    f.started = Some(i64::MAX);
    assert_eq!(f.name(), "23:47:16");
    f.utc_offset = 93_600;
    assert_eq!(f.name(), "<unknown>");
}

#[test]
fn the_title_tells_the_size() {
    let f = facts();
    assert_eq!(f.title(false), "ep 1 · 42 frames - 1 MB");
    assert_eq!(f.title(true), "app - ep 1 · 42 frames - 1 MB");
}

#[test]
fn the_title_tells_the_progress() {
    let mut f = facts();
    f.loading = true;
    f.progress = Some(progress());
    assert_eq!(f.title(false), "ep 1 · 正在下载 mcap 25%");
    f.progress = Some(DownloadProgress { eta_nanos: Some(89_500_000_000), ..progress() });
    assert_eq!(f.title(false), "ep 1 · 正在下载 mcap 25% · 约剩 90 秒");
    f.progress = Some(DownloadProgress { eta_nanos: Some(88_500_000_000), ..progress() });
    assert_eq!(f.title(false), "ep 1 · 正在下载 mcap 25% · 约剩 88 秒");
    f.progress = Some(DownloadProgress { eta_nanos: Some(90_000_000_000), ..progress() });
    assert_eq!(f.title(false), "ep 1 · 正在下载 mcap 25% · 约剩 2 分钟");
    f.progress = Some(DownloadProgress { eta_nanos: Some(120_000_000_001), ..progress() });
    assert_eq!(f.title(true), "app - ep 1 · 正在下载 mcap 25% · 约剩 3 分钟");
    f.progress = Some(DownloadProgress { total: None, kind: None, ..progress() });
    assert_eq!(f.title(false), "ep 1 · 正在下载 10 MB");
    f.progress = Some(DownloadProgress {
        total: Some(DownloadTotal { text: "1 MB".to_owned(), percent: 140 }),
        ..progress()
    });
    assert_eq!(f.title(false), "ep 1 · 正在下载 mcap 100%");
    f.progress = Some(DownloadProgress { phase: LoadPhase::Converting, ..progress() });
    assert_eq!(f.title(false), "ep 1 · 正在转换…");
    // Progress of what is not being downloaded is old.
    f.loading = false;
    assert_eq!(f.title(false), "ep 1 · 42 frames - 1 MB");
}

#[test]
fn rows_look_as_they_are() {
    let mut f = facts();
    assert_eq!(f.look(), RowLook::Plain(Icon::Recording));
    f.hidden = true;
    assert_eq!(f.look(), RowLook::Subdued(Icon::Recording));
    f.hidden = false;
    f.size = ANNOUNCED_MAX_BYTES;
    assert!(f.is_queued());
    assert_eq!(f.look(), RowLook::Subdued(Icon::Recording));
    f.loading = true;
    assert_eq!(f.look(), RowLook::Downloading);
    f.dataset_paused = true;
    assert_eq!(f.look(), RowLook::Paused);
    f.failure = Some("no".to_owned());
    assert_eq!(f.look(), RowLook::Failed(Icon::Recording));
    f.store_id.kind = StoreKind::Blueprint;
    assert_eq!(f.look(), RowLook::Failed(Icon::Blueprint));
    assert_eq!(downloading_label(Language::English), "downloading episode");
}

#[test]
fn only_announced_episodes_are_queued() {
    let mut f = facts();
    f.size = 0;
    assert!(f.is_queued());
    f.more_placeholder = true;
    assert!(!f.is_queued());
    f.more_placeholder = false;
    f.streaming = false;
    assert!(!f.is_queued());
    f.streaming = true;
    f.size = ANNOUNCED_MAX_BYTES + 1;
    assert!(!f.is_queued());
}

#[test]
fn a_row_offers_what_can_be_done() {
    let mut f = facts();
    let b = f.buttons();
    assert_eq!((b.eye, b.download), (Some(RowAction::Hide), Some(RowAction::DownloadAgain)));
    assert!(b.download_enabled && !b.always_shown);
    f.parked = true;
    assert_eq!(f.buttons().download, Some(RowAction::ResumeDownload));
    f.loading = true;
    assert_eq!(f.buttons().download, Some(RowAction::PauseDownload));
    f.dataset_paused = true;
    assert!(!f.buttons().download_enabled);
    f.hidden = true;
    let b = f.buttons();
    assert_eq!((b.eye, b.download), (Some(RowAction::Show), None));
    assert!(b.always_shown);
    f.more_placeholder = true;
    assert_eq!(f.buttons().eye, None);
    f.streaming = false;
    let b = f.buttons();
    assert_eq!((b.eye, b.download, b.download_enabled), (None, None, true));
    let mut f = facts();
    f.size = 0;
    assert_eq!(f.buttons().download, None);
    f.failed = true;
    assert_eq!(f.buttons().download, Some(RowAction::DownloadAgain));
}

#[test]
fn buttons_do_what_they_say() {
    let mut f = facts();
    same(
        &f.on_action(RowAction::Close),
        &vec![Effect::System(SystemCommand::CloseRecording(id("rec")))],
    );
    same(&f.on_action(RowAction::Show), &vec![Effect::Unhide(id("rec"))]);
    same(&f.on_action(RowAction::Hide), &vec![Effect::Hide(id("rec"))]);
    f.loading = true;
    same(
        &f.on_action(RowAction::Hide),
        &vec![Effect::Hide(id("rec")), Effect::Stream(StreamCommand::Park(id("rec")))],
    );
    same(
        &f.on_action(RowAction::PauseDownload),
        &vec![Effect::Stream(StreamCommand::PauseCurrentItem("app".to_owned()))],
    );
    same(
        &f.on_action(RowAction::ResumeDownload),
        &vec![Effect::Stream(StreamCommand::Prioritize(id("rec")))],
    );
    same(
        &f.on_action(RowAction::DownloadAgain),
        &vec![
            Effect::Stream(StreamCommand::Redownload(id("rec"))),
            Effect::System(SystemCommand::CloseRecording(id("rec"))),
        ],
    );
}

#[test]
fn a_click_opens_a_recording_and_no_blueprint() {
    let mut f = facts();
    same(
        &f.on_click(),
        &Some(Effect::System(SystemCommand::SetRoute(Route::LocalRecording(id("rec"))))),
    );
    f.store_id.kind = StoreKind::Blueprint;
    assert!(f.on_click().is_none());
}

#[test]
fn buttons_have_texts() {
    let zh = Language::Chinese;
    assert_eq!(RowAction::Hide.label(zh), "隐藏这个 episode");
    assert_eq!(RowAction::Hide.hint(StoreKind::Recording, zh), "隐藏这个 episode");
    assert_eq!(RowAction::Close.hint(StoreKind::Recording, zh), "关闭这个录制文件");
    assert_eq!(
        RowAction::Close.hint(StoreKind::Blueprint, Language::English),
        "Close this blueprint (unsaved data will be lost)"
    );
    assert_eq!(RowAction::DownloadAgain.icon(), Icon::Reset);
    assert_eq!(RowAction::Show.icon(), Icon::Visible);
}

#[test]
fn hovering_explains_the_row() {
    let mut f = facts();
    assert!(f.hover_texts().is_empty());
    f.size = 0;
    f.artifact_url = Some("tos://b/x.rrd".to_owned());
    assert_eq!(
        f.hover_texts(),
        vec![
            "尚未下载 — 点击后移到下载队列最前。".to_owned(),
            "rrd artifact：tos://b/x.rrd".to_owned(),
        ]
    );
    f.failure = Some("HTTP 404".to_owned());
    f.loading = true;
    f.progress = Some(progress());
    assert_eq!(
        f.hover_texts(),
        vec![
            "HTTP 404".to_owned(),
            "rrd artifact：tos://b/x.rrd".to_owned(),
            "正在下载：10 MB / 40 MB · 2 MB/s".to_owned(),
        ]
    );
    f.progress = Some(DownloadProgress { total: None, ..progress() });
    assert_eq!(f.hover_texts()[2], "正在下载：10 MB / 大小未知 · 2 MB/s");
}

#[test]
fn the_menu_follows_the_facts() {
    let mut f = facts();
    let mut m = RowMenuFacts {
        link: Ok("https://v/?url=x".to_owned()),
        dataset_url: Some("tos://b/d/".to_owned()),
        episode: Some(3),
        deleting: false,
        delete_permission: None,
    };
    let menu = f.menu(&m);
    assert!(menu.can_copy_link && menu.artifact.is_none());
    same(
        &f.on_menu(&m, RowMenuAction::CopyLink),
        &Some(Effect::System(SystemCommand::CopyViewerUrl("https://v/?url=x".to_owned()))),
    );
    same(
        &f.on_menu(&m, RowMenuAction::CopyName),
        &Some(Effect::CopyText("ep 1 · 42 frames".to_owned())),
    );
    assert!(f.on_menu(&m, RowMenuAction::CopyArtifactUrl).is_none());
    assert!(f.on_menu(&m, RowMenuAction::DeleteArtifact).is_none());

    f.artifact_url = Some("tos://b/x.rrd".to_owned());
    assert!(f.menu(&m).artifact.unwrap().can_delete);
    same(
        &f.on_menu(&m, RowMenuAction::CopyArtifactUrl),
        &Some(Effect::CopyText("tos://b/x.rrd".to_owned())),
    );
    match f.on_menu(&m, RowMenuAction::DeleteArtifact) {
        Some(Effect::RequestDeletion(r)) => {
            assert_eq!(r.application_id, "app");
            assert_eq!(r.dataset_url, "tos://b/d/");
            assert_eq!(r.episode, Some(3));
            assert_eq!(r.target_url, "tos://b/x.rrd");
        }
        other => panic!("{other:?}"),
    }
    m.deleting = true;
    let artifact = f.menu(&m).artifact.unwrap();
    assert!(!artifact.can_delete);
    assert_eq!(artifact.no_delete_hint, "正在删除…");
    m.delete_permission = Some(false);
    assert_eq!(f.menu(&m).artifact.unwrap().no_delete_hint, "当前凭证没有删除权限");
    m.link = Err("no server".to_owned());
    let menu = f.menu(&m);
    assert!(!menu.can_copy_link);
    assert_eq!(menu.no_link_hint, "无法复制该片段的链接：no server");
    assert!(f.on_menu(&m, RowMenuAction::CopyLink).is_none());
    assert_eq!(RowMenuAction::CopyName.label(), "复制片段名称");
}

#[test]
fn a_row_is_put_together() {
    let f = facts();
    let other = StoreId { recording_id: "other".to_owned(), ..f.store_id.clone() };
    let row = store_row(&f, true, false, &vec![other, f.store_id.clone()]);
    assert_eq!(row.title, f.title(false));
    assert_eq!(row.look, f.look());
    assert_eq!(row.buttons, Some(f.buttons()));
    assert_eq!(row.hover_texts, f.hover_texts());
    assert!(row.active);
    let row = store_row(&f, false, true, &vec![]);
    assert_eq!(row.buttons, None);
    assert_eq!(row.title, f.title(true));
    assert!(!row.active);
    let other = StoreId { application_id: "other".to_owned(), ..f.store_id.clone() };
    assert!(!store_row(&f, false, true, &vec![other]).active);
}

#[test]
fn unknown_stores_are_named() {
    let f = facts();
    let title = f.title(true);
    let active = vec![f.store_id.clone()];
    match store_reference(&Some(f), &"the id".to_owned(), true, &active) {
        StoreReference::Row(row) => {
            assert_eq!(row.title, title);
            assert!(row.active);
            assert!(row.buttons.is_some());
        }
        other => panic!("{other:?}"),
    }
    match store_reference(&None, &"the id".to_owned(), true, &active) {
        StoreReference::Unknown(label, hover) => {
            assert_eq!(label, "<unknown store>");
            assert_eq!(hover, "the id");
        }
        other => panic!("{other:?}"),
    }
}

#[test]
fn copying_a_name_is_announced() {
    let mut f = facts();
    f.recording_name = Some("a \"b\"\n".to_owned());
    let notice = f.menu_notice(RowMenuAction::CopyName);
    assert_eq!(notice, Some("已复制 \"a \\\"b\\\"\\n\" 到剪贴板".to_owned()));
    assert_eq!(f.menu_notice(RowMenuAction::CopyLink), None);
    assert_eq!(f.menu_notice(RowMenuAction::CopyArtifactUrl), None);
}

#[test]
fn recordings_are_hidden_one_by_one() {
    let mut hidden = HiddenRecordings::new();
    assert!(!hidden.is_hidden(&id("a")));
    hidden.hide_recording(id("a"));
    hidden.hide_recording(id("a"));
    assert!(hidden.is_hidden(&id("a")));
    assert!(!hidden.is_hidden(&id("b")));
    let blueprint = StoreId { kind: StoreKind::Blueprint, ..id("a") };
    assert!(!hidden.is_hidden(&blueprint));
    hidden.hide_recording(id("b"));
    hidden.unhide(&id("a"));
    assert!(!hidden.is_hidden(&id("a")));
    assert!(hidden.is_hidden(&id("b")));
    hidden.unhide(&id("a"));
    assert!(!hidden.is_hidden(&id("a")));
}

#[test]
fn ids_are_compared_as_a_whole() {
    assert!(id("a").is_same(&id("a").clone()));
    assert!(!id("a").is_same(&id("b")));
    assert!(id("a").is_recording());
}
