use viewer_logic::command::ui_command::UICommand;
use viewer_logic::daft_link::Console;
use viewer_logic::effects::{
    Effect, EntryId, Item, Origin, RedapEntryKind, Route, Scheme, StreamCommand, SystemCommand,
};
use viewer_logic::hidden_recordings::HiddenRecordings;
use viewer_logic::i18n::Language;
use viewer_logic::icons::Icon;
use viewer_logic::platform::Platform;
use viewer_logic::recording_panel::app_rows::{
    diagnose_label, hidden_group_label, AppAction, AppFacts, ArtifactsPlace,
};
use viewer_logic::recording_panel::data::{
    AppIdData, DatasetData, EntryData, EntryTreeNode, SegmentData, ServerData, ServerEntriesData,
    ServerLeafEntry,
};
use viewer_logic::recording_panel::expand::{
    ancestor_folder_paths, expand_folder_nodes_containing_entry, expand_parent_folders_for_entry,
    expand_parents_for_item, Expandable,
};
use viewer_logic::recording_panel::sections::{
    add_menu, add_menu_texts, all_sections, empty_hint, no_segment_link_hint, on_click_welcome,
    on_receiver, panel_title, receiver_notice, AddMenuEntry, PanelContents, ReceiverAction,
    Section,
};
use viewer_logic::recording_panel::server_rows::{
    entries_note, no_dataset_link_hint, on_click_folder, server_title, DatasetMenuAction,
    EntriesNote,
};
use viewer_logic::recording_panel::shift::{
    shift_through_recordings, RecordingPanel, RecordingPanelCommand,
};
use viewer_logic::store_id::{StoreId, StoreKind};

const ZH: Language = Language::Chinese;
const EN: Language = Language::English;

fn same<T: std::fmt::Debug>(a: &T, b: &T) {
    assert_eq!(format!("{a:?}"), format!("{b:?}"));
}

fn id(recording: &str) -> StoreId {
    StoreId {
        kind: StoreKind::Recording,
        application_id: "app".to_owned(),
        recording_id: recording.to_owned(),
    }
}

fn origin(port: u16) -> Origin {
    Origin { scheme: Scheme::RerunHttps, host: "example.com".to_owned(), port }
}

fn entry(n: u128, name: &str) -> EntryData {
    EntryData {
        origin: origin(443),
        entry_id: EntryId { id: n },
        id_text: format!("id-{n}"),
        name: name.to_owned(),
        leaf_name: name.to_owned(),
        icon: Icon::Dataset,
        is_selected: false,
        is_active: false,
    }
}

fn dataset(n: u128, name: &str, segments: Vec<SegmentData>) -> DatasetData {
    DatasetData { entry: entry(n, name), segments }
}

fn folder(path: &str, children: Vec<EntryTreeNode>) -> EntryTreeNode {
    EntryTreeNode::Folder {
        name: path.to_owned(),
        path_prefix: path.to_owned(),
        children,
    }
}

fn leaf(n: u128) -> EntryTreeNode {
    EntryTreeNode::Entry(ServerLeafEntry::Dataset(dataset(n, "d", vec![])))
}

fn server(entry_tree: Vec<EntryTreeNode>) -> ServerData {
    ServerData {
        origin: origin(443),
        is_active: false,
        is_selected: false,
        is_internal: false,
        entries: ServerEntriesData::Loaded { entry_tree },
    }
}

#[test]
fn ancestor_folder_paths_basic() {
    assert_eq!(ancestor_folder_paths("a.b.c"), vec!["a", "a.b", "a.b.c"]);
    assert_eq!(ancestor_folder_paths("a"), vec!["a"]);
    assert_eq!(ancestor_folder_paths(""), Vec::<&str>::new());
}

#[test]
fn ancestor_folder_paths_skip_the_empty_one() {
    assert_eq!(ancestor_folder_paths(".a"), vec![".a"]);
    assert_eq!(ancestor_folder_paths("a."), vec!["a", "a."]);
    assert_eq!(ancestor_folder_paths("数.据"), vec!["数", "数.据"]);
}

fn folders(open: &[Expandable]) -> Vec<String> {
    open.iter()
        .map(|e| match e {
            Expandable::Folder(path) => path.clone(),
            Expandable::Server(origin) => format!("@{}", origin.host),
        })
        .collect()
}

#[test]
fn the_folders_of_an_entry_are_expanded() {
    let nodes = vec![
        folder("x", vec![leaf(1)]),
        folder("a", vec![leaf(2), folder("a.b", vec![leaf(3)])]),
    ];
    let mut open = Vec::new();
    assert!(expand_folder_nodes_containing_entry(&nodes, EntryId { id: 3 }, &mut open));
    assert_eq!(folders(&open), vec!["a.b", "a"]);
    let mut open = Vec::new();
    assert!(!expand_folder_nodes_containing_entry(&nodes, EntryId { id: 9 }, &mut open));
    assert!(open.is_empty());
}

#[test]
fn the_parents_of_an_item_are_expanded() {
    let nodes = vec![folder("a", vec![folder("a.b", vec![leaf(3)])])];
    let servers = vec![server(nodes)];
    let mut open = Vec::new();
    assert!(expand_parent_folders_for_entry(
        &servers,
        &origin(443),
        EntryId { id: 3 },
        &mut open
    ));
    assert_eq!(folders(&open), vec!["a.b", "a"]);
    // A server that is not there has nothing to wait for; one that is still loading has.
    let mut open = Vec::new();
    assert!(expand_parent_folders_for_entry(&servers, &origin(1), EntryId { id: 3 }, &mut open));
    assert!(open.is_empty());
    let loading = vec![ServerData { entries: ServerEntriesData::Loading, ..server(vec![]) }];
    assert!(!expand_parent_folders_for_entry(
        &loading,
        &origin(443),
        EntryId { id: 3 },
        &mut open
    ));

    let item = Item::RedapEntry(origin(443), RedapEntryKind::Entry(EntryId { id: 3 }));
    let mut open = Vec::new();
    assert!(expand_parents_for_item(&servers, &item, &mut open));
    assert_eq!(folders(&open), vec!["@example.com", "a.b", "a"]);

    let item = Item::RedapEntry(origin(443), RedapEntryKind::Folder("a.b.c".to_owned()));
    let mut open = Vec::new();
    assert!(expand_parents_for_item(&servers, &item, &mut open));
    assert_eq!(folders(&open), vec!["@example.com", "a", "a.b", "a.b.c"]);

    let mut open = Vec::new();
    assert!(expand_parents_for_item(&servers, &Item::AppId("app".to_owned()), &mut open));
    assert!(open.is_empty());
}

#[test]
fn stepping_goes_around() {
    let list = vec![id("a"), id("b"), id("c")];
    let select = |name: &str| Some(SystemCommand::SetSelection(Item::StoreId(id(name))));
    same(&shift_through_recordings(Some(0), &list, 1), &select("b"));
    same(&shift_through_recordings(Some(2), &list, 1), &select("a"));
    same(&shift_through_recordings(Some(0), &list, -1), &select("c"));
    same(&shift_through_recordings(Some(1), &list, -4), &select("a"));
    same(&shift_through_recordings(Some(1), &list, 5), &select("a"));
    assert!(shift_through_recordings(None, &list, 1).is_none());
}

#[test]
fn waiting_commands_are_carried_out_once() {
    let list = vec![id("a"), id("b"), id("c")];
    let mut panel = RecordingPanel::new();
    assert!(panel.process_commands(Some(0), &list).is_empty());
    panel.send_command(RecordingPanelCommand::SelectNextRecording);
    panel.send_command(RecordingPanelCommand::SelectPreviousRecording);
    let sent = panel.process_commands(Some(0), &list);
    same(
        &sent,
        &vec![
            SystemCommand::SetSelection(Item::StoreId(id("b"))),
            SystemCommand::SetSelection(Item::StoreId(id("c"))),
        ],
    );
    assert!(panel.process_commands(Some(0), &list).is_empty());
    panel.send_command(RecordingPanelCommand::SelectNextRecording);
    assert!(panel.process_commands(None, &list).is_empty());
}

#[test]
fn servers_are_named_by_their_host() {
    assert_eq!(server_title(&origin(443), false, false, EN), "example.com");
    assert_eq!(server_title(&origin(1234), false, false, EN), "example.com:1234");
    assert_eq!(server_title(&origin(1234), false, true, EN), "example.com:XXXX");
    assert_eq!(server_title(&origin(1234), true, false, ZH), "Viewer 目录");
    let http = Origin { scheme: Scheme::RerunHttp, ..origin(443) };
    assert_eq!(server_title(&http, false, false, EN), "example.com:443");
    assert!(http.is_same(&http.clone()));
    assert!(!http.is_same(&origin(443)));
}

#[test]
fn an_empty_internal_server_is_not_shown() {
    let mut s = server(vec![]);
    assert!(s.is_shown());
    s.is_internal = true;
    assert!(!s.is_shown());
    assert!(!s.offers(true));
    assert!(s.offers(false));
    s.entries = ServerEntriesData::Loaded {
        entry_tree: vec![folder("a", vec![folder("a.b", vec![leaf(1)])])],
    };
    assert!(s.is_shown());
    s.entries = ServerEntriesData::Loaded {
        entry_tree: vec![EntryTreeNode::Entry(ServerLeafEntry::Table(entry(1, "t")))],
    };
    assert!(!s.is_shown());
    s.entries = ServerEntriesData::Loading;
    assert!(!s.is_shown());
    same(
        &s.on_click(),
        &Effect::System(SystemCommand::SetRoute(Route::RedapServer(origin(443)))),
    );
}

#[test]
fn missing_entries_are_explained() {
    assert_eq!(
        entries_note(&ServerEntriesData::Loading, ZH),
        Some(EntriesNote::Loading("Loading server entries"))
    );
    let error = |is_auth_error| ServerEntriesData::Error { message: "m".to_owned(), is_auth_error };
    assert_eq!(entries_note(&error(true), ZH), Some(EntriesNote::Weak("需要身份验证")));
    assert_eq!(entries_note(&error(false), EN), Some(EntriesNote::Error("Failed to load entries")));
    assert_eq!(entries_note(&ServerEntriesData::Loaded { entry_tree: vec![] }, EN), None);
}

#[test]
fn clicks_select_and_show() {
    let kind = || RedapEntryKind::Folder("a.b".to_owned());
    same(
        &on_click_folder(&origin(443), &"a.b".to_owned()),
        &vec![
            Effect::System(SystemCommand::SetSelection(Item::RedapEntry(origin(443), kind()))),
            Effect::System(SystemCommand::SetRoute(Route::RedapEntry(origin(443), kind()))),
        ],
    );
    let e = entry(7, "d");
    let select = || Effect::System(SystemCommand::SetSelection(e.item()));
    let show = || {
        let kind = RedapEntryKind::Entry(EntryId { id: 7 });
        Effect::System(SystemCommand::SetRoute(Route::RedapEntry(origin(443), kind)))
    };
    same(&e.on_click(), &vec![select(), show()]);
    same(&e.on_click_table(), &vec![show(), select()]);
    assert_eq!(ServerLeafEntry::Failed(entry(7, "d"), "m".to_owned()).entry_id().id, 7);
}

#[test]
fn closing_a_dataset_closes_its_segments() {
    let d = dataset(
        1,
        "robots",
        vec![
            SegmentData::Loaded(id("a")),
            SegmentData::Loading("b".to_owned()),
            SegmentData::Loaded(id("c")),
        ],
    );
    same(
        &d.on_close(),
        &vec![
            Effect::System(SystemCommand::CloseRecording(id("a"))),
            Effect::System(SystemCommand::CloseRecording(id("c"))),
        ],
    );
    let row = d.row(ZH);
    assert_eq!(row.close, Some("关闭数据集"));
    assert!(row.has_children);
    assert_eq!(row.hover_text, "数据集：robots");
    let row = dataset(1, "robots", vec![]).row(EN);
    assert_eq!((row.close, row.has_children), (None, false));
    assert_eq!(row.hover_text, "Dataset: robots");
}

#[test]
fn the_menu_of_a_dataset_copies() {
    let d = dataset(5, "robots", vec![]);
    let link = Some("https://v".to_owned());
    same(
        &d.on_menu(DatasetMenuAction::CopyLink, &link),
        &Some(Effect::System(SystemCommand::CopyViewerUrl("https://v".to_owned()))),
    );
    assert!(d.on_menu(DatasetMenuAction::CopyLink, &None).is_none());
    same(
        &d.on_menu(DatasetMenuAction::CopyName, &None),
        &Some(Effect::CopyText("robots".to_owned())),
    );
    same(
        &d.on_menu(DatasetMenuAction::CopyId, &None),
        &Some(Effect::CopyText("id-5".to_owned())),
    );
    assert_eq!(
        d.menu_notice(DatasetMenuAction::CopyName, EN),
        Some("Copied \"robots\" to clipboard".to_owned())
    );
    assert_eq!(
        d.menu_notice(DatasetMenuAction::CopyId, ZH),
        Some("已把 \"id-5\" 复制到剪贴板".to_owned())
    );
    assert_eq!(d.menu_notice(DatasetMenuAction::CopyLink, EN), None);
    assert_eq!(DatasetMenuAction::CopyId.label(ZH), "复制数据集 ID");
    assert_eq!(no_dataset_link_hint(EN), "Can't copy a link to this dataset");
}

fn app() -> AppIdData {
    AppIdData {
        app_id: "tos://b/d/".to_owned(),
        name: "d".to_owned(),
        is_active: false,
        is_selected: false,
        loaded_recordings: vec![id("a"), id("b"), id("c")],
    }
}

fn app_facts() -> AppFacts {
    AppFacts {
        streaming: true,
        dataset_paused: false,
        dataset_url: None,
        region: Some("cn-beijing".to_owned()),
        artifact_count: 2,
        artifacts: Some(ArtifactsPlace { bucket: "b".to_owned(), dir: "x/".to_owned() }),
        deleting: false,
        delete_permission: None,
    }
}

#[test]
fn a_paused_dataset_says_so() {
    let mut f = app_facts();
    assert_eq!(app().row_text(&f, ZH), "d");
    f.dataset_paused = true;
    assert_eq!(app().row_text(&f, ZH), "⏸ 已暂停 · d");
    f.streaming = false;
    assert_eq!(app().row_text(&f, ZH), "d");
}

#[test]
fn the_buttons_of_a_dataset() {
    let console = Console::new(Platform::Web);
    let mut f = app_facts();
    let b = app().buttons(&f, &console, EN).unwrap();
    assert!(!b.always_shown);
    assert_eq!(b.pause, Some((Icon::Pause, "Pause downloading this dataset")));
    assert_eq!(b.close_hint, "Close dataset");
    assert_eq!(
        b.diagnose.as_deref(),
        Some("/curation?dataset=tos%3A%2F%2Fb%2Fd%2F&region=cn-beijing")
    );
    same(
        &app().on_action(&f, AppAction::TogglePause),
        &Effect::Stream(StreamCommand::SetDatasetPaused("tos://b/d/".to_owned(), true)),
    );
    f.dataset_paused = true;
    let b = app().buttons(&f, &console, EN).unwrap();
    assert!(b.always_shown);
    assert_eq!(b.pause, Some((Icon::Play, "Resume downloading this dataset")));
    same(
        &app().on_action(&f, AppAction::TogglePause),
        &Effect::Stream(StreamCommand::SetDatasetPaused("tos://b/d/".to_owned(), false)),
    );
    f.streaming = false;
    assert_eq!(app().buttons(&f, &console, EN).unwrap().pause, None);
    let empty = AppIdData { loaded_recordings: vec![], ..app() };
    assert!(empty.buttons(&f, &console, EN).is_none());
    same(
        &app().on_action(&f, AppAction::Close),
        &Effect::System(SystemCommand::CloseApp("tos://b/d/".to_owned())),
    );
    same(
        &app().on_activate(),
        &Effect::System(SystemCommand::ActivateApp("tos://b/d/".to_owned())),
    );
    same(&app().item(), &Item::AppId("tos://b/d/".to_owned()));
    assert_eq!(diagnose_label(ZH).0, "质检");
}

#[test]
fn hidden_episodes_are_grouped() {
    let mut hidden = HiddenRecordings::new();
    hidden.hide_recording(id("b"));
    hidden.hide_recording(id("z"));
    let (shown, rest) = app().partition(&hidden);
    same(&shown, &vec![id("a"), id("c")]);
    same(&rest, &vec![id("b")]);
    assert_eq!(hidden_group_label(&rest, ZH).as_deref(), Some("已隐藏的 episode（1）"));
    assert_eq!(hidden_group_label(&shown, EN).as_deref(), Some("Hidden episodes (2)"));
    assert_eq!(hidden_group_label(&vec![], EN), None);
}

#[test]
fn all_artifacts_of_a_dataset_can_be_deleted() {
    let mut f = app_facts();
    let e = f.delete_all_entry(EN).unwrap();
    assert_eq!(e.label, "Delete all rrd artifacts (2)…");
    assert!(e.enabled);
    let request = app().on_delete_all(&f).unwrap();
    assert_eq!(request.target_url, "tos://b/x/");
    assert_eq!(request.dataset_url, "tos://b/d/");
    assert_eq!(request.episode, None);
    f.deleting = true;
    let e = f.delete_all_entry(ZH).unwrap();
    assert!(!e.enabled);
    assert_eq!(e.disabled_hint, "正在删除…");
    f.delete_permission = Some(false);
    assert_eq!(f.delete_all_entry(ZH).unwrap().disabled_hint, "当前凭证没有删除权限");
    f.artifact_count = 0;
    assert!(f.delete_all_entry(ZH).is_none());
    f.artifacts = None;
    assert!(app().on_delete_all(&f).is_none());
}

#[test]
fn sections_are_there_if_filled() {
    let nothing = PanelContents {
        show_example_section: false,
        is_empty: true,
        servers: 0,
        tos_apps: 0,
        hf_apps: 0,
        local_apps: 0,
        local_tables: 0,
        loading_receivers: 0,
    };
    assert_eq!(all_sections(nothing), vec![Section::EmptyHint]);
    let full = PanelContents {
        show_example_section: true,
        is_empty: false,
        servers: 2,
        tos_apps: 1,
        hf_apps: 3,
        local_apps: 0,
        local_tables: 1,
        loading_receivers: 2,
    };
    assert_eq!(
        all_sections(full),
        vec![
            Section::Welcome,
            Section::Server(0),
            Section::Server(1),
            Section::TosDatasets,
            Section::HfDatasets,
            Section::Local,
            Section::LoadingReceiver(0),
            Section::LoadingReceiver(1),
        ]
    );
    assert_eq!(Section::Local.header(ZH), Some("本地"));
    assert_eq!(Section::Server(0).header(ZH), None);
    assert_eq!(empty_hint(ZH), "点击 + 添加 episode、连接服务器，或直接把文件拖进 Viewer");
    same(&on_click_welcome(), &Effect::System(SystemCommand::SetRoute(Route::Welcome)));
    assert_eq!(panel_title(ZH).0, "数据来源");
}

#[test]
fn the_menu_for_adding_data() {
    let menu = add_menu(false);
    assert_eq!(menu[0], AddMenuEntry::Command(UICommand::Open));
    assert_eq!(menu.last(), Some(&AddMenuEntry::Command(UICommand::OpenHfDataset)));
    let menu = add_menu(true);
    assert_eq!(menu.last(), Some(&AddMenuEntry::PrintPanelData));
    assert_eq!(menu.len(), 11);
    assert_eq!(add_menu_texts(ZH).2, "扩展功能");
}

#[test]
fn a_loading_source_can_be_closed() {
    let source = "rerun://x".to_owned();
    let name = Some("seg".to_owned());
    let link: Result<String, String> = Ok("https://v".to_owned());
    same(
        &on_receiver(&source, &name, &link, ReceiverAction::Disconnect),
        &Some(Effect::Disconnect("rerun://x".to_owned())),
    );
    same(
        &on_receiver(&source, &name, &link, ReceiverAction::CopyLink),
        &Some(Effect::System(SystemCommand::CopyViewerUrl("https://v".to_owned()))),
    );
    same(
        &on_receiver(&source, &name, &link, ReceiverAction::CopyName),
        &Some(Effect::CopyText("seg".to_owned())),
    );
    assert_eq!(
        receiver_notice(&name, ReceiverAction::CopyName, EN),
        Some("Copied \"seg\" to clipboard".to_owned())
    );
    assert_eq!(receiver_notice(&name, ReceiverAction::Disconnect, EN), None);
    assert_eq!(receiver_notice(&None, ReceiverAction::CopyName, EN), None);
    let link: Result<String, String> = Err("no server".to_owned());
    assert!(on_receiver(&source, &name, &link, ReceiverAction::CopyLink).is_none());
    assert_eq!(
        no_segment_link_hint(&link, EN),
        "Can't copy a link to this segment: no server"
    );
    assert_eq!(ReceiverAction::CopyName.label(ZH), "复制分段名称");
}
