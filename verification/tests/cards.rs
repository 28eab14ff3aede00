use viewer_logic::app_card::{
    app_id_label, app_recordings, recordings_of_app, AppRecordings, StartedRecording, UiLayout,
};
use viewer_logic::effects::{Effect, InstancePath, Item, Route, SystemCommand, TimeControlCommand};
use viewer_logic::i18n::Language;
use viewer_logic::icons::Icon;
use viewer_logic::item_ui::{
    entity_all, entity_path_parts, hover_card, instance_item, instance_path_icon,
    instance_path_parts, on_click_table, on_close_table, on_time_button, on_timeline_button,
    table_row, timeline_hint, timeline_is_selected, EntityStats, HoverCard, PathPiece, TimeType,
};
use viewer_logic::platform::{Build, Platform};
use viewer_logic::store_card::{
    single_line, BlueprintFacts, CardRow, Cell, CompactionFacts, DebugFacts, ManifestFacts,
    StoreCardFacts, StoreCardTexts, StoreInfo,
};
use viewer_logic::store_id::{StoreId, StoreKind};

const ZH: Language = Language::Chinese;
const EN: Language = Language::English;

fn same<T: std::fmt::Debug>(a: &T, b: &T) {
    assert_eq!(format!("{a:?}"), format!("{b:?}"));
}

fn id(app: &str, recording: &str) -> StoreId {
    StoreId {
        kind: StoreKind::Recording,
        application_id: app.to_owned(),
        recording_id: recording.to_owned(),
    }
}

fn started(app: &str, recording: &str, started: Option<i64>) -> StartedRecording {
    StartedRecording { store_id: id(app, recording), started }
}

#[test]
fn recordings_of_an_app_are_sorted_by_start() {
    let list = vec![
        started("a", "0", Some(30)),
        started("b", "1", Some(1)),
        started("a", "2", Some(10)),
        started("a", "3", None),
        started("a", "4", Some(10)),
        started("a", "5", None),
    ];
    assert_eq!(recordings_of_app(&list, &"a".to_owned()), vec![3, 5, 2, 4, 0]);
    assert_eq!(recordings_of_app(&list, &"b".to_owned()), vec![1]);
    assert!(recordings_of_app(&list, &"c".to_owned()).is_empty());
}

#[test]
fn an_app_tells_whether_it_is_active() {
    assert_eq!(app_id_label(&"a".to_owned(), &Some("a".to_owned()), EN), "a (active)");
    assert_eq!(app_id_label(&"a".to_owned(), &Some("a".to_owned()), ZH), "a（当前活跃）");
    assert_eq!(app_id_label(&"a".to_owned(), &Some("b".to_owned()), EN), "a");
    assert_eq!(app_id_label(&"a".to_owned(), &None, EN), "a");
}

#[test]
fn the_card_of_an_app_lists_its_recordings() {
    let list = vec![started("a", "0", Some(2)), started("a", "1", Some(1))];
    match app_recordings(&list, &"a".to_owned(), UiLayout::SelectionPanel, "2", EN) {
        AppRecordings::List(heading, order) => {
            assert_eq!(heading, "Loaded recordings for this app");
            assert_eq!(order, vec![1, 0]);
        }
        other => panic!("{other:?}"),
    }
    match app_recordings(&list, &"a".to_owned(), UiLayout::Tooltip, "2", ZH) {
        AppRecordings::Summary(text) => assert_eq!(text, "该应用已加载 2 个录制文件。"),
        other => panic!("{other:?}"),
    }
    assert!(matches!(
        app_recordings(&list, &"z".to_owned(), UiLayout::SelectionPanel, "0", EN),
        AppRecordings::Nothing
    ));
}

#[test]
fn paths_are_shown_part_by_part() {
    let parts = vec!["world".to_owned(), "robot".to_owned()];
    assert_eq!(
        entity_path_parts(&parts),
        vec![
            PathPiece::Slash,
            PathPiece::Entity(1),
            PathPiece::Slash,
            PathPiece::Entity(2),
        ]
    );
    assert_eq!(entity_path_parts(&vec![]), vec![PathPiece::Slash]);
    assert_eq!(
        instance_path_parts(&vec!["a".to_owned()], Some(7)),
        vec![PathPiece::Slash, PathPiece::Entity(1), PathPiece::Instance]
    );
    assert!(instance_path_parts(&vec![], None).is_empty());
}

#[test]
fn entities_have_icons() {
    let entity = entity_all(&"/a".to_owned());
    assert_eq!(entity.instance, None);
    assert_eq!(instance_path_icon(&entity, true, false), Icon::Entity);
    assert_eq!(instance_path_icon(&entity, false, false), Icon::EntityEmpty);
    assert_eq!(instance_path_icon(&entity, true, true), Icon::EntityReserved);
    assert_eq!(instance_path_icon(&entity, false, true), Icon::EntityReservedEmpty);
    same(&instance_item(None, &entity), &Item::InstancePath(entity.clone()));
    same(&instance_item(Some(5), &entity), &Item::DataResult(5, entity.clone()));
}

fn stats() -> EntityStats {
    EntityStats {
        has_children: false,
        include_subtree: false,
        static_rows: 0,
        timeline_rows: 10,
        total_rows_text: "10".to_owned(),
        static_rows_text: "0".to_owned(),
        timeline_rows_text: "10".to_owned(),
        timeline: "frame".to_owned(),
        time_type: TimeType::Sequence,
        timeline_bytes: 100,
        time_range: Some((0, 9)),
        size_text: "100 B".to_owned(),
        rate_text: "11 B".to_owned(),
    }
}

#[test]
fn the_data_of_an_entity_is_counted() {
    let s = stats();
    assert!(s.has_data_rate());
    let (rows, size) = s.lines(ZH).unwrap();
    assert_eq!(rows, "时间轴 'frame' 上有 10 行");
    assert_eq!(size, "占用约 100 B ≈ 11 B / frame");

    let s = EntityStats {
        static_rows: 2,
        static_rows_text: "2".to_owned(),
        total_rows_text: "12".to_owned(),
        has_children: true,
        include_subtree: true,
        time_type: TimeType::TimestampNs,
        ..stats()
    };
    let (rows, size) = s.lines(ZH).unwrap();
    assert_eq!(rows, "共 12 行 = 2 行静态数据 + 时间轴 'frame' 上 10 行（含子树）");
    assert_eq!(size, "占用约 100 B（含子树） ≈ 11 B/s in 'frame'");

    let s = EntityStats {
        static_rows: 2,
        timeline_rows: 0,
        total_rows_text: "2".to_owned(),
        has_children: true,
        ..stats()
    };
    let (rows, size) = s.lines(EN).unwrap();
    assert_eq!(rows, "2 行静态数据 (excluding subtree)");
    assert_eq!(size, "占用约 100 B (excluding subtree)");

    assert!(EntityStats { timeline_rows: 0, ..stats() }.lines(EN).is_none());
}

#[test]
fn a_rate_needs_rows_over_time() {
    assert!(!EntityStats { timeline_rows: 1, ..stats() }.has_data_rate());
    assert!(!EntityStats { timeline_bytes: 0, ..stats() }.has_data_rate());
    assert!(!EntityStats { time_range: Some((3, 3)), ..stats() }.has_data_rate());
    assert!(!EntityStats { time_range: None, ..stats() }.has_data_rate());
}

#[test]
fn unknown_entities_say_so() {
    let entity = entity_all(&"/a".to_owned());
    let instance = InstancePath { instance: Some(1), ..entity.clone() };
    assert_eq!(hover_card(false, &entity, true, ZH), HoverCard::Unknown("未知实体。"));
    assert_eq!(hover_card(true, &entity, true, EN), HoverCard::Known("Entity", true));
    assert_eq!(hover_card(true, &entity, false, EN), HoverCard::Known("Entity", false));
    assert_eq!(hover_card(true, &instance, true, ZH), HoverCard::Known("实体实例", false));
}

#[test]
fn times_and_timelines_can_be_gone_to() {
    assert!(matches!(
        on_time_button(42)[..],
        [
            TimeControlCommand::SetActiveTimeline,
            TimeControlCommand::SetTime(42),
            TimeControlCommand::Pause
        ]
    ));
    assert!(matches!(
        on_timeline_button()[..],
        [TimeControlCommand::SetActiveTimeline, TimeControlCommand::Pause]
    ));
    let log_time = "log_time".to_owned();
    assert!(timeline_is_selected(Some(&log_time), &log_time));
    assert!(!timeline_is_selected(None, &log_time));
    assert_eq!(timeline_hint(EN), "Click to switch to this timeline");
}

#[test]
fn tables_have_rows() {
    let table = "t".to_owned();
    let row = table_row(&table, Some(&table), true);
    assert!(row.active);
    assert_eq!(row.close, Some(("关闭表格", "关闭这个表格（所有数据都会丢失）")));
    assert_eq!(row.icon, Icon::Table);
    let row = table_row(&table, None, false);
    assert!(!row.active && row.close.is_none());
    assert_eq!(row.hover_text, "表格：t");
    same(
        &on_close_table(&table),
        &Effect::System(SystemCommand::CloseTable("t".to_owned())),
    );
    same(
        &on_click_table(&table),
        &Effect::System(SystemCommand::SetRoute(Route::LocalTable("t".to_owned()))),
    );
}

fn card() -> StoreCardFacts {
    StoreCardFacts {
        store_id: id("app", "rec"),
        kind_text: "Recording".to_owned(),
        segment_id: None,
        info: Some(StoreInfo {
            cloned_from: None,
            source: "Python SDK".to_owned(),
            version: Some("0.25.0".to_owned()),
        }),
        in_panel: true,
        is_test: false,
        modified: None,
        log_time_span: None,
        current_size: 100,
        manifest: None,
        memory_limit: 1000,
        compaction: CompactionFacts {
            max_rows: "4,096".to_owned(),
            max_rows_if_unsorted: "1,024".to_owned(),
            max_bytes: "384 KiB".to_owned(),
            env_max_rows: "MAX_ROWS".to_owned(),
            env_max_rows_if_unsorted: "MAX_UNSORTED".to_owned(),
            env_max_bytes: "MAX_BYTES".to_owned(),
        },
        data_source: None,
    }
}

fn card_texts() -> StoreCardTexts {
    StoreCardTexts {
        full_size: "5 kB".to_owned(),
        current_size: "100 B".to_owned(),
        max_downloaded: "1 kB".to_owned(),
        memory_limit: "1 kB".to_owned(),
        chunks_loaded: "1".to_owned(),
        chunks: "3".to_owned(),
        average_chunk_size: "33 B".to_owned(),
        entities: "4".to_owned(),
        timelines: "2".to_owned(),
        columns: "6".to_owned(),
        rows: "9".to_owned(),
    }
}

fn find<'a>(rows: &'a [CardRow], label: &str) -> &'a CardRow {
    rows.iter().find(|r| r.label == label).unwrap_or_else(|| panic!("no row {label}: {rows:?}"))
}

fn text_of(row: &CardRow) -> &str {
    match &row.cell {
        Cell::Text(text) => text,
        other => panic!("{other:?}"),
    }
}

#[test]
fn sizes_come_from_the_manifest() {
    let mut f = card();
    let s = f.sizes();
    assert_eq!((s.full, s.max_downloaded, s.chunks, s.chunks_loaded), (100, 100, 0, 0));
    f.manifest = Some(ManifestFacts {
        full_size: 5000,
        is_fully_loaded: false,
        root_chunks: vec![true, false, false],
        is_partial: false,
    });
    let s = f.sizes();
    assert_eq!((s.full, s.max_downloaded, s.chunks, s.chunks_loaded), (5000, 1000, 3, 1));
    f.memory_limit = 9000;
    assert_eq!(f.sizes().max_downloaded, 5000);
    f.memory_limit = 10;
    f.manifest.as_mut().unwrap().is_fully_loaded = true;
    assert_eq!(f.sizes().max_downloaded, 5000);
    f.current_size = 6000;
    assert_eq!(f.sizes().full, 6000);
}

#[test]
fn the_card_shows_what_is_known() {
    let mut f = card();
    let rows = f.grid_content(&card_texts(), EN);
    assert_eq!(text_of(find(&rows, "Recording ID")), "rec");
    assert!(matches!(&find(&rows, "Application ID").cell, Cell::App(app) if app == "app"));
    assert_eq!(text_of(find(&rows, "Source")), "Python SDK");
    assert_eq!(text_of(find(&rows, "Source RRD version")), "0.25.0");
    assert_eq!(text_of(find(&rows, "Size")), "5 kB");
    assert!(!rows.iter().any(|r| r.label == "Segment ID" || r.label == "Duration"));

    f.in_panel = false;
    f.segment_id = Some("seg".to_owned());
    f.modified = Some((5, "yesterday".to_owned()));
    f.log_time_span = Some(3_723_456_000_000);
    let rows = f.grid_content(&card_texts(), EN);
    assert!(!rows.iter().any(|r| r.label == "Source"));
    assert_eq!(text_of(find(&rows, "Segment ID")), "seg");
    assert_eq!(text_of(find(&rows, "Modified")), "yesterday");
    assert_eq!(text_of(find(&rows, "Duration")), "1h 2m 3.45s");
    f.is_test = true;
    f.log_time_span = Some(0);
    let rows = f.grid_content(&card_texts(), EN);
    assert!(!rows.iter().any(|r| r.label == "Modified" || r.label == "Duration"));
}

#[test]
fn the_card_shows_the_download() {
    let mut f = card();
    let manifest = |root_chunks, is_partial| {
        Some(ManifestFacts { full_size: 5000, is_fully_loaded: false, root_chunks, is_partial })
    };
    f.manifest = manifest(vec![true, false, false], false);
    let rows = f.grid_content(&card_texts(), EN);
    match &find(&rows, "已下载").cell {
        Cell::Progress(size, limit, chunks) => {
            assert_eq!(size, "100 B / 1 kB");
            assert_eq!(limit.as_deref(), Some("Download limited to 1 kB memory budget"));
            assert_eq!(chunks.as_deref(), Some("(1 / 3 chunks)"));
        }
        other => panic!("{other:?}"),
    }
    f.manifest = manifest(vec![true], false);
    same(
        &find(&f.grid_content(&card_texts(), EN), "已下载").cell,
        &Cell::Progress("100%".to_owned(), None, None),
    );
    f.manifest = manifest(vec![true, false], true);
    same(
        &find(&f.grid_content(&card_texts(), ZH), "已下载").cell,
        &Cell::Progress("100 B / ?".to_owned(), None, Some("（1 / ? 个 chunk）".to_owned())),
    );
}

#[test]
fn the_compaction_is_explained_without_indentation() {
    let rows = card().grid_content(&card_texts(), ZH);
    let essay = rows
        .iter()
        .filter_map(|r| r.hint.as_ref())
        .find(|hint| hint.contains("MAX_UNSORTED"))
        .unwrap();
    assert!(essay.contains("\n* MAX_UNSORTED") || essay.contains("MAX_UNSORTED\n"), "{essay}");
    assert!(!essay.contains("\n  "), "{essay}");
    assert!(essay.contains("384 KiB"));
}

#[test]
fn a_store_fits_on_one_line() {
    assert_eq!(single_line(&id("app", "rec"), &None), "rec, app");
    assert_eq!(single_line(&id("app", "rec"), &Some("file".to_owned())), "rec, file, app");
}

#[test]
fn blueprints_say_what_they_are() {
    let f = BlueprintFacts {
        kind: StoreKind::Blueprint,
        app_id: "app".to_owned(),
        active_app_id: Some("app".to_owned()),
        is_default: true,
        is_active: true,
        active_is_clone: None,
    };
    assert_eq!(
        f.lines(EN),
        vec![
            "This is both the active and default blueprint for the current application, 'app'"
                .to_owned()
        ]
    );
    let f = BlueprintFacts { is_default: false, ..f };
    assert_eq!(f.lines(ZH), vec!["这是当前应用 'app' 正在生效的 blueprint".to_owned()]);
    let f = BlueprintFacts { is_active: false, ..f };
    assert!(f.lines(EN).is_empty());
    let f = BlueprintFacts { is_default: true, active_is_clone: Some(true), ..f };
    assert_eq!(
        f.lines(EN),
        vec![
            "This is the default blueprint for the current application.".to_owned(),
            "The active blueprint is a modified clone of this blueprint.".to_owned(),
        ]
    );
    let f = BlueprintFacts { active_app_id: Some("other".to_owned()), ..f };
    assert_eq!(
        f.lines(EN),
        vec!["This blueprint is not for the active application".to_owned()]
    );
    let f = BlueprintFacts { kind: StoreKind::Recording, ..f };
    assert!(f.lines(EN).is_empty());
}

#[test]
fn development_builds_show_more() {
    let f = DebugFacts {
        entities: Some("4".to_owned()),
        is_buffering: true,
        connection: "Connected".to_owned(),
        physical_size: "1 MB".to_owned(),
    };
    let debug = Build { platform: Platform::Native, debug: true };
    let section = f.section(debug, false).unwrap();
    assert_eq!(section.heading, "Debug info");
    let rows = section.rows;
    let labels: Vec<&str> = rows.iter().map(|r| r.0).collect();
    assert_eq!(labels, vec!["实体", "is_buffering", "连接", "物理 chunk 数"]);
    assert_eq!(rows[1].1, "true");
    assert_eq!(rows[3].1, "1 MB");
    let release = Build { platform: Platform::Native, debug: false };
    assert!(f.section(release, false).is_none());
    assert!(f.section(debug, true).is_none());
    let f = DebugFacts { entities: None, ..f };
    assert_eq!(f.section(debug, false).unwrap().rows.len(), 3);
}
