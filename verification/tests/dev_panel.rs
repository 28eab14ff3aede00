use viewer_logic::dev_panel::callstack::summarize_callstack;
use viewer_logic::dev_panel::panel::{
    memory_tree_levels, panel_texts, DevPanel, DevPanelTab, TreeLevel,
};
use viewer_logic::dev_panel::plots::{
    follow, memory_mark_labels, point_label, shown_window, streaming_plots, LineColor, MemoryLine,
    PlotEvents, StreamingLine, StreamingPlot, WINDOW_NANOS,
};
use viewer_logic::dev_panel::progress::Progress;
use viewer_logic::dev_panel::stats::{
    cache_table_columns, callstack_text, callstack_to_copy, chunk_table, chunk_table_header,
    events_hint, gpu_heading, shown_caches, store_headings, store_title, tracking_hint,
    tracking_texts, AllocationTexts, CallstackFacts, ChunkStats, GpuFacts, QueryCache,
    TrackingTexts,
};
use viewer_logic::dev_panel::streaming::{
    detail_headings, distinct_entities, downloading_mark, in_flight_entities, no_streams,
    static_and_temporal, status_row, sum, DetailRow, ManifestTexts, PendingTexts, Prioritization,
    PriorityFacts, ProgressTexts, RemovedChunks, RemovedTexts,
};
use viewer_logic::dev_panel::transform_cache::{
    frames_note, has_query, layout_label, missing_note, recording_label, CacheNote, EdgeFilter,
    FrameVisibilityFilter, LayoutDirection, SceneState, ViewSettings,
};
use viewer_logic::i18n::Language;
use viewer_logic::platform::Platform;
use viewer_logic::store_id::{StoreId, StoreKind};

const ZH: Language = Language::Chinese;
const EN: Language = Language::English;

#[test]
fn callstacks_are_summarized() {
    assert_eq!(summarize_callstack(""), "");
    assert_eq!(summarize_callstack("gltf::load in EntityDb"), "EntityDb, gltf");
    assert_eq!(summarize_callstack("std::collections::hash::map::HashMap<K,V,S>"), "HashMap");
    assert_eq!(summarize_callstack("grpc grpc EntityTree grpc"), "EntityTree, grpc");
}

#[test]
fn the_panel_has_tabs() {
    assert_eq!(DevPanelTab::all().len(), 7);
    let mut panel = DevPanel::new();
    assert!(panel.memory_purge_times.is_empty());
    panel.note_memory_purge(5);
    assert_eq!(panel.memory_purge_times, vec![5]);
    assert!(panel.response(true).close_requested);
    assert!(!panel.response(false).close_requested);
    for tab in DevPanelTab::all() {
        assert!(!tab.label(EN).is_empty());
    }
    assert_eq!(panel_texts(ZH).include_rss, "包含 RSS");
}

#[test]
fn the_memory_tree_is_wrapped() {
    let levels = memory_tree_levels(Some(5), Some(9), true);
    assert!(matches!(levels[..], [TreeLevel::Counted(5), TreeLevel::Rss(9)]), "{levels:?}");
    assert!(matches!(memory_tree_levels(Some(5), Some(9), false)[..], [TreeLevel::Counted(5)]));
    assert!(memory_tree_levels(None, None, true).is_empty());
    assert_eq!(TreeLevel::Rss(1).name(), "RSS");
    assert_eq!(TreeLevel::Counted(1).name(), "counted");
}

#[test]
fn plots_have_lines() {
    let labels: Vec<&str> = MemoryLine::all().iter().map(|l| l.label(EN)).collect();
    assert_eq!(labels, vec!["Resident", "Allocator", "VRAM", "Recordings"]);
    assert_eq!(memory_mark_labels(ZH), ("上限", "内存清理"));
    assert_eq!(point_label(&Some("VRAM".to_owned()), "5 B"), "VRAM: 5 B");
    assert_eq!(point_label(&None, "5 B"), "5 B");
    let plots = streaming_plots();
    assert_eq!(plots.len(), 3);
    assert_eq!(plots[0].title(), "进度");
    assert_eq!(plots[1].id(), "streaming_throughput");
    assert!(plots[0].is_in_bytes() && !StreamingPlot::Counts.is_in_bytes());
    assert_eq!(
        StreamingPlot::Progress.lines(),
        vec![StreamingLine::LoadedBytes, StreamingLine::ManifestBytes]
    );
    assert!(StreamingLine::ManifestBytes.is_dashed());
    assert_eq!(StreamingLine::Cancellations.color(), LineColor::Error);
    assert_eq!(StreamingLine::ChunksInFlight.color(), LineColor::Success);
    assert_eq!(StreamingLine::LoadedBytes.color(), LineColor::Automatic);
    assert_eq!(StreamingLine::PendingBytes.label(), "待下载字节");
}

#[test]
fn plots_follow_until_they_are_moved() {
    let still = PlotEvents { dragged: false, hovered: false, scrolled: false, double_clicked: false };
    assert!(follow(true, still));
    assert!(!follow(false, still));
    assert!(!follow(true, PlotEvents { dragged: true, ..still }));
    assert!(follow(true, PlotEvents { scrolled: true, ..still }));
    assert!(!follow(true, PlotEvents { scrolled: true, hovered: true, ..still }));
    assert!(follow(false, PlotEvents { dragged: true, double_clicked: true, ..still }));
    assert_eq!(shown_window(true, WINDOW_NANOS + 7), Some((7, WINDOW_NANOS + 7)));
    assert_eq!(shown_window(false, 7), None);
}

#[test]
fn progress_is_counted() {
    let mut p = Progress::new();
    p.add(10, true);
    p.add(30, false);
    assert_eq!((p.loaded_bytes, p.total_bytes), (10, 40));
    assert_eq!((p.loaded_count, p.total_count), (1, 2));
    let q = Progress::of_chunks(&vec![(30, false), (10, true)]);
    assert_eq!((q.loaded_bytes, q.total_bytes), (10, 40));
    assert_eq!((q.loaded_count, q.total_count), (1, 2));
    assert_eq!(
        p.value_text("10 B", "40 B", "25.0", "1", "2"),
        "10 B / 40 B（25.0%，1 / 2 个 chunk）"
    );
    assert_eq!(
        Progress::new().value_text("0 B", "0 B", "NaN", "0", "0"),
        "0 B / 0 B（—，0 / 0 个 chunk）"
    );
}

#[test]
fn stores_have_titles() {
    let (title, source) = store_title("Recording", "rec", &Some("sdk".to_owned()), ZH);
    assert_eq!(title, "Recording rec");
    assert_eq!(source.as_deref(), Some("数据源：sdk"));
    assert_eq!(store_title("Recording", "rec", &None, ZH).1, None);
    let (resources, _, _, vram) = store_headings("5 MB", EN);
    assert_eq!(resources, "Datastore Resources");
    assert_eq!(vram, "GPU 内存：5 MB");
}

#[test]
fn chunks_are_added_up() {
    let a = ChunkStats { num_chunks: 1, total_size_bytes: 20, num_rows: 300, num_events: 4000 };
    let b = ChunkStats { num_chunks: 5, total_size_bytes: 60, num_rows: 700, num_events: 8000 };
    let table = chunk_table(a, b, EN);
    assert_eq!(table[0], ("Static:", a));
    assert_eq!(table[1], ("Temporal:", b));
    assert_eq!(
        table[2],
        (
            "Total:",
            ChunkStats {
                num_chunks: 6,
                total_size_bytes: 80,
                num_rows: 1000,
                num_events: 12000
            }
        )
    );
    assert_eq!(
        chunk_table_header(EN),
        vec!["Stats", "Chunks", "Rows (total)", "Events (total)", "Size (total)"]
    );
    assert_eq!(events_hint(ZH), "非空组件批次（单元格）的数量");
}

#[test]
fn filled_caches_are_shown() {
    assert!(shown_caches(0, 0).is_empty());
    assert_eq!(shown_caches(1, 2), vec![QueryCache::LatestAt, QueryCache::Range]);
    assert_eq!(shown_caches(0, 2), vec![QueryCache::Range]);
    assert_eq!(QueryCache::LatestAt.heading(), "LatestAt");
    let columns = cache_table_columns(EN);
    assert_eq!(columns[0], ("Entity", None));
    assert_eq!(columns[2], ("Chunks", Some("How many chunks in the cache?")));
    assert_eq!(columns.len(), 5);
}

#[test]
fn the_graphics_card_has_a_table() {
    let f = GpuFacts {
        num_bind_group_layouts: 1,
        num_pipeline_layouts: 2,
        num_render_pipelines: 3,
        num_samplers: 4,
        num_shader_modules: 5,
        num_bind_groups: 6,
        num_buffers: 7,
        num_textures: 8,
        buffer_memory: "9 B".to_owned(),
        texture_memory: "10 B".to_owned(),
    };
    let rows = f.rows(EN);
    assert_eq!(rows.len(), 10);
    assert_eq!(rows[0], ("# Bind Group Layouts:", "1".to_owned()));
    assert_eq!(rows[7], ("# Textures:", "8".to_owned()));
    assert_eq!(rows[9], ("Texture Memory:", "10 B".to_owned()));
    assert_eq!(gpu_heading(ZH), "GPU 资源");
}

#[test]
fn allocations_are_told() {
    let of = |size: &str, count: &str| AllocationTexts {
        size: size.to_owned(),
        count: count.to_owned(),
    };
    let t = TrackingTexts {
        fully_tracked: of("1 MB", "10"),
        stochastically_tracked: of("2 MB", "20"),
        untracked: of("3 kB", "30"),
        threshold: "128 B".to_owned(),
        overhead: of("4 kB", "40"),
    };
    let lines = t.lines();
    assert_eq!(lines.len(), 5);
    assert_eq!(lines[1], "fully_tracked（完整追踪）：1 MB，共 10 次分配");
    assert_eq!(lines[3], "untracked（未追踪）：3 kB，共 30 次分配（均小于 128 B）");
    assert_eq!(
        tracking_hint(false, Platform::Native, "X").as_deref(),
        Some("设置 X=1 可从启动起就进行详细的内存分配追踪。")
    );
    assert_eq!(tracking_hint(true, Platform::Native, "X"), None);
    assert_eq!(tracking_hint(false, Platform::Web, "X"), None);
    assert_eq!(tracking_texts(EN).3, "Top memory consumers");
}

#[test]
fn sampled_callstacks_say_so() {
    let f = CallstackFacts { size: 100, count: 4, stochastic_rate: 1 };
    assert_eq!(
        callstack_text(&f, "100 B", "4", "25 B", "EntityDb"),
        "100 B，共 4 次分配（每次约 25 B） - EntityDb"
    );
    let f = CallstackFacts { stochastic_rate: 64, ..f };
    assert_eq!(f.extrapolated(), (6400, 256));
    assert_eq!(
        callstack_text(&f, "6.4 kB", "256", "25 B", ""),
        "≈6.4 kB，共 256 次分配（每次约 25 B）（4 个随机采样） - "
    );
    assert_eq!(callstack_to_copy(&"a".to_owned(), EN), "a");
    assert_eq!(callstack_to_copy(&String::new(), EN), "No callstack available");
}

fn labels(rows: &[DetailRow]) -> Vec<&'static str> {
    rows.iter().map(|r| r.label).collect()
}

#[test]
fn the_details_of_a_stream() {
    assert_eq!(no_streams(), "没有活跃的服务器流式读取连接。");
    assert_eq!(downloading_mark(true), Some("正在下载 chunk"));
    assert_eq!(downloading_mark(false), None);
    let row = status_row("Connected");
    assert_eq!((row.label, row.value.as_str()), ("连接", "Connected"));
    assert_eq!(detail_headings().3, "待处理请求");

    let rows =
        ProgressTexts { overall: None, protected: Some("x".to_owned()), bandwidth: None }.rows();
    assert_eq!(labels(&rows), vec!["带宽"]);
    assert_eq!(rows[0].value, "—");
    let rows = ProgressTexts {
        overall: Some("50%".to_owned()),
        protected: Some("x".to_owned()),
        bandwidth: Some("5 MB".to_owned()),
    }
    .rows();
    assert_eq!(labels(&rows), vec!["总体", "已加载的受保护根 chunk", "带宽"]);
    assert_eq!(rows[2].value, "5 MB/s");
}

#[test]
fn removed_chunks_are_counted() {
    let removed = RemovedChunks {
        num_chunks_gc: 1,
        num_chunks_split_cleanup: 2,
        num_chunks_compacted: 3,
        num_chunks_overwritten: 4,
    };
    assert_eq!(removed.total(), 10);
    let rows = RemovedTexts {
        gc: "1".to_owned(),
        split_cleanup: "2".to_owned(),
        compacted: "3".to_owned(),
        overwritten: "4".to_owned(),
    }
    .rows();
    assert_eq!(labels(&rows), vec!["垃圾回收", "拆分清理", "压实（compaction）", "覆盖"]);
    assert_eq!(rows[3].value, "4");
}

#[test]
fn a_manifest_is_summed_up() {
    assert_eq!(static_and_temporal(4, &vec![true, false, true, false]), (2, 2));
    assert_eq!(static_and_temporal(1, &vec![true, true]), (2, 0));
    assert_eq!(sum(&vec![1, 2, 3]), 6);
    assert_eq!(sum(&vec![]), 0);
    let names = |list: &[&str]| list.iter().map(|s| s.to_string()).collect::<Vec<_>>();
    assert_eq!(distinct_entities(&names(&["/a", "/b", "/a", "/c", "/b"])), names(&["/a", "/b", "/c"]));
    let (label, entities) = in_flight_entities(&names(&["/a", "/a"]));
    assert_eq!(label, "传输中的实体（1）");
    assert_eq!(entities, names(&["/a"]));
    let rows = ManifestTexts {
        chunks: "4".to_owned(),
        static_chunks: "2".to_owned(),
        temporal_chunks: "2".to_owned(),
        entities: "3".to_owned(),
        manifest_size: "1 kB".to_owned(),
        index_size: "2 kB".to_owned(),
        uncompressed: "9 MB".to_owned(),
        compressed: "4 MB".to_owned(),
    }
    .rows();
    assert_eq!(rows.len(), 7);
    assert_eq!(rows[6].value, "9 MB / 4 MB");
    assert_eq!(rows[0].hint, None);
}

#[test]
fn priorities_are_told() {
    let mut f = PriorityFacts {
        is_preview: true,
        latest: None,
        protected_roots: "3".to_owned(),
        protected_physical: "4".to_owned(),
    };
    assert_eq!(
        labels(&f.rows()),
        vec!["预览", "还没有获取数据", "受保护的根 chunk", "受保护的物理 chunk"]
    );
    assert_eq!(f.rows()[0].value, "true");
    f.latest = Some(Prioritization {
        transit_budget_filled: false,
        memory_budget_filled: true,
        all_required_are_loaded: None,
    });
    let rows = f.rows();
    assert_eq!(rows.len(), 6);
    let values: Vec<&str> = rows.iter().map(|r| r.value.as_str()).collect();
    assert_eq!(values, vec!["true", "false", "true", "未知", "3", "4"]);
    let rows = PendingTexts {
        batches: "1".to_owned(),
        chunks: "2".to_owned(),
        recently_canceled: "3".to_owned(),
    }
    .rows();
    assert_eq!(labels(&rows), vec!["批次数", "Chunk 数", "最近取消"]);
}

#[test]
fn frames_are_filtered() {
    assert_eq!(FrameVisibilityFilter::Named.texts().0, "具名");
    assert_eq!(EdgeFilter::Temporal.texts().1, "只显示时序变换");
    assert_eq!(LayoutDirection::Vertical.texts().0, "▼");
    assert_eq!(layout_label(), "布局：");
    let settings = ViewSettings {
        frame_filter: FrameVisibilityFilter::All,
        edge_filter: EdgeFilter::All,
        layout_direction: LayoutDirection::Horizontal,
    };
    assert!(!settings.differs(&settings));
    let other = ViewSettings { edge_filter: EdgeFilter::Static, ..settings };
    assert!(other.differs(&settings));
    let first = ViewSettings::new(EdgeFilter::Temporal);
    assert_eq!(first.frame_filter, FrameVisibilityFilter::Named);
    assert_eq!(first.edge_filter, EdgeFilter::Temporal);
    assert_eq!(first.layout_direction, LayoutDirection::Vertical);
}

#[test]
fn a_scene_fits_until_it_is_moved() {
    let mut scene: SceneState<u32> = SceneState::new();
    assert_eq!(scene.fit(1, false), 1);
    assert_eq!(scene.fit(2, false), 2);
    scene.drawn(7, 2, true, false);
    assert_eq!(scene.fit(3, false), 7);
    assert_eq!(scene.fit(4, true), 4);
    scene.drawn(8, 4, false, true);
    assert!(!scene.user_interacted);
    assert_eq!(scene.fit(5, false), 5);
}

#[test]
fn the_transform_cache_says_what_is_missing() {
    assert_eq!(
        missing_note(false, true),
        Some(CacheNote::Warning("变换缓存没有选中活动的时间轴。"))
    );
    assert_eq!(
        missing_note(true, false),
        Some(CacheNote::Label("这个录制文件还没有可用的变换缓存。"))
    );
    assert_eq!(missing_note(true, true), None);
    assert_eq!(frames_note(1, 2, 3), Ok("1 棵树、2 个坐标系、3 个变换".to_owned()));
    assert_eq!(frames_note(0, 0, 0), Err("没有符合当前筛选条件的变换坐标系。"));
    let id = StoreId {
        kind: StoreKind::Recording,
        application_id: "app".to_owned(),
        recording_id: "rec".to_owned(),
    };
    assert_eq!(recording_label(&id, true), ("app (rec)".to_owned(), Some("有部分 chunk 缺失")));
    assert_eq!(recording_label(&id, false).1, None);
    assert!(has_query(true, true));
    assert!(!has_query(true, false) && !has_query(false, true));
}
