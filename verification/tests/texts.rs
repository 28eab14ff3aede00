use viewer_logic::context_menu::{
    CopyRrdArtifactUrl, DeleteDatasetRrdArtifacts, DeleteRrdArtifact,
};
use viewer_logic::effects::{
    EntryId, InstancePath, Item, Origin, RedapEntryKind, Route, Scheme,
};
use viewer_logic::i18n::{tr, Language};
use viewer_logic::icons::Icon;
use viewer_logic::mobile_warning::mobile_warning;
use viewer_logic::open_url_description::{ViewerOpenUrl, ViewerOpenUrlDescription};
use viewer_logic::platform::OperatingSystem;
use viewer_logic::recording_panel::app_rows::ArtifactsPlace;
use viewer_logic::store_id::{StoreId, StoreKind};
use viewer_logic::text;
use viewer_logic::time::{format_duration_short, short_duration};
use viewer_logic::user_guide::{
    image_uri, images, page_tab, processed_markdown, UserGuideModal, PAGE_COUNT,
};
use viewer_logic::view_class_placeholder::{ViewClassLayoutPriority, ViewClassPlaceholder};

const ZH: Language = Language::Chinese;
const EN: Language = Language::English;

#[test]
fn texts_are_put_together() {
    assert_eq!(text::cat2("a", "数"), "a数");
    assert_eq!(text::cat3("a", "", "c"), "ac");
    assert_eq!(text::cat5("1", "2", "3", "4", "5"), "12345");
    assert_eq!(text::decimal_text(0), "0");
    assert_eq!(text::decimal_text(u64::MAX), "18446744073709551615");
    assert_eq!(text::join_texts(&vec!["a", "b", "c"], ", "), "a, b, c");
    assert_eq!(text::join_texts(&vec![], ", "), "");
    assert_eq!(text::chars_of("数a"), vec!['数', 'a']);
    assert!(text::same_text("a", "a") && !text::same_text("a", "b"));
    assert_eq!(tr(EN, "a", "b"), "a");
    assert!(ZH.is_chinese() && !EN.is_chinese());
}

#[test]
fn texts_are_taken_apart() {
    assert_eq!(text::trim(" \t\u{3000}x y\n"), "x y");
    assert_eq!(text::trim("\u{a0}\u{2003}"), "");
    assert_eq!(text::trim_end_char("a///", '/'), "a");
    assert_eq!(text::last_segment("a/b/", '/'), "");
    assert_eq!(text::last_segment("ab", '/'), "ab");
    assert_eq!(text::rsplit_once("a/b/c", '/'), Some(("a/b", "c")));
    assert_eq!(text::rsplit_once("abc", '/'), None);
    assert_eq!(text::strip_prefix("tos://x", "tos://"), Some("x"));
    assert_eq!(text::strip_prefix("tos", "tos://"), None);
    assert_eq!(text::first_part("a · b · c", " · "), "a");
    assert_eq!(text::first_part("a", " · "), "a");
    assert!(text::contains_text("abcd", "bc") && !text::contains_text("abcd", "cb"));
    assert!(text::contains_text("x", ""));
    assert_eq!(text::replace_text("aaa", "aa", "b"), "ba");
    assert_eq!(text::parse_usize("042"), Some(42));
    assert_eq!(text::parse_usize("+1"), Some(1));
    assert_eq!(text::parse_usize("+"), None);
    assert_eq!(text::parse_usize(""), None);
    assert_eq!(text::parse_usize("18446744073709551616"), None);
}

#[test]
fn whitespace_is_that_of_std() {
    for c in (0..=0x10FFFF).filter_map(char::from_u32) {
        assert_eq!(text::char_is_whitespace(c), c.is_whitespace(), "{c:?}");
    }
}

#[test]
fn durations_are_short() {
    let t = "2024-01-01".to_owned();
    let en = |s| format_duration_short(EN, s, &t);
    let zh = |s| format_duration_short(ZH, s, &t);
    assert_eq!(en(9), "just now");
    assert_eq!(en(59), "less than a minute ago");
    assert_eq!(en(60), "1 minute ago");
    assert_eq!(en(120), "2 minutes ago");
    assert_eq!(en(3600), "1 hour ago");
    assert_eq!(en(7200), "2 hours ago");
    assert_eq!(zh(86400), "1 天前");
    assert_eq!(zh(6 * 86400), "6 天前");
    assert_eq!(zh(7 * 86400), "2024-01-01");
    assert_eq!(short_duration(ZH, 10, &t), ("不到一分钟前".to_owned(), 1));
    assert_eq!(short_duration(ZH, 60, &t).1, 60);
    assert_eq!(short_duration(ZH, 3600, &t).1, 3600);
}

fn described(url: ViewerOpenUrl) -> String {
    ViewerOpenUrlDescription::from_url(&url).text()
}

const URL: &str = "rerun://host:1234/rest";

#[test]
fn urls_are_described() {
    let url = || URL.to_owned();
    let selection = |path: Option<&str>| ViewerOpenUrl::IntraRecordingSelection {
        url: url(),
        entity_path: path.map(str::to_owned),
    };
    assert_eq!(described(selection(Some("/a"))), "选区：/a");
    assert_eq!(described(selection(None)), "选区");
    assert_eq!(
        described(ViewerOpenUrl::HttpUrl { url: url(), path: "/x/y.rrd".to_owned() }),
        "HTTP 链接：y.rrd"
    );
    assert_eq!(
        described(ViewerOpenUrl::RedapDatasetSegment { url: url(), segment_id: "s".to_owned() }),
        "数据段：s"
    );
    assert_eq!(described(ViewerOpenUrl::RedapProxy), "gRPC 代理");
    assert_eq!(described(ViewerOpenUrl::TosDataset("b/data/".to_owned())), "TOS 数据集：data");
    assert_eq!(described(ViewerOpenUrl::TosDataset("/".to_owned())), "TOS 数据集");
    assert_eq!(
        described(ViewerOpenUrl::RedapCatalog { url: url(), host: "h".to_owned() }),
        "目录：h"
    );
    assert_eq!(
        described(ViewerOpenUrl::RedapEntry { url: url(), entry_id: "e".to_owned() }),
        "Redap 条目：e"
    );
    assert_eq!(
        described(ViewerOpenUrl::RedapFolder { url: url(), path: "f".to_owned() }),
        "文件夹：f"
    );
    assert_eq!(described(ViewerOpenUrl::WebEventListener), "Web 事件监听器");
    assert_eq!(described(ViewerOpenUrl::Settings), "设置");
    assert_eq!(described(ViewerOpenUrl::ChunkStoreBrowser), "Chunk store 浏览器");
}

fn web_viewer(url_parameters: Vec<ViewerOpenUrl>) -> ViewerOpenUrl {
    ViewerOpenUrl::WebViewerUrl { url: "https://viewer/?url=all-of-them".to_owned(), url_parameters }
}

#[test]
fn web_viewers_are_described_by_what_they_open() {
    assert_eq!(described(web_viewer(vec![ViewerOpenUrl::RedapProxy])), "gRPC 代理");
    assert_eq!(
        described(web_viewer(vec![ViewerOpenUrl::FilePath("/a/b.rrd".to_owned())])),
        "文件：b.rrd"
    );
    assert_eq!(
        described(web_viewer(vec![ViewerOpenUrl::Settings, ViewerOpenUrl::Settings])),
        "多个 URL：2 个 URL"
    );
    assert_eq!(described(web_viewer(vec![])), "多个 URL：0 个 URL");
}

#[test]
fn files_are_described_by_their_names() {
    let file = |path: &str| {
        ViewerOpenUrlDescription::from_url(&ViewerOpenUrl::FilePath(path.to_owned())).target_short
    };
    assert_eq!(file("/a/b.rrd"), Some("b.rrd".to_owned()));
    assert_eq!(file("a/b/"), Some("b".to_owned()));
    assert_eq!(file("a//b/.//"), Some("b".to_owned()));
    assert_eq!(file("./b"), Some("b".to_owned()));
    assert_eq!(file("a/..."), Some("...".to_owned()));
    assert_eq!(file("/tmp/10:00.rrd"), Some("10:00.rrd".to_owned()));
    assert_eq!(file("./C:"), Some("C:".to_owned()));
    assert_eq!(file("C:/a/b.rrd"), Some("b.rrd".to_owned()));
    assert_eq!(file("a\\b/c"), Some("c".to_owned()));
    for path in ["a/..", "a/../.", "/", "", ".", "./.", ".."] {
        assert_eq!(file(path), None, "{path}");
    }
}

#[test]
fn targets_are_shorter_than_urls() {
    assert_eq!(described(ViewerOpenUrl::FilePath("a.rrd".to_owned())), "文件");
    assert_eq!(described(ViewerOpenUrl::FilePath("/a.rrd".to_owned())), "文件：a.rrd");
    assert_eq!(described(ViewerOpenUrl::TosDataset("data".to_owned())), "TOS 数据集");
    let name = Some("数据".to_owned());
    let url = ViewerOpenUrl::FilePath("数据".to_owned());
    assert_eq!(ViewerOpenUrlDescription::with_file_name(&url, &name).target_short, None);
    let url = ViewerOpenUrl::FilePath("C:数据".to_owned());
    assert_eq!(ViewerOpenUrlDescription::with_file_name(&url, &name).target_short, name);
}

fn store_id() -> StoreId {
    StoreId {
        kind: StoreKind::Recording,
        application_id: "app".to_owned(),
        recording_id: "rec".to_owned(),
    }
}

#[test]
fn artifacts_are_managed_from_the_menu() {
    let url = Some("tos://b/x.rrd".to_owned());
    let recording = Item::StoreId(store_id());
    let app = Item::AppId("app".to_owned());
    assert!(CopyRrdArtifactUrl.supports_item(&recording, &url));
    assert!(!CopyRrdArtifactUrl.supports_item(&recording, &None));
    assert!(!CopyRrdArtifactUrl.supports_item(&app, &url));
    assert_eq!(CopyRrdArtifactUrl.label(), "Copy rrd artifact address");
    assert_eq!(CopyRrdArtifactUrl.process_store_id(&url), url);

    assert!(DeleteRrdArtifact.supports_item(&recording, &url));
    assert_eq!(DeleteRrdArtifact.label(), "Delete rrd artifact…");
    let request = DeleteRrdArtifact.process_store_id(&store_id(), &url, &None, Some(4)).unwrap();
    assert_eq!(request.dataset_url, "app");
    assert_eq!(request.episode, Some(4));
    assert_eq!(request.target_url, "tos://b/x.rrd");
    assert!(DeleteRrdArtifact.process_store_id(&store_id(), &None, &None, None).is_none());

    let place = Some(ArtifactsPlace { bucket: "b".to_owned(), dir: "d/".to_owned() });
    assert!(DeleteDatasetRrdArtifacts.supports_item(&app, 1, &place));
    assert!(!DeleteDatasetRrdArtifacts.supports_item(&app, 0, &place));
    assert!(!DeleteDatasetRrdArtifacts.supports_item(&recording, 1, &place));
    assert_eq!(DeleteDatasetRrdArtifacts.label(), "Delete all rrd artifacts…");
    let request = DeleteDatasetRrdArtifacts
        .process_app_id(&"app".to_owned(), &place, &Some("tos://b/data/".to_owned()))
        .unwrap();
    assert_eq!(request.target_url, "tos://b/d/");
    assert_eq!(request.dataset_url, "tos://b/data/");
    assert_eq!(request.episode, None);
}

#[test]
fn items_have_routes() {
    let origin = || Origin { scheme: Scheme::Rerun, host: "h".to_owned(), port: 1 };
    assert!(matches!(
        Route::from_item(&Item::StoreId(store_id())),
        Some(Route::LocalRecording(id)) if id.is_same(&store_id())
    ));
    assert!(matches!(
        Route::from_item(&Item::TableId("t".to_owned())),
        Some(Route::LocalTable(t)) if t == "t"
    ));
    assert!(matches!(
        Route::from_item(&Item::RedapServer(origin())),
        Some(Route::RedapServer(o)) if o.is_same(&origin())
    ));
    let kind = RedapEntryKind::Entry(EntryId { id: 3 });
    assert!(matches!(
        Route::from_item(&Item::RedapEntry(origin(), kind)),
        Some(Route::RedapEntry(_, RedapEntryKind::Entry(EntryId { id: 3 })))
    ));
    let path = InstancePath { entity_path: "/a".to_owned(), instance: None };
    assert!(Route::from_item(&Item::InstancePath(path)).is_none());
}

#[test]
fn phones_are_warned() {
    let warning = mobile_warning(OperatingSystem::Android, EN).unwrap();
    assert_eq!(warning.text, "Mobile OSes are not yet supported. Click for details.");
    assert_eq!(warning.url, "https://github.com/rerun-io/rerun/issues/1672");
    let warning = mobile_warning(OperatingSystem::Ios, ZH).unwrap();
    assert_eq!(warning.text, "暂不支持移动操作系统。点击查看详情。");
    assert!(mobile_warning(OperatingSystem::Mac, EN).is_none());
}

#[test]
fn an_unknown_view_is_reported() {
    let view = ViewClassPlaceholder;
    assert_eq!(ViewClassPlaceholder::identifier(), "UnknownViewClass");
    assert_eq!(view.icon(), Icon::ViewUnknown);
    assert_eq!(view.layout_priority(), ViewClassLayoutPriority::Low);
    assert_eq!(view.display_name(EN), "Unknown view class");
    assert_eq!(view.help(ZH), ("占位视图", "未知视图类型的占位视图"));
    assert_eq!(view.error_label(), "未知的视图类型");
    assert_eq!(view.report().summary, "Unknown view class");
}

#[test]
fn the_guide_is_processed() {
    assert_eq!(
        processed_markdown("![a](images/x.png) and [01-viewer.md](01-viewer.md)."),
        "![a](bytes://user-guide/images/x.png) and Viewer 篇."
    );
    assert_eq!(processed_markdown("plain"), "plain");
    assert_eq!(image_uri("x.png"), "bytes://user-guide/images/x.png");
    assert_eq!(images().len(), 6);
    assert_eq!(PAGE_COUNT, 2);
    assert_eq!((page_tab(0), page_tab(1)), ("Viewer", "Catalog server"));
}

#[test]
fn the_guide_opens_at_a_page() {
    let mut guide = UserGuideModal::new();
    assert!(!guide.take_request(None));
    assert!(!guide.is_open);
    assert!(guide.take_request(Some(1)));
    assert!(guide.is_open);
    assert_eq!(guide.selected, 1);
    guide.select(0);
    assert_eq!(guide.selected, 0);
    assert!(!guide.take_request(Some(7)));
    assert_eq!(guide.selected, 1);
}
