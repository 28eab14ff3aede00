use viewer_logic::command::ui_command::UICommand;
use viewer_logic::daft_link::{set_base_url, Console};
use viewer_logic::effects::{Effect, Origin, Scheme, SystemCommand};
use viewer_logic::i18n::Language;
use viewer_logic::platform::Platform;
use viewer_logic::recent_datasets::{RecentDataset, RecentKind};
use viewer_logic::welcome::intro::{
    greeting, guide_navigation, guide_pages, hub_navigation, hub_texts, intro_rows, on_log_out,
    CloudAction, CloudState, HubLink, IntroItem, LoginState,
};
use viewer_logic::welcome::recents::{
    recent_action, recent_row, recent_texts, RecentAction, RowClicks,
};
use viewer_logic::welcome::screen::{
    docs_url, title_style, welcome_screen_bullet_text, welcome_screen_title, WelcomeContent,
    WelcomeScreen,
};

const ZH: Language = Language::Chinese;
const EN: Language = Language::English;

#[test]
fn the_screen_shows_what_fits() {
    let mut screen = WelcomeScreen::new();
    screen.set_examples_manifest_url("https://m".to_owned());
    assert_eq!(screen.examples_manifest_url.as_deref(), Some("https://m"));
    let loading = Some("Loading…".to_owned());
    assert!(matches!(screen.content(false, true, &loading), WelcomeContent::Nothing));
    assert!(matches!(screen.content(true, false, &loading), WelcomeContent::Full));
    assert!(matches!(screen.content(true, true, &None), WelcomeContent::NoData));
    match screen.content(true, true, &loading) {
        WelcomeContent::Loading(text) => assert_eq!(text, "Loading…"),
        other => panic!("{other:?}"),
    }
    assert_eq!(docs_url(), "https://www.rerun.io/docs");
    assert_eq!(welcome_screen_title(ZH), "Rerun: VePAI的数据底座");
    assert_eq!(welcome_screen_bullet_text(EN).len(), 3);
    assert_eq!(title_style(true).line_height, 50);
    assert!(!title_style(false).large);
}

fn recent(kind: RecentKind, item_count: Option<usize>) -> RecentDataset {
    RecentDataset {
        url: "tos://b/data/set/".to_owned(),
        kind,
        region: "cn-beijing".to_owned(),
        item_count,
        last_opened_unix: 0,
        open_at_exit: false,
    }
}

#[test]
fn a_recent_dataset_has_a_row() {
    let console = Console::new(Platform::Web);
    let row = recent_row(&recent(RecentKind::Tos, Some(12)), 3 * 3600, &console, ZH);
    assert_eq!(row.label, "set  ·  tos://b/data/set/");
    assert_eq!(row.meta, "TOS · 3 小时前 · 12 items");
    let button = row.diagnose.unwrap();
    assert!(button.enabled);
    assert_eq!(button.url, "/curation?dataset=tos%3A%2F%2Fb%2Fdata%2Fset%2F");
    assert_eq!(
        button.hint,
        "Run data curation on this dataset in Daft\n/curation?dataset=tos%3A%2F%2Fb%2Fdata%2Fset%2F"
    );
    let row = recent_row(&recent(RecentKind::Tos, None), 0, &console, EN);
    assert_eq!(row.meta, "TOS · just now");
    assert!(!row.diagnose.unwrap().enabled);
    let row = recent_row(&recent(RecentKind::Hf, None), 0, &console, EN);
    assert_eq!(row.meta, "Hugging Face · just now");
    assert!(row.diagnose.is_none());
    let native = Console::new(Platform::Native);
    assert!(recent_row(&recent(RecentKind::Tos, None), 0, &native, EN).diagnose.is_none());
    assert_eq!(recent_texts().title, "Recently opened");
}

#[test]
fn the_last_click_counts() {
    let click = |open, remove| RowClicks { open, remove };
    assert_eq!(recent_action(&vec![]), None);
    assert_eq!(recent_action(&vec![click(false, false)]), None);
    assert_eq!(
        recent_action(&vec![click(true, false), click(false, false)]),
        Some(RecentAction::Open(0))
    );
    assert_eq!(recent_action(&vec![click(true, true)]), Some(RecentAction::Remove(0)));
    assert_eq!(
        recent_action(&vec![click(false, true), click(true, false)]),
        Some(RecentAction::Open(1))
    );
}

fn origin() -> Origin {
    Origin { scheme: Scheme::RerunHttps, host: "hub.example".to_owned(), port: 443 }
}

fn state(has_server: Option<Origin>, login: LoginState) -> CloudState {
    CloudState { has_server, login }
}

fn logged_in(email: Option<&str>) -> LoginState {
    LoginState::Auth { email: email.map(|e| e.to_owned()) }
}

#[test]
fn the_prompt_leads_to_the_data() {
    let s = state(None, LoginState::NoAuth);
    assert!(!s.is_logged_in() && !s.has_server());
    let p = s.prompt(EN);
    assert_eq!(p.button, "Add server and login");
    assert!(matches!(p.action, CloudAction::Command(UICommand::AddRedapServer)));
    assert!(p.note.is_none());

    let p = state(None, logged_in(Some("a@b"))).prompt(EN);
    assert_eq!(p.button, "Add server");
    assert_eq!(p.note, Some(("logged in as ", "a@b".to_owned())));
    assert!(state(None, logged_in(None)).prompt(EN).note.is_none());

    let p = state(Some(origin()), LoginState::NoAuth).prompt(ZH);
    assert_eq!(p.button, "添加凭证");
    assert!(matches!(p.action, CloudAction::EditServer(_)));
    assert_eq!(p.note, Some(("服务器地址 ", "hub.example".to_owned())));

    let s = state(Some(origin()), logged_in(None));
    assert!(s.is_logged_in() && s.has_server());
    let p = s.prompt(ZH);
    assert_eq!(p.button, "探索你的数据");
    assert!(matches!(p.action, CloudAction::SelectServer(o) if o.host == "hub.example"));
}

#[test]
fn the_cards_follow_the_deployment() {
    let native = IntroItem::items(false, &Console::new(Platform::Native), None, EN);
    assert_eq!(native.len(), 4);
    assert!(matches!(native[0], IntroItem::GuideItem { title: "User guide" }));
    assert!(!native.iter().any(|i| matches!(i, IntroItem::DeploymentItem { .. })));

    let mut console = Console::new(Platform::Web);
    set_base_url(&mut console, "https://c/");
    let web = IntroItem::items(true, &console, Some("/downloads".to_owned()), ZH);
    assert_eq!(web.len(), 7);
    let card = web[0].link_card(ZH).unwrap();
    assert_eq!((card.title, card.link_label, card.url.as_str()), ("数据质检", "打开", "https://c"));
    assert_eq!(web[1].link_card(ZH).unwrap().url, "/downloads");
    assert!(web[2].link_card(ZH).is_none());
    let doc = web[3].link_card(ZH).unwrap();
    assert_eq!(doc.link_label, "文档");
    assert_eq!(doc.url, "https://rerun.io/docs/getting-started/data-in");
    assert!(web[6].is_inverted() && !web[0].is_inverted());
    assert_eq!((web[6].min_width(), web[0].min_width()), (400, 200));

    let rows = intro_rows(&web, EN);
    assert_eq!(rows.len(), 2);
    assert_eq!(rows[0].header, "Volcengine enhancements");
    assert_eq!(rows[0].cards, vec![0, 1, 2]);
    assert_eq!(rows[1].header, "About the original Rerun");
    assert_eq!(rows[1].cards, vec![3, 4, 5, 6]);
    assert!(intro_rows(&vec![], EN).is_empty());
}

#[test]
fn clicks_are_recorded() {
    let s = state(Some(origin()), LoginState::NoAuth);
    let items = IntroItem::items(false, &Console::new(Platform::Web), None, EN);
    let n = items[0].link_navigation(&s).unwrap();
    assert_eq!((n.card_type, n.destination.as_str()), ("deployment", "/curation"));
    assert!(!n.cta_cloud && !n.is_logged_in && n.has_server);
    assert!(items[1].link_navigation(&s).is_none());
    assert_eq!(items[2].link_navigation(&s).unwrap().card_type, "docs");
    let n = guide_navigation(1, &s);
    assert_eq!((n.card_type, n.destination.as_str()), ("guide", "user-guide:1"));
    let n = hub_navigation(Some(HubLink::LearnMore), &s);
    assert_eq!(n.destination, HubLink::LearnMore.url());
    assert!(!n.cta_cloud);
    let n = hub_navigation(None, &s);
    assert!(n.cta_cloud && n.destination.is_empty());
    assert_eq!(n.card_type, "redap");
}

#[test]
fn the_guide_has_its_pages() {
    let pages = guide_pages(ZH);
    assert_eq!(pages.len(), 2);
    assert_eq!(pages[1], ("Catalog server 篇 — 查询 TOS 数据集并用于训练", 1));
    assert_eq!(hub_texts(EN).0, "Rerun Hub");
    assert_eq!(HubLink::BookDemo.label(ZH), "预约演示");
    assert_eq!(greeting("a@b", EN), ("Hi, a@b!".to_owned(), "Log out"));
    assert_eq!(greeting("a@b", ZH), ("你好，a@b！".to_owned(), "退出登录"));
    assert!(on_log_out(false).is_none());
    match on_log_out(true) {
        Some(Effect::System(SystemCommand::Logout)) => {}
        other => panic!("{other:?}"),
    }
}
