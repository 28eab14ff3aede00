//! The feature cards of the welcome screen.
use vstd::prelude::*;
use vstd::string::*;

use crate::command::ui_command::UICommand;
use crate::daft_link;
use crate::daft_link::Console;
use crate::effects::{Effect, Origin, SystemCommand};
use crate::i18n;
use crate::i18n::{tr, Language};
use crate::text;

verus! {

/// Whether the user is logged in, and as whom.
#[derive(Debug)]
pub enum LoginState {
    NoAuth,
    Auth { email: Option<String> },
}

/// How the user stands to the data platform.
#[derive(Debug)]
pub struct CloudState {
    pub has_server: Option<Origin>,
    pub login: LoginState,
}

impl CloudState {
    pub fn is_logged_in(&self) -> (r: bool)
        ensures
            r == self.login is Auth,
    {
        match &self.login {
            LoginState::Auth { .. } => true,
            LoginState::NoAuth => false,
        }
    }

    pub fn has_server(&self) -> (r: bool)
        ensures
            r == self.has_server is Some,
    {
        self.has_server.is_some()
    }
}

/// A card.
#[derive(Debug)]
#[allow(inconsistent_fields)]
pub enum IntroItem {
    DocItem { title: &'static str, url: &'static str, body: &'static str },
    /// A link into this deployment (curation console, SDK downloads): same-domain paths, so
    /// on the web only.
    DeploymentItem {
        title: &'static str,
        link_label: &'static str,
        url: String,
        body: &'static str,
    },
    /// The user guide, which is embedded and rendered in-app.
    GuideItem { title: &'static str },
    CloudLoginItem,
}

/// A card as a view.
pub enum ItemView {
    Doc(Seq<char>, Seq<char>, Seq<char>),
    Deployment(Seq<char>, Seq<char>, Seq<char>, Seq<char>),
    Guide(Seq<char>),
    CloudLogin,
}

pub open spec fn item_view(item: IntroItem) -> ItemView {
    match item {
        IntroItem::DocItem { title, url, body } => ItemView::Doc(title@, url@, body@),
        IntroItem::DeploymentItem { title, link_label, url, body } => ItemView::Deployment(
            title@,
            link_label@,
            url@,
            body@,
        ),
        IntroItem::GuideItem { title } => ItemView::Guide(title@),
        IntroItem::CloudLoginItem => ItemView::CloudLogin,
    }
}

pub open spec fn item_views(items: Seq<IntroItem>) -> Seq<ItemView> {
    Seq::new(items.len(), |i: int| item_view(items[i]))
}

/// The cards that lead into the deployment.
pub open spec fn deployment_cards(
    curation: Option<Seq<char>>,
    downloads: Option<Seq<char>>,
    lang: Language,
) -> Seq<ItemView> {
    (match curation {
        Some(url) => seq![
            ItemView::Deployment(
                i18n::translated(lang, "Curate data"@, "数据质检"@),
                i18n::translated(lang, "Open"@, "打开"@),
                url,
                i18n::translated(
                    lang,
                    "Run quality checks on your Volcengine TOS datasets in the curation console."@,
                    "在质检台里对火山引擎 TOS 数据集做质量检查。"@,
                ),
            ),
        ],
        None => seq![],
    }) + (match downloads {
        Some(url) => seq![
            ItemView::Deployment(
                i18n::translated(lang, "Get the SDK"@, "下载 SDK"@),
                i18n::translated(lang, "Download"@, "下载"@),
                url,
                i18n::translated(
                    lang,
                    "Volcengine-enhanced Python SDK — wheels for every platform with the viewer built in. Install with pip."@,
                    "火山引擎增强版 Python SDK — 各平台 wheel 均内置 Viewer，用 pip 安装即可。"@,
                ),
            ),
        ],
        None => seq![],
    })
}

/// The cards that lead to the documentation.
pub open spec fn doc_cards(lang: Language) -> Seq<ItemView> {
    seq![
        ItemView::Doc(
            i18n::translated(lang, "Send data in"@, "写入数据"@),
            "https://rerun.io/docs/getting-started/data-in"@,
            i18n::translated(
                lang,
                "Ingest multi-rate, multimodal data from robot logs, sensors, simulation, or video."@,
                "从机器人日志、传感器、仿真或视频接入多频率、多模态数据。"@,
            ),
        ),
        ItemView::Doc(
            i18n::translated(lang, "Explore data"@, "探索数据"@),
            "https://rerun.io/docs/getting-started/configure-the-viewer"@,
            i18n::translated(
                lang,
                "Visualize and explore multi-rate, multimodal data across every stage of the pipeline."@,
                "可视化并探索管线各环节的多频率、多模态数据。"@,
            ),
        ),
        ItemView::Doc(
            i18n::translated(lang, "Query data out"@, "查询数据"@),
            "https://rerun.io/docs/getting-started/data-out"@,
            i18n::translated(
                lang,
                "Query raw, intermediate, and derived data with dataframes or SQL, and stream to training."@,
                "用 dataframe 或 SQL 查询原始、中间和派生数据，并流式接入训练。"@,
            ),
        ),
    ]
}

/// All cards, in their order.
pub open spec fn all_cards(
    curation: Option<Seq<char>>,
    downloads: Option<Seq<char>>,
    login_enabled: bool,
    lang: Language,
) -> Seq<ItemView> {
    deployment_cards(curation, downloads, lang) + seq![
        ItemView::Guide(i18n::translated(lang, "User guide"@, "用户指南"@)),
    ] + doc_cards(lang) + (if login_enabled {
        seq![ItemView::CloudLogin]
    } else {
        seq![]
    })
}

fn push_item(items: &mut Vec<IntroItem>, item: IntroItem)
    ensures
        item_views(final(items)@) == item_views(old(items)@).push(item_view(item)),
{
    items.push(item);
    assert(item_views(items@) =~= item_views(old(items)@).push(item_view(item)));
}

impl IntroItem {
    /// The cards, in their order. Where the curation console and the downloads are depends on
    /// the deployment: their cards are there if it has them.
    pub fn items(
        login_enabled: bool,
        console: &Console,
        downloads_url: Option<String>,
        lang: Language,
    ) -> (r: Vec<Self>)
        ensures
            item_views(r@) == all_cards(
                daft_link::address(*console),
                text::opt_view(downloads_url),
                login_enabled,
                lang,
            ),
    {
        let mut items: Vec<IntroItem> = Vec::new();
        assert(item_views(items@) =~= Seq::empty());
        if let Some(url) = daft_link::base_url(console) {
            push_item(
                &mut items,
                IntroItem::DeploymentItem {
                    title: tr(lang, "Curate data", "数据质检"),
                    link_label: tr(lang, "Open", "打开"),
                    url,
                    body: tr(
                        lang,
                        "Run quality checks on your Volcengine TOS datasets in the curation console.",
                        "在质检台里对火山引擎 TOS 数据集做质量检查。",
                    ),
                },
            );
        }
        let ghost downloads = text::opt_view(downloads_url);
        if let Some(url) = downloads_url {
            push_item(
                &mut items,
                IntroItem::DeploymentItem {
                    title: tr(lang, "Get the SDK", "下载 SDK"),
                    link_label: tr(lang, "Download", "下载"),
                    url,
                    body: tr(
                        lang,
                        "Volcengine-enhanced Python SDK — wheels for every platform with the viewer built in. Install with pip.",
                        "火山引擎增强版 Python SDK — 各平台 wheel 均内置 Viewer，用 pip 安装即可。",
                    ),
                },
            );
        }
        assert(item_views(items@) =~= deployment_cards(
            daft_link::address(*console),
            downloads,
            lang,
        ));
        push_item(&mut items, IntroItem::GuideItem { title: tr(lang, "User guide", "用户指南") });
        push_item(
            &mut items,
            IntroItem::DocItem {
                title: tr(lang, "Send data in", "写入数据"),
                url: "https://rerun.io/docs/getting-started/data-in",
                body: tr(
                    lang,
                    "Ingest multi-rate, multimodal data from robot logs, sensors, simulation, or video.",
                    "从机器人日志、传感器、仿真或视频接入多频率、多模态数据。",
                ),
            },
        );
        push_item(
            &mut items,
            IntroItem::DocItem {
                title: tr(lang, "Explore data", "探索数据"),
                url: "https://rerun.io/docs/getting-started/configure-the-viewer",
                body: tr(
                    lang,
                    "Visualize and explore multi-rate, multimodal data across every stage of the pipeline.",
                    "可视化并探索管线各环节的多频率、多模态数据。",
                ),
            },
        );
        push_item(
            &mut items,
            IntroItem::DocItem {
                title: tr(lang, "Query data out", "查询数据"),
                url: "https://rerun.io/docs/getting-started/data-out",
                body: tr(
                    lang,
                    "Query raw, intermediate, and derived data with dataframes or SQL, and stream to training.",
                    "用 dataframe 或 SQL 查询原始、中间和派生数据，并流式接入训练。",
                ),
            },
        );
        if login_enabled {
            push_item(&mut items, IntroItem::CloudLoginItem);
        }
        assert(item_views(items@) =~= all_cards(
            daft_link::address(*console),
            downloads,
            login_enabled,
            lang,
        ));
        items
    }

    /// How wide the card is at least, in points.
    pub fn min_width(&self) -> (r: u32)
        ensures
            r == (if self is CloudLoginItem {
                400u32
            } else {
                200u32
            }),
    {
        match self {
            IntroItem::CloudLoginItem => 400,
            _ => 200,
        }
    }

    /// Whether the card is shown in the colors of the opposite theme.
    pub fn is_inverted(&self) -> (r: bool)
        ensures
            r == self is CloudLoginItem,
    {
        match self {
            IntroItem::CloudLoginItem => true,
            _ => false,
        }
    }

    /// Whether the card is about what this viewer has on top of the usual.
    pub open spec fn is_ours(self) -> bool {
        self is DeploymentItem || self is GuideItem
    }

    fn belongs_to_us(&self) -> (r: bool)
        ensures
            r == self.is_ours(),
    {
        match self {
            IntroItem::DeploymentItem { .. } | IntroItem::GuideItem { .. } => true,
            _ => false,
        }
    }
}

// ---------------------------------------------------------------------------------------
// The contents of the cards

/// What a card of the documentation or of the deployment shows.
#[derive(Debug)]
pub struct LinkCard {
    pub title: &'static str,
    pub link_label: &'static str,
    pub url: String,
    pub body: &'static str,
}

impl IntroItem {
    /// What a card shows that is about a link.
    pub fn link_card(&self, lang: Language) -> (r: Option<LinkCard>)
        ensures
            match *self {
                IntroItem::DocItem { title, url, body } => r matches Some(card) && card.title
                    == title && card.link_label@ == i18n::translated(lang, "Docs"@, "文档"@)
                    && card.url@ == url@ && card.body == body,
                IntroItem::DeploymentItem { title, link_label, url, body } => r matches Some(card)
                    && card.title == title && card.link_label == link_label && card.url == url
                    && card.body == body,
                _ => r is None,
            },
    {
        match self {
            IntroItem::DocItem { title, url, body } => Some(
                LinkCard {
                    title: *title,
                    link_label: tr(lang, "Docs", "文档"),
                    url: (*url).to_owned(),
                    body: *body,
                },
            ),
            IntroItem::DeploymentItem { title, link_label, url, body } => Some(
                LinkCard { title: *title, link_label: *link_label, url: url.clone(), body: *body },
            ),
            _ => None,
        }
    }
}

/// The pages of the user guide: what the links to them read as, in their order.
pub open spec fn guide_labels(lang: Language) -> Seq<Seq<char>> {
    seq![
        i18n::translated(
            lang,
            "Viewer — open, visualize & explore datasets"@,
            "Viewer 篇 — 浏览和探索数据集"@,
        ),
        i18n::translated(
            lang,
            "Catalog server — query & train on TOS datasets"@,
            "Catalog server 篇 — 查询 TOS 数据集并用于训练"@,
        ),
    ]
}

/// The user guides for this viewer's features: label and in-app guide page index.
pub fn guide_pages(lang: Language) -> (r: Vec<(&'static str, usize)>)
    ensures
        r@.len() == guide_labels(lang).len(),
        forall|i: int|
            0 <= i < r@.len() ==> (#[trigger] r@[i]).0@ == guide_labels(lang)[i] && r@[i].1 == i,
{
    let list: Vec<(&'static str, usize)> = vec![
        (
            tr(
                lang,
                "Viewer — open, visualize & explore datasets",
                "Viewer 篇 — 浏览和探索数据集",
            ),
            0,
        ),
        (
            tr(
                lang,
                "Catalog server — query & train on TOS datasets",
                "Catalog server 篇 — 查询 TOS 数据集并用于训练",
            ),
            1,
        ),
    ];
    list
}

/// A link of the card of the data platform.
#[derive(Clone, Copy, Debug, PartialEq, Eq, Structural)]
pub enum HubLink {
    LearnMore,
    BookDemo,
}

pub open spec fn hub_url(link: HubLink) -> Seq<char> {
    match link {
        HubLink::LearnMore => "https://rerun.io/#rerun-data-platform"@,
        HubLink::BookDemo => "https://calendly.com/d/ctht-4kp-qnt/rerun-demo-meeting"@,
    }
}

impl HubLink {
    pub fn url(self) -> (r: &'static str)
        ensures
            r@ == hub_url(self),
    {
        match self {
            HubLink::LearnMore => "https://rerun.io/#rerun-data-platform",
            HubLink::BookDemo => "https://calendly.com/d/ctht-4kp-qnt/rerun-demo-meeting",
        }
    }

    pub fn label(self, lang: Language) -> (r: &'static str)
        ensures
            r@ == (match self {
                HubLink::LearnMore => i18n::translated(lang, "Learn more"@, "了解更多"@),
                HubLink::BookDemo => i18n::translated(lang, "book a demo"@, "预约演示"@),
            }),
    {
        match self {
            HubLink::LearnMore => tr(lang, "Learn more", "了解更多"),
            HubLink::BookDemo => tr(lang, "book a demo", "预约演示"),
        }
    }
}

/// The heading of the card of the data platform, and its text: what stands before, between
/// and behind its two links.
pub fn hub_texts(lang: Language) -> (r: (&'static str, &'static str, &'static str, &'static str))
    ensures
        r.0@ == "Rerun Hub"@,
        r.1@ == i18n::translated(
            lang,
            "The production backend for the Rerun data layer — turn your object stores into a queryable, streamable foundation. "@,
            "Rerun 数据层的生产级后端 — 把你的对象存储变成可查询、可流式读取的数据底座。"@,
        ),
        r.2@ == i18n::translated(lang, " or "@, " 或 "@),
        r.3@ == "。"@,
{
    (
        "Rerun Hub",
        tr(
            lang,
            "The production backend for the Rerun data layer — turn your object stores into a queryable, streamable foundation. ",
            "Rerun 数据层的生产级后端 — 把你的对象存储变成可查询、可流式读取的数据底座。",
        ),
        tr(lang, " or ", " 或 "),
        "。",
    )
}

/// What the button of that card does.
#[derive(Debug)]
pub enum CloudAction {
    Command(UICommand),
    /// Let the user enter credentials for this server.
    EditServer(Origin),
    /// Show this server.
    SelectServer(Origin),
}

/// The button of that card, and what stands beside it: a note, and what it is about.
#[derive(Debug)]
pub struct CloudPrompt {
    pub button: &'static str,
    pub action: CloudAction,
    pub note: Option<(&'static str, String)>,
}

/// The next step towards the user's data: to add a server, to log in, or to look at it.
pub open spec fn prompt_button(state: CloudState, lang: Language) -> Seq<char> {
    match (state.has_server, state.login) {
        (None, LoginState::NoAuth) => i18n::translated(
            lang,
            "Add server and login"@,
            "添加服务器并登录"@,
        ),
        (None, LoginState::Auth { .. }) => i18n::translated(lang, "Add server"@, "添加服务器"@),
        (Some(_), LoginState::NoAuth) => i18n::translated(lang, "Add credentials"@, "添加凭证"@),
        (Some(_), LoginState::Auth { .. }) => i18n::translated(
            lang,
            "Explore your data"@,
            "探索你的数据"@,
        ),
    }
}

pub open spec fn prompt_action(state: CloudState) -> CloudAction {
    match (state.has_server, state.login) {
        (None, _) => CloudAction::Command(UICommand::AddRedapServer),
        (Some(origin), LoginState::NoAuth) => CloudAction::EditServer(origin),
        (Some(origin), LoginState::Auth { .. }) => CloudAction::SelectServer(origin),
    }
}

/// What stands beside the button: who is logged in, or which server it is about.
pub open spec fn prompt_note(state: CloudState, lang: Language) -> Option<(Seq<char>, Seq<char>)> {
    match (state.has_server, state.login) {
        (None, LoginState::Auth { email: Some(email) }) => Some(
            (i18n::translated(lang, "logged in as "@, "当前登录账号 "@), email@),
        ),
        (Some(origin), LoginState::NoAuth) => Some(
            (i18n::translated(lang, "for address "@, "服务器地址 "@), origin.host@),
        ),
        _ => None,
    }
}

impl CloudState {
    /// The button of the card of the data platform, and what stands beside it.
    pub fn prompt(&self, lang: Language) -> (r: CloudPrompt)
        ensures
            r.button@ == prompt_button(*self, lang),
            r.action == prompt_action(*self),
            (match r.note {
                Some((words, what)) => Some((words@, what@)),
                None => None,
            }) == prompt_note(*self, lang),
    {
        match &self.has_server {
            None => match &self.login {
                LoginState::NoAuth => CloudPrompt {
                    button: tr(lang, "Add server and login", "添加服务器并登录"),
                    action: CloudAction::Command(UICommand::AddRedapServer),
                    note: None,
                },
                LoginState::Auth { email } => CloudPrompt {
                    button: tr(lang, "Add server", "添加服务器"),
                    action: CloudAction::Command(UICommand::AddRedapServer),
                    note: match email {
                        Some(email) => Some(
                            (tr(lang, "logged in as ", "当前登录账号 "), email.clone()),
                        ),
                        None => None,
                    },
                },
            },
            Some(origin) => match &self.login {
                LoginState::NoAuth => CloudPrompt {
                    button: tr(lang, "Add credentials", "添加凭证"),
                    action: CloudAction::EditServer(origin.clone()),
                    note: Some((tr(lang, "for address ", "服务器地址 "), origin.host.clone())),
                },
                LoginState::Auth { .. } => CloudPrompt {
                    button: tr(lang, "Explore your data", "探索你的数据"),
                    action: CloudAction::SelectServer(origin.clone()),
                    note: None,
                },
            },
        }
    }
}

// ---------------------------------------------------------------------------------------
// What is recorded of clicks

/// A click that leads away from the welcome screen.
#[derive(Debug)]
pub struct WelcomeScreenNavigation {
    pub card_type: &'static str,
    pub destination: String,
    /// Whether it was the button of the data platform.
    pub cta_cloud: bool,
    pub is_logged_in: bool,
    pub has_server: bool,
}

/// Whether a record says this of a click.
pub open spec fn records(
    n: WelcomeScreenNavigation,
    card_type: Seq<char>,
    destination: Seq<char>,
    cta_cloud: bool,
    state: CloudState,
) -> bool {
    &&& n.card_type@ == card_type
    &&& n.destination@ == destination
    &&& n.cta_cloud == cta_cloud
    &&& n.is_logged_in == state.login is Auth
    &&& n.has_server == state.has_server is Some
}

impl IntroItem {
    /// What is recorded of a click on the link of a card.
    pub fn link_navigation(&self, state: &CloudState) -> (r: Option<WelcomeScreenNavigation>)
        ensures
            match *self {
                IntroItem::DocItem { url, .. } => r matches Some(n) && records(
                    n,
                    "docs"@,
                    url@,
                    false,
                    *state,
                ),
                IntroItem::DeploymentItem { url, .. } => r matches Some(n) && records(
                    n,
                    "deployment"@,
                    url@,
                    false,
                    *state,
                ),
                _ => r is None,
            },
    {
        match self {
            IntroItem::DocItem { url, .. } => Some(
                WelcomeScreenNavigation {
                    card_type: "docs",
                    destination: (*url).to_owned(),
                    cta_cloud: false,
                    is_logged_in: state.is_logged_in(),
                    has_server: state.has_server(),
                },
            ),
            IntroItem::DeploymentItem { url, .. } => Some(
                WelcomeScreenNavigation {
                    card_type: "deployment",
                    destination: url.clone(),
                    cta_cloud: false,
                    is_logged_in: state.is_logged_in(),
                    has_server: state.has_server(),
                },
            ),
            _ => None,
        }
    }
}

/// What is recorded of a click on a page of the guide.
pub fn guide_navigation(page: usize, state: &CloudState) -> (r: WelcomeScreenNavigation)
    ensures
        records(r, "guide"@, "user-guide:"@ + text::decimal(page as nat), false, *state),
{
    let mut destination: String = "user-guide:".to_owned();
    text::push_decimal(&mut destination, page as u64);
    WelcomeScreenNavigation {
        card_type: "guide",
        destination,
        cta_cloud: false,
        is_logged_in: state.is_logged_in(),
        has_server: state.has_server(),
    }
}

/// What is recorded of a click in the card of the data platform: on a link, or on its button.
pub fn hub_navigation(link: Option<HubLink>, state: &CloudState) -> (r: WelcomeScreenNavigation)
    ensures
        match link {
            Some(link) => records(r, "redap"@, hub_url(link), false, *state),
            None => records(r, "redap"@, Seq::empty(), true, *state),
        },
{
    WelcomeScreenNavigation {
        card_type: "redap",
        destination: match link {
            Some(link) => link.url().to_owned(),
            None => String::new(),
        },
        cta_cloud: link.is_none(),
        is_logged_in: state.is_logged_in(),
        has_server: state.has_server(),
    }
}

// ---------------------------------------------------------------------------------------
// Rows

/// The positions of the cards that are ours, or of the others.
pub open spec fn positions(items: Seq<IntroItem>, ours: bool) -> Seq<usize>
    decreases items.len(),
{
    if items.len() == 0 {
        Seq::empty()
    } else {
        let before = positions(items.drop_last(), ours);
        if items.last().is_ours() == ours {
            before.push((items.len() - 1) as usize)
        } else {
            before
        }
    }
}

/// The header of a row of cards.
pub open spec fn row_header(ours: bool, lang: Language) -> Seq<char> {
    if ours {
        i18n::translated(lang, "Volcengine enhancements"@, "火山引擎增强功能"@)
    } else {
        i18n::translated(lang, "About the original Rerun"@, "关于原版 Rerun"@)
    }
}

/// A row of cards: its header, and which cards are in it.
#[derive(Debug)]
pub struct IntroRow {
    pub header: &'static str,
    pub cards: Vec<usize>,
}

fn row_of(items: &Vec<IntroItem>, ours: bool, lang: Language) -> (r: IntroRow)
    ensures
        r.header@ == row_header(ours, lang),
        r.cards@ == positions(items@, ours),
{
    let n: usize = items.len();
    let mut cards: Vec<usize> = Vec::new();
    let mut i: usize = 0;
    while i < n
        invariant
            i <= n,
            n == items@.len(),
            cards@ == positions(items@.take(i as int), ours),
        decreases n - i,
    {
        assert(items@.take(i + 1).drop_last() =~= items@.take(i as int));
        if items[i].belongs_to_us() == ours {
            cards.push(i);
        }
        i += 1;
    }
    assert(items@.take(n as int) =~= items@);
    IntroRow {
        header: if ours {
            tr(lang, "Volcengine enhancements", "火山引擎增强功能")
        } else {
            tr(lang, "About the original Rerun", "关于原版 Rerun")
        },
        cards,
    }
}

/// The rows as views: header and cards. A row without cards is not there.
pub open spec fn row_if_any(items: Seq<IntroItem>, ours: bool, lang: Language) -> Seq<
    (Seq<char>, Seq<usize>),
> {
    if positions(items, ours).len() > 0 {
        seq![(row_header(ours, lang), positions(items, ours))]
    } else {
        seq![]
    }
}

pub open spec fn row_views(rows: Seq<IntroRow>) -> Seq<(Seq<char>, Seq<usize>)> {
    Seq::new(rows.len(), |i: int| (rows[i].header@, rows[i].cards@))
}

/// Two labeled rows: this deployment's own cards (curation, SDK, user guide) first, the
/// upstream doc cards and the cloud banner below.
pub fn intro_rows(items: &Vec<IntroItem>, lang: Language) -> (r: Vec<IntroRow>)
    ensures
        row_views(r@) == row_if_any(items@, true, lang) + row_if_any(items@, false, lang),
{
    let ours: IntroRow = row_of(items, true, lang);
    let upstream: IntroRow = row_of(items, false, lang);
    let mut out: Vec<IntroRow> = Vec::new();
    if ours.cards.len() > 0 {
        out.push(ours);
    }
    assert(row_views(out@) =~= row_if_any(items@, true, lang));
    if upstream.cards.len() > 0 {
        out.push(upstream);
    }
    assert(row_views(out@) =~= row_if_any(items@, true, lang) + row_if_any(items@, false, lang));
    out
}

/// What a logged-in user is greeted with, and the button beside it.
pub fn greeting(email: &str, lang: Language) -> (r: (String, &'static str))
    ensures
        r.0@ == i18n::translated(lang, "Hi, "@, "你好，"@) + email@ + i18n::translated(
            lang,
            "!"@,
            "！"@,
        ),
        r.1@ == i18n::translated(lang, "Log out"@, "退出登录"@),
{
    (
        text::cat3(tr(lang, "Hi, ", "你好，"), email, tr(lang, "!", "！")),
        tr(lang, "Log out", "退出登录"),
    )
}

/// What a click on the button beside the greeting does.
pub fn on_log_out(clicked: bool) -> (r: Option<Effect>)
    ensures
        r == (if clicked {
            Some(Effect::System(SystemCommand::Logout))
        } else {
            None
        }),
{
    if clicked {
        Some(Effect::System(SystemCommand::Logout))
    } else {
        None
    }
}

// ---------------------------------------------------------------------------------------
// Laws

/// Every card is in one of the rows, and in no more than one.
pub proof fn law_every_card_has_its_row(items: Seq<IntroItem>, i: usize)
    requires
        items.len() <= usize::MAX,
    ensures
        positions(items, true).contains(i) <==> i < items.len() && items[i as int].is_ours(),
        positions(items, false).contains(i) <==> i < items.len() && !items[i as int].is_ours(),
        positions(items, true).len() + positions(items, false).len() == items.len(),
    decreases items.len(),
{
    if items.len() > 0 {
        let front = items.drop_last();
        let last = (items.len() - 1) as usize;
        law_every_card_has_its_row(front, i);
        lemma_push_contains(positions(front, true), last, i);
        lemma_push_contains(positions(front, false), last, i);
    }
}

proof fn lemma_push_contains(s: Seq<usize>, x: usize, y: usize)
    ensures
        s.push(x).contains(y) <==> s.contains(y) || x == y,
{
    if s.contains(y) {
        let i = choose|i: int| 0 <= i < s.len() && s[i] == y;
        assert(s.push(x)[i] == y);
    }
    if x == y {
        assert(s.push(x)[s.len() as int] == y);
    }
    if s.push(x).contains(y) && x != y {
        let i = choose|i: int| 0 <= i < s.push(x).len() && s.push(x)[i] == y;
        assert(s[i] == y);
    }
}

/// A native viewer has no card that leads into a deployment.
pub proof fn law_native_has_no_deployment_cards(login_enabled: bool, lang: Language, i: int)
    requires
        0 <= i < all_cards(None, None, login_enabled, lang).len(),
    ensures
        !(all_cards(None, None, login_enabled, lang)[i] is Deployment),
{
}

/// Only who has a server and is logged in is sent to their data; everyone else is asked for
/// what is missing.
pub proof fn law_prompt_asks_for_what_is_missing(state: CloudState)
    ensures
        prompt_action(state) is SelectServer <==> state.has_server is Some && state.login is Auth,
        prompt_action(state) is EditServer <==> state.has_server is Some && state.login is NoAuth,
        prompt_action(state) is Command <==> state.has_server is None,
{
}

/// Cards stand in their row in the order in which they are listed.
pub proof fn law_rows_keep_the_order(items: Seq<IntroItem>, ours: bool, i: int, j: int)
    requires
        items.len() <= usize::MAX,
        0 <= i < j < positions(items, ours).len(),
    ensures
        positions(items, ours)[i] < positions(items, ours)[j] < items.len(),
    decreases items.len(),
{
    if items.len() > 0 {
        let front = items.drop_last();
        let before = positions(front, ours);
        if j < before.len() {
            law_rows_keep_the_order(front, ours, i, j);
        } else {
            assert(before.contains(before[i]));
            law_every_card_has_its_row(front, before[i]);
        }
    }
}

/// What a deployment offers stands before the guide, the guide before the documentation, and
/// the login behind all of it; each is there if and only if there is something to lead to.
pub proof fn law_cards_lead_where_they_say(
    curation: Option<Seq<char>>,
    downloads: Option<Seq<char>>,
    login_enabled: bool,
    lang: Language,
)
    ensures
        ({
            let cards = all_cards(curation, downloads, login_enabled, lang);
            let deployed = (if curation is Some {
                1int
            } else {
                0
            }) + (if downloads is Some {
                1int
            } else {
                0
            });
            &&& cards.len() == deployed + 4 + (if login_enabled {
                1int
            } else {
                0
            })
            &&& curation is Some ==> cards[0] is Deployment && cards[0]->Deployment_2
                == curation->0
            &&& downloads is Some ==> cards[deployed - 1] is Deployment && cards[deployed
                - 1]->Deployment_2 == downloads->0
            &&& cards[deployed] is Guide
            &&& forall|i: int| deployed < i <= deployed + 3 ==> (#[trigger] cards[i]) is Doc
            &&& login_enabled ==> cards[deployed + 4] is CloudLogin
        }),
{
}

/// The prompt leads to the server that is there, and the account or the address is named where
/// the other one of the two is missing.
pub proof fn law_prompt_is_about_the_users_server(state: CloudState, lang: Language)
    ensures
        state.has_server is None ==> prompt_action(state) == CloudAction::Command(
            UICommand::AddRedapServer,
        ),
        state.has_server is Some && state.login is NoAuth ==> prompt_action(state)
            == CloudAction::EditServer(state.has_server->0),
        state.has_server is Some && state.login is Auth ==> prompt_action(state)
            == CloudAction::SelectServer(state.has_server->0),
        prompt_note(state, lang) is Some <==> {
            ||| state.has_server is None && state.login is Auth && state.login->email is Some
            ||| state.has_server is Some && state.login is NoAuth
        },
        prompt_note(state, lang) matches Some(note) ==> note.1 == (if state.has_server is Some {
            state.has_server->0.host@
        } else {
            state.login->email->0@
        }),
{
}

/// The button says what it does: its words tell apart who has a server and who does not, and
/// who is logged in and who is not.
pub proof fn law_button_says_what_it_does(a: CloudState, b: CloudState, lang: Language)
    ensures
        prompt_button(a, lang) == prompt_button(b, lang) <==> (a.has_server is Some) == (
        b.has_server is Some) && (a.login is Auth) == (b.login is Auth),
{
    reveal_strlit("Add server and login");
    reveal_strlit("Add server");
    reveal_strlit("Add credentials");
    reveal_strlit("Explore your data");
    reveal_strlit("添加服务器并登录");
    reveal_strlit("添加服务器");
    reveal_strlit("添加凭证");
    reveal_strlit("探索你的数据");
    assert("Add server and login"@.len() == 20 && "Add server"@.len() == 10
        && "Add credentials"@.len() == 15 && "Explore your data"@.len() == 17);
    assert("添加服务器并登录"@.len() == 8 && "添加服务器"@.len() == 5 && "添加凭证"@.len()
        == 4 && "探索你的数据"@.len() == 6);
}

/// What is recorded of a click tells the card, where it led, and who clicked.
pub proof fn law_click_is_recorded_as_it_was(
    n: WelcomeScreenNavigation,
    card_type: Seq<char>,
    destination: Seq<char>,
    cta_cloud: bool,
    state: CloudState,
)
    requires
        records(n, card_type, destination, cta_cloud, state),
    ensures
        n.card_type@ == card_type,
        n.destination@ == destination,
        n.cta_cloud <==> cta_cloud,
        n.is_logged_in <==> !(state.login is NoAuth),
        n.has_server <==> !(state.has_server is None),
{
}

/// A row of cards is there if and only if there are cards for it, and those of the deployment
/// have a heading of their own.
pub proof fn law_rows_are_there_for_cards(items: Seq<IntroItem>, ours: bool, lang: Language)
    ensures
        row_if_any(items, ours, lang).len() == 0 <==> positions(items, ours).len() == 0,
        row_if_any(items, ours, lang).len() <= 1,
        row_if_any(items, ours, lang).len() > 0 ==> row_if_any(items, ours, lang)[0].1 == positions(
            items,
            ours,
        ),
        row_header(true, lang) != row_header(false, lang),
{
    reveal_strlit("Volcengine enhancements");
    reveal_strlit("About the original Rerun");
    reveal_strlit("火山引擎增强功能");
    reveal_strlit("关于原版 Rerun");
    assert("Volcengine enhancements"@[0] == 'V' && "About the original Rerun"@[0] == 'A');
    assert("火山引擎增强功能"@[0] == '火' && "关于原版 Rerun"@[0] == '关');
}

} // verus!
