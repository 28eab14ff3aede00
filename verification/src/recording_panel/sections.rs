//! The sections of the panel, and its menu for adding data.
use vstd::prelude::*;
use vstd::string::*;

use crate::command::ui_command::UICommand;
use crate::effects::{Effect, Route, SystemCommand};
use crate::i18n;
use crate::i18n::{tr, Language};
use crate::recording_panel::server_rows;
use crate::text;

verus! {

/// The title of the panel, and its hint.
pub fn panel_title(lang: Language) -> (r: (&'static str, &'static str))
    ensures
        r.0@ == i18n::translated(lang, "Sources"@, "数据来源"@),
        r.1@ == i18n::translated(
            lang,
            "Your connected servers, opened recordings and tables."@,
            "已连接的服务器、已打开的 episode 和表格。"@,
        ),
{
    (
        tr(lang, "Sources", "数据来源"),
        tr(
            lang,
            "Your connected servers, opened recordings and tables.",
            "已连接的服务器、已打开的 episode 和表格。",
        ),
    )
}

// ---------------------------------------------------------------------------------------
// The menu for adding data

/// An entry of the menu.
#[derive(Clone, Copy, Debug, PartialEq, Eq, Structural)]
pub enum AddMenuEntry {
    Command(UICommand),
    Separator,
    /// The heading of what this viewer has on top of the usual.
    ExtendedHeading,
    /// Marks what follows as there in debug builds only.
    DebugBadge,
    PrintEntityDbs,
    PrintPanelData,
}

/// The menu: the usual ways to open data, those that are special to this viewer and, in
/// debug builds, tools to look into the panel.
pub open spec fn add_menu_entries(debug: bool) -> Seq<AddMenuEntry> {
    seq![
        AddMenuEntry::Command(UICommand::Open),
        AddMenuEntry::Command(UICommand::OpenUrl),
        AddMenuEntry::Command(UICommand::AddRedapServer),
        AddMenuEntry::Separator,
        AddMenuEntry::ExtendedHeading,
        AddMenuEntry::Command(UICommand::OpenTosDataset),
        AddMenuEntry::Command(UICommand::OpenHfDataset),
    ] + (if debug {
        seq![
            AddMenuEntry::Separator,
            AddMenuEntry::DebugBadge,
            AddMenuEntry::PrintEntityDbs,
            AddMenuEntry::PrintPanelData,
        ]
    } else {
        seq![]
    })
}

pub fn add_menu(debug: bool) -> (r: Vec<AddMenuEntry>)
    ensures
        r@ == add_menu_entries(debug),
{
    let mut out: Vec<AddMenuEntry> = vec![
        AddMenuEntry::Command(UICommand::Open),
        AddMenuEntry::Command(UICommand::OpenUrl),
        AddMenuEntry::Command(UICommand::AddRedapServer),
        AddMenuEntry::Separator,
        AddMenuEntry::ExtendedHeading,
        AddMenuEntry::Command(UICommand::OpenTosDataset),
        AddMenuEntry::Command(UICommand::OpenHfDataset),
    ];
    if debug {
        out.push(AddMenuEntry::Separator);
        out.push(AddMenuEntry::DebugBadge);
        out.push(AddMenuEntry::PrintEntityDbs);
        out.push(AddMenuEntry::PrintPanelData);
    }
    assert(out@ =~= add_menu_entries(debug));
    out
}

/// The label of the menu's button, its hint, and the heading in the menu.
pub fn add_menu_texts(lang: Language) -> (r: (&'static str, &'static str, &'static str))
    ensures
        r.0@ == i18n::translated(lang, "Add…"@, "添加…"@),
        r.1@ == i18n::translated(
            lang,
            "Open a file, dataset or connect to a server"@,
            "打开文件、数据集，或连接服务器"@,
        ),
        r.2@ == i18n::translated(lang, "Extended"@, "扩展功能"@),
{
    (
        tr(lang, "Add…", "添加…"),
        tr(
            lang,
            "Open a file, dataset or connect to a server",
            "打开文件、数据集，或连接服务器",
        ),
        tr(lang, "Extended", "扩展功能"),
    )
}

// ---------------------------------------------------------------------------------------
// Sections

/// How much of each kind there is in the panel.
#[derive(Clone, Copy, Debug, PartialEq, Eq, Structural)]
pub struct PanelContents {
    pub show_example_section: bool,
    /// Whether there is nothing to list.
    pub is_empty: bool,
    pub servers: usize,
    pub tos_apps: usize,
    pub hf_apps: usize,
    pub local_apps: usize,
    pub local_tables: usize,
    pub loading_receivers: usize,
}

/// A section of the panel. Numbers are positions in what there is of the kind.
#[derive(Clone, Copy, Debug, PartialEq, Eq, Structural)]
pub enum Section {
    /// The welcome page, and the examples.
    Welcome,
    /// Says how to add something.
    EmptyHint,
    Server(usize),
    TosDatasets,
    HfDatasets,
    /// Local recordings and tables.
    Local,
    LoadingReceiver(usize),
}

pub open spec fn one_if(on: bool, section: Section) -> Seq<Section> {
    if on {
        seq![section]
    } else {
        seq![]
    }
}

/// The sections, from top to bottom. Those for datasets and for local data are there only if
/// there is something in them.
pub open spec fn panel_sections(c: PanelContents) -> Seq<Section> {
    one_if(c.show_example_section, Section::Welcome) + one_if(c.is_empty, Section::EmptyHint)
        + Seq::new(c.servers as nat, |i: int| Section::Server(i as usize)) + one_if(
        c.tos_apps > 0,
        Section::TosDatasets,
    ) + one_if(c.hf_apps > 0, Section::HfDatasets) + one_if(
        c.local_apps > 0 || c.local_tables > 0,
        Section::Local,
    ) + Seq::new(c.loading_receivers as nat, |i: int| Section::LoadingReceiver(i as usize))
}

/// The sections, from top to bottom.
pub fn all_sections(c: PanelContents) -> (r: Vec<Section>)
    ensures
        r@ == panel_sections(c),
{
    let mut out: Vec<Section> = Vec::new();
    if c.show_example_section {
        out.push(Section::Welcome);
    }
    if c.is_empty {
        out.push(Section::EmptyHint);
    }
    let ghost head = one_if(c.show_example_section, Section::Welcome) + one_if(
        c.is_empty,
        Section::EmptyHint,
    );
    assert(out@ =~= head);
    let ghost servers = Seq::new(c.servers as nat, |i: int| Section::Server(i as usize));
    let mut i: usize = 0;
    while i < c.servers
        invariant
            i <= c.servers,
            servers == Seq::new(c.servers as nat, |i: int| Section::Server(i as usize)),
            out@ == head + servers.take(i as int),
        decreases c.servers - i,
    {
        out.push(Section::Server(i));
        i += 1;
        assert(out@ =~= head + servers.take(i as int));
    }
    assert(servers.take(c.servers as int) =~= servers);
    if c.tos_apps > 0 {
        out.push(Section::TosDatasets);
    }
    if c.hf_apps > 0 {
        out.push(Section::HfDatasets);
    }
    if c.local_apps > 0 || c.local_tables > 0 {
        out.push(Section::Local);
    }
    let ghost middle = head + servers + one_if(c.tos_apps > 0, Section::TosDatasets) + one_if(
        c.hf_apps > 0,
        Section::HfDatasets,
    ) + one_if(c.local_apps > 0 || c.local_tables > 0, Section::Local);
    assert(out@ =~= middle);
    let ghost receivers = Seq::new(
        c.loading_receivers as nat,
        |i: int| Section::LoadingReceiver(i as usize),
    );
    let mut j: usize = 0;
    while j < c.loading_receivers
        invariant
            j <= c.loading_receivers,
            receivers == Seq::new(
                c.loading_receivers as nat,
                |i: int| Section::LoadingReceiver(i as usize),
            ),
            out@ == middle + receivers.take(j as int),
        decreases c.loading_receivers - j,
    {
        out.push(Section::LoadingReceiver(j));
        j += 1;
        assert(out@ =~= middle + receivers.take(j as int));
    }
    assert(receivers.take(c.loading_receivers as int) =~= receivers);
    out
}

/// The header of a section, if it has one.
pub open spec fn section_header(section: Section, lang: Language) -> Option<Seq<char>> {
    match section {
        Section::Welcome => Some(i18n::translated(lang, "Welcome to rerun"@, "欢迎使用 Rerun"@)),
        Section::TosDatasets => Some(i18n::translated(lang, "Volcengine TOS"@, "火山引擎 TOS"@)),
        Section::HfDatasets => Some("Hugging Face"@),
        Section::Local => Some(i18n::translated(lang, "Local"@, "本地"@)),
        _ => None,
    }
}

impl Section {
    /// The header of the section, if it has one.
    pub fn header(self, lang: Language) -> (r: Option<&'static str>)
        ensures
            (match r {
                Some(words) => Some(words@),
                None => None,
            }) == section_header(self, lang),
    {
        match self {
            Section::Welcome => Some(tr(lang, "Welcome to rerun", "欢迎使用 Rerun")),
            Section::TosDatasets => Some(tr(lang, "Volcengine TOS", "火山引擎 TOS")),
            Section::HfDatasets => Some("Hugging Face"),
            Section::Local => Some(tr(lang, "Local", "本地")),
            _ => None,
        }
    }
}

/// What an empty panel says.
pub fn empty_hint(lang: Language) -> (r: &'static str)
    ensures
        r@ == i18n::translated(
            lang,
            "Click + to add a recording, connect to a server or drag and drop a file directly to the viewer"@,
            "点击 + 添加 episode、连接服务器，或直接把文件拖进 Viewer"@,
        ),
{
    tr(
        lang,
        "Click + to add a recording, connect to a server or drag and drop a file directly to the viewer",
        "点击 + 添加 episode、连接服务器，或直接把文件拖进 Viewer",
    )
}

/// What a click on the welcome row does.
pub fn on_click_welcome() -> (r: Effect)
    ensures
        r == Effect::System(SystemCommand::SetRoute(Route::Welcome)),
{
    Effect::System(SystemCommand::SetRoute(Route::Welcome))
}

/// Every server and every source that is being loaded has its section; datasets and local
/// data have theirs if and only if there are any.
pub proof fn law_nothing_is_left_out(c: PanelContents, i: usize)
    ensures
        i < c.servers ==> panel_sections(c).contains(Section::Server(i)),
        i < c.loading_receivers ==> panel_sections(c).contains(Section::LoadingReceiver(i)),
        panel_sections(c).contains(Section::TosDatasets) <==> c.tos_apps > 0,
        panel_sections(c).contains(Section::HfDatasets) <==> c.hf_apps > 0,
        panel_sections(c).contains(Section::Local) <==> c.local_apps > 0 || c.local_tables > 0,
{
    let servers = Seq::new(c.servers as nat, |i: int| Section::Server(i as usize));
    let receivers = Seq::new(
        c.loading_receivers as nat,
        |i: int| Section::LoadingReceiver(i as usize),
    );
    if i < c.servers {
        assert(servers[i as int] == Section::Server(i));
        assert(servers.contains(Section::Server(i)));
    }
    if i < c.loading_receivers {
        assert(receivers[i as int] == Section::LoadingReceiver(i));
        assert(receivers.contains(Section::LoadingReceiver(i)));
    }
    lemma_listed(c, Section::Server(i));
    lemma_listed(c, Section::LoadingReceiver(i));
    lemma_listed(c, Section::TosDatasets);
    lemma_listed(c, Section::HfDatasets);
    lemma_listed(c, Section::Local);
}

proof fn lemma_one_if(on: bool, section: Section, x: Section)
    ensures
        one_if(on, section).contains(x) <==> on && section == x,
{
    if on {
        assert(one_if(on, section)[0] == section);
    }
}

proof fn lemma_listed(c: PanelContents, x: Section)
    ensures
        panel_sections(c).contains(x) <==> {
            ||| c.show_example_section && x == Section::Welcome
            ||| c.is_empty && x == Section::EmptyHint
            ||| Seq::new(c.servers as nat, |i: int| Section::Server(i as usize)).contains(x)
            ||| c.tos_apps > 0 && x == Section::TosDatasets
            ||| c.hf_apps > 0 && x == Section::HfDatasets
            ||| (c.local_apps > 0 || c.local_tables > 0) && x == Section::Local
            ||| Seq::new(
                c.loading_receivers as nat,
                |i: int| Section::LoadingReceiver(i as usize),
            ).contains(x)
        },
{
    let a = one_if(c.show_example_section, Section::Welcome);
    let b = one_if(c.is_empty, Section::EmptyHint);
    let servers = Seq::new(c.servers as nat, |i: int| Section::Server(i as usize));
    let tos = one_if(c.tos_apps > 0, Section::TosDatasets);
    let hf = one_if(c.hf_apps > 0, Section::HfDatasets);
    let local = one_if(c.local_apps > 0 || c.local_tables > 0, Section::Local);
    let receivers = Seq::new(
        c.loading_receivers as nat,
        |i: int| Section::LoadingReceiver(i as usize),
    );
    vstd::seq_lib::lemma_seq_concat_contains_all_elements(a, b, x);
    vstd::seq_lib::lemma_seq_concat_contains_all_elements(a + b, servers, x);
    vstd::seq_lib::lemma_seq_concat_contains_all_elements(a + b + servers, tos, x);
    vstd::seq_lib::lemma_seq_concat_contains_all_elements(a + b + servers + tos, hf, x);
    vstd::seq_lib::lemma_seq_concat_contains_all_elements(a + b + servers + tos + hf, local, x);
    vstd::seq_lib::lemma_seq_concat_contains_all_elements(a + b + servers + tos + hf + local, receivers, x);
    lemma_one_if(c.show_example_section, Section::Welcome, x);
    lemma_one_if(c.is_empty, Section::EmptyHint, x);
    lemma_one_if(c.tos_apps > 0, Section::TosDatasets, x);
    lemma_one_if(c.hf_apps > 0, Section::HfDatasets, x);
    lemma_one_if(c.local_apps > 0 || c.local_tables > 0, Section::Local, x);
}

// ---------------------------------------------------------------------------------------
// Sources that are being loaded

/// What the row of a source that is being loaded offers.
#[derive(Clone, Copy, Debug, PartialEq, Eq, Structural)]
pub enum ReceiverAction {
    Disconnect,
    CopyLink,
    CopyName,
}

pub open spec fn receiver_label(action: ReceiverAction, lang: Language) -> Seq<char> {
    match action {
        ReceiverAction::Disconnect => i18n::translated(
            lang,
            "Disconnect from this source"@,
            "断开与该数据来源的连接"@,
        ),
        ReceiverAction::CopyLink => i18n::translated(
            lang,
            "Copy link to segment"@,
            "复制分段链接"@,
        ),
        ReceiverAction::CopyName => i18n::translated(lang, "Copy segment name"@, "复制分段名称"@),
    }
}

impl ReceiverAction {
    pub fn label(self, lang: Language) -> (r: &'static str)
        ensures
            r@ == receiver_label(self, lang),
    {
        match self {
            ReceiverAction::Disconnect => tr(
                lang,
                "Disconnect from this source",
                "断开与该数据来源的连接",
            ),
            ReceiverAction::CopyLink => tr(lang, "Copy link to segment", "复制分段链接"),
            ReceiverAction::CopyName => tr(lang, "Copy segment name", "复制分段名称"),
        }
    }
}

/// Why the link to a segment cannot be copied.
pub fn no_segment_link_hint(link: &Result<String, String>, lang: Language) -> (r: String)
    ensures
        r@ == (match *link {
            Ok(_) => i18n::translated(
                lang,
                "Can't copy a link to this segment"@,
                "无法复制该分段的链接"@,
            ),
            Err(err) => i18n::translated(
                lang,
                "Can't copy a link to this segment: "@,
                "无法复制该分段的链接："@,
            ) + err@,
        }),
{
    match link {
        Ok(_) => tr(lang, "Can't copy a link to this segment", "无法复制该分段的链接").to_owned(),
        Err(err) => text::cat2(
            tr(lang, "Can't copy a link to this segment: ", "无法复制该分段的链接："),
            err.as_str(),
        ),
    }
}

/// What is said when an entry of the row of a source is clicked: that its name was copied.
pub fn receiver_notice(
    loading_name: &Option<String>,
    action: ReceiverAction,
    lang: Language,
) -> (r: Option<String>)
    ensures
        text::opt_view(r) == (match (action, *loading_name) {
            (ReceiverAction::CopyName, Some(name)) => Some(
                server_rows::copied_words(text::quoted(name@), lang),
            ),
            _ => None,
        }),
{
    match (action, loading_name) {
        (ReceiverAction::CopyName, Some(name)) => {
            let quoted: String = text::std_quoted(name.as_str());
            Some(server_rows::copied_notice(quoted.as_str(), lang))
        },
        _ => None,
    }
}

/// What the row of a source that is being loaded does. A source without a name has no row.
pub fn on_receiver(
    source: &String,
    loading_name: &Option<String>,
    link: &Result<String, String>,
    action: ReceiverAction,
) -> (r: Option<Effect>)
    ensures
        loading_name is None ==> r is None,
        loading_name matches Some(name) ==> r == (match action {
            ReceiverAction::Disconnect => Some(Effect::Disconnect(*source)),
            ReceiverAction::CopyLink => match *link {
                Ok(url) => Some(Effect::System(SystemCommand::CopyViewerUrl(url))),
                Err(_) => None,
            },
            ReceiverAction::CopyName => Some(Effect::CopyText(*name)),
        }),
{
    match loading_name {
        None => None,
        Some(name) => match action {
            ReceiverAction::Disconnect => Some(Effect::Disconnect(source.clone())),
            ReceiverAction::CopyLink => match link {
                Ok(url) => Some(Effect::System(SystemCommand::CopyViewerUrl(url.clone()))),
                Err(_) => None,
            },
            ReceiverAction::CopyName => Some(Effect::CopyText(name.clone())),
        },
    }
}

/// Which sections stand above which others.
pub open spec fn rank(section: Section) -> int {
    match section {
        Section::Welcome => 0,
        Section::EmptyHint => 1,
        Section::Server(_) => 2,
        Section::TosDatasets => 3,
        Section::HfDatasets => 4,
        Section::Local => 5,
        Section::LoadingReceiver(_) => 6,
    }
}

/// Whether a section stands above another one.
pub open spec fn is_above(a: Section, b: Section) -> bool {
    rank(a) < rank(b) || match (a, b) {
        (Section::Server(m), Section::Server(n)) => m < n,
        (Section::LoadingReceiver(m), Section::LoadingReceiver(n)) => m < n,
        _ => false,
    }
}

/// Whether each section stands above those behind it, and all of them above those of a rank.
spec fn is_ordered(s: Seq<Section>, below: int) -> bool {
    &&& forall|i: int, j: int|
        #![trigger s[i], s[j]]
        0 <= i < j < s.len() ==> is_above(s[i], s[j])
    &&& forall|i: int| 0 <= i < s.len() ==> rank(#[trigger] s[i]) < below
}

proof fn lemma_order_append(a: Seq<Section>, b: Seq<Section>, k: int)
    requires
        is_ordered(a, k),
        is_ordered(b, k + 1),
        forall|i: int| 0 <= i < b.len() ==> rank(#[trigger] b[i]) == k,
    ensures
        is_ordered(a + b, k + 1),
{
    let all = a + b;
    assert forall|i: int, j: int| #![trigger all[i], all[j]] 0 <= i < j < all.len() implies is_above(
        all[i],
        all[j],
    ) by {
        if i < a.len() {
            assert(all[i] == a[i]);
        } else {
            assert(all[i] == b[i - a.len()]);
        }
        if j < a.len() {
            assert(all[j] == a[j]);
        } else {
            assert(all[j] == b[j - a.len()]);
        }
    }
    assert forall|i: int| 0 <= i < all.len() implies rank(#[trigger] all[i]) < k + 1 by {
        if i < a.len() {
            assert(all[i] == a[i]);
        } else {
            assert(all[i] == b[i - a.len()]);
        }
    }
}

proof fn lemma_order(c: PanelContents)
    ensures
        is_ordered(panel_sections(c), 7),
{
    let a = one_if(c.show_example_section, Section::Welcome);
    let b = one_if(c.is_empty, Section::EmptyHint);
    let servers = Seq::new(c.servers as nat, |i: int| Section::Server(i as usize));
    let tos = one_if(c.tos_apps > 0, Section::TosDatasets);
    let hf = one_if(c.hf_apps > 0, Section::HfDatasets);
    let local = one_if(c.local_apps > 0 || c.local_tables > 0, Section::Local);
    let receivers = Seq::new(
        c.loading_receivers as nat,
        |i: int| Section::LoadingReceiver(i as usize),
    );
    lemma_order_append(a, b, 1);
    lemma_order_append(a + b, servers, 2);
    lemma_order_append(a + b + servers, tos, 3);
    lemma_order_append(a + b + servers + tos, hf, 4);
    lemma_order_append(a + b + servers + tos + hf, local, 5);
    lemma_order_append(a + b + servers + tos + hf + local, receivers, 6);
}

/// The welcome page stands first, then a hint where there is nothing to list, then servers,
/// the datasets of the two clouds, local data, and what is being loaded; servers and sources
/// stand in their order, so that nothing is listed twice. The welcome page and the hint are
/// there if and only if they are asked for, and no server or source that is not there is
/// listed.
pub proof fn law_sections_have_their_order(c: PanelContents, i: int, j: int, n: usize)
    ensures
        0 <= i < j < panel_sections(c).len() ==> is_above(panel_sections(c)[i], panel_sections(c)[j]),
        panel_sections(c).contains(Section::Welcome) <==> c.show_example_section,
        panel_sections(c).contains(Section::EmptyHint) <==> c.is_empty,
        panel_sections(c).contains(Section::Server(n)) <==> n < c.servers,
        panel_sections(c).contains(Section::LoadingReceiver(n)) <==> n < c.loading_receivers,
{
    lemma_order(c);
    law_nothing_is_left_out(c, n);
    lemma_listed(c, Section::Welcome);
    lemma_listed(c, Section::EmptyHint);
    lemma_listed(c, Section::Server(n));
    lemma_listed(c, Section::LoadingReceiver(n));
}

/// Each group of datasets has a heading of its own: it says which welcome page, which cloud,
/// or that the data is local. Servers and sources have none, as their rows name them.
pub proof fn law_groups_have_headings(section: Section, lang: Language)
    ensures
        section_header(section, lang) is Some <==> section is Welcome || section is TosDatasets
            || section is HfDatasets || section is Local,
        section_header(Section::TosDatasets, lang) != section_header(Section::HfDatasets, lang),
        section_header(Section::TosDatasets, lang) != section_header(Section::Local, lang),
        section_header(Section::HfDatasets, lang) != section_header(Section::Local, lang),
{
    reveal_strlit("Volcengine TOS");
    reveal_strlit("火山引擎 TOS");
    reveal_strlit("Hugging Face");
    reveal_strlit("Local");
    reveal_strlit("本地");
    assert("Volcengine TOS"@.len() == 14 && "火山引擎 TOS"@.len() == 8);
    assert("Hugging Face"@.len() == 12);
    assert("Local"@.len() == 5 && "本地"@.len() == 2);
    assert(section_header(Section::TosDatasets, lang)->0.len() == (match lang {
        Language::English => 14nat,
        Language::Chinese => 8nat,
    }));
    assert(section_header(Section::Local, lang)->0.len() == (match lang {
        Language::English => 5nat,
        Language::Chinese => 2nat,
    }));
}

/// What only developers see stands at the end of the menu; above it the menu is the same for
/// all, and offers each way to open data once.
pub proof fn law_menu_is_the_same_for_all(i: int)
    ensures
        add_menu_entries(false).len() < add_menu_entries(true).len(),
        add_menu_entries(true).take(add_menu_entries(false).len() as int) == add_menu_entries(false),
        add_menu_entries(false).contains(AddMenuEntry::Command(UICommand::Open)),
        add_menu_entries(false).contains(AddMenuEntry::Command(UICommand::OpenUrl)),
        add_menu_entries(false).contains(AddMenuEntry::Command(UICommand::AddRedapServer)),
        add_menu_entries(false).contains(AddMenuEntry::Command(UICommand::OpenTosDataset)),
        add_menu_entries(false).contains(AddMenuEntry::Command(UICommand::OpenHfDataset)),
        0 <= i < add_menu_entries(false).len() ==> !(add_menu_entries(false)[i] is DebugBadge)
            && !(add_menu_entries(false)[i] is PrintEntityDbs) && !(add_menu_entries(
            false,
        )[i] is PrintPanelData),
{
    let all = add_menu_entries(true);
    let shown = add_menu_entries(false);
    assert(all.take(shown.len() as int) =~= shown);
    assert(shown[0] == AddMenuEntry::Command(UICommand::Open));
    assert(shown[1] == AddMenuEntry::Command(UICommand::OpenUrl));
    assert(shown[2] == AddMenuEntry::Command(UICommand::AddRedapServer));
    assert(shown[5] == AddMenuEntry::Command(UICommand::OpenTosDataset));
    assert(shown[6] == AddMenuEntry::Command(UICommand::OpenHfDataset));
}

} // verus!
