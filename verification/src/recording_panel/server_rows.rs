//! The rows of servers and of what they list.
use vstd::prelude::*;
use vstd::string::*;

use crate::effects::{Effect, Item, Origin, RedapEntryKind, Route, Scheme, SystemCommand};
use crate::i18n;
use crate::i18n::{tr, Language};
use crate::recording_panel::data::{
    DatasetData, EntryData, EntryTreeNode, SegmentData, ServerData, ServerEntriesData,
    ServerLeafEntry,
};
use crate::recording_panel::expand;
use crate::store_id::StoreId;
use crate::text;

verus! {

// ---------------------------------------------------------------------------------------
// Servers

/// The title of a server: its host, and its port unless it is the usual one. In tests ports
/// differ from run to run, so they are not shown.
pub open spec fn title_of_server(
    origin: Origin,
    is_internal: bool,
    is_test: bool,
    lang: Language,
) -> Seq<char> {
    if is_internal {
        i18n::translated(lang, "Viewer catalog"@, "Viewer 目录"@)
    } else if origin.scheme == Scheme::RerunHttps && origin.port == 443 {
        origin.host@
    } else if is_test {
        origin.host@ + ":XXXX"@
    } else {
        origin.host@ + ":"@ + text::decimal(origin.port as nat)
    }
}

pub fn server_title(origin: &Origin, is_internal: bool, is_test: bool, lang: Language) -> (r: String)
    ensures
        r@ == title_of_server(*origin, is_internal, is_test, lang),
{
    if is_internal {
        tr(lang, "Viewer catalog", "Viewer 目录").to_owned()
    } else if origin.scheme == Scheme::RerunHttps && origin.port == 443 {
        origin.host.clone()
    } else if is_test {
        text::cat2(origin.host.as_str(), ":XXXX")
    } else {
        let mut out: String = text::cat2(origin.host.as_str(), ":");
        text::push_decimal(&mut out, origin.port as u64);
        out
    }
}

/// Whether a server lists a dataset.
pub open spec fn lists_dataset(nodes: Seq<EntryTreeNode>) -> bool
    decreases nodes,
{
    nodes.len() > 0 && (node_lists_dataset(nodes[0]) || lists_dataset(
        nodes.subrange(1, nodes.len() as int),
    ))
}

pub open spec fn node_lists_dataset(node: EntryTreeNode) -> bool
    decreases node,
{
    match node {
        EntryTreeNode::Entry(ServerLeafEntry::Dataset(_)) => true,
        EntryTreeNode::Entry(_) => false,
        EntryTreeNode::Folder { children, .. } => lists_dataset(children@),
    }
}

/// Whether a server is known to have a dataset.
pub open spec fn has_datasets(entries: ServerEntriesData) -> bool {
    match entries {
        ServerEntriesData::Loaded { entry_tree } => lists_dataset(entry_tree@),
        _ => false,
    }
}

fn any_dataset(nodes: &Vec<EntryTreeNode>) -> (r: bool)
    ensures
        r == lists_dataset(nodes@),
    decreases nodes,
{
    let n: usize = nodes.len();
    let mut i: usize = 0;
    assert(nodes@.subrange(0, n as int) =~= nodes@);
    while i < n
        invariant
            i <= n,
            n == nodes@.len(),
            lists_dataset(nodes@) == lists_dataset(nodes@.subrange(i as int, n as int)),
        decreases n - i,
    {
        let ghost rest = nodes@.subrange(i as int, n as int);
        proof {
            reveal_with_fuel(lists_dataset, 2);
            reveal_with_fuel(node_lists_dataset, 2);
        }
        assert(rest[0] == nodes@[i as int]);
        assert(rest.subrange(1, rest.len() as int) =~= nodes@.subrange(i + 1, n as int));
        let found: bool = match &nodes[i] {
            EntryTreeNode::Entry(ServerLeafEntry::Dataset(_)) => true,
            EntryTreeNode::Entry(_) => false,
            EntryTreeNode::Folder { children, .. } => {
                assert(decreases_to!(nodes => nodes@[i as int]));
                assert(decreases_to!(nodes@[i as int] => children));
                any_dataset(children)
            },
        };
        if found {
            return true;
        }
        i += 1;
    }
    false
}

impl ServerData {
    /// Whether the section of a server is shown. That of the viewer's own catalog is not,
    /// until there is data in it.
    pub fn is_shown(&self) -> (r: bool)
        ensures
            r == !(self.is_internal && !has_datasets(self.entries)),
    {
        if !self.is_internal {
            return true;
        }
        match &self.entries {
            ServerEntriesData::Loaded { entry_tree } => any_dataset(entry_tree),
            _ => false,
        }
    }

    /// Whether a command of the menu of a server is offered: those that change the server
    /// are not for the viewer's own catalog.
    pub fn offers(&self, requires_editable_server: bool) -> (r: bool)
        ensures
            r == !(requires_editable_server && self.is_internal),
    {
        !(requires_editable_server && self.is_internal)
    }

    /// What a click on the row of a server does.
    pub fn on_click(&self) -> (r: Effect)
        ensures
            r == Effect::System(SystemCommand::SetRoute(Route::RedapServer(self.origin))),
    {
        Effect::System(SystemCommand::SetRoute(Route::RedapServer(self.origin.clone())))
    }
}

/// What stands below a server whose entries are not there.
#[derive(Clone, Copy, Debug, PartialEq, Eq)]
pub enum EntriesNote {
    /// An animation with this meaning.
    Loading(&'static str),
    /// A text that is easy to overlook.
    Weak(&'static str),
    /// A text in the color of errors.
    Error(&'static str),
}

/// What stands below a server in place of its entries. A message of an error is its hint.
pub fn entries_note(entries: &ServerEntriesData, lang: Language) -> (r: Option<EntriesNote>)
    ensures
        match *entries {
            ServerEntriesData::Loading => r matches Some(EntriesNote::Loading(words)) && words@
                == "Loading server entries"@,
            ServerEntriesData::Error { is_auth_error, .. } => if is_auth_error {
                r matches Some(EntriesNote::Weak(words)) && words@ == i18n::translated(
                    lang,
                    "Authentication required"@,
                    "需要身份验证"@,
                )
            } else {
                r matches Some(EntriesNote::Error(words)) && words@ == i18n::translated(
                    lang,
                    "Failed to load entries"@,
                    "加载条目失败"@,
                )
            },
            ServerEntriesData::Loaded { .. } => r is None,
        },
{
    match entries {
        ServerEntriesData::Loading => Some(EntriesNote::Loading("Loading server entries")),
        ServerEntriesData::Error { is_auth_error, .. } => if *is_auth_error {
            Some(EntriesNote::Weak(tr(lang, "Authentication required", "需要身份验证")))
        } else {
            Some(EntriesNote::Error(tr(lang, "Failed to load entries", "加载条目失败")))
        },
        ServerEntriesData::Loaded { .. } => None,
    }
}

// ---------------------------------------------------------------------------------------
// Folders, tables and failed entries

/// To select an item and then go where it is shown.
pub open spec fn select_then_show(item: Item, route: Route) -> Seq<Effect> {
    seq![
        Effect::System(SystemCommand::SetSelection(item)),
        Effect::System(SystemCommand::SetRoute(route)),
    ]
}

fn select_and_show(item: Item, route: Route) -> (r: Vec<Effect>)
    ensures
        r@ == select_then_show(item, route),
{
    let mut out: Vec<Effect> = Vec::new();
    out.push(Effect::System(SystemCommand::SetSelection(item)));
    out.push(Effect::System(SystemCommand::SetRoute(route)));
    assert(out@ =~= select_then_show(item, route));
    out
}

/// What a click on a folder does.
pub fn on_click_folder(origin: &Origin, path_prefix: &String) -> (r: Vec<Effect>)
    ensures
        r@ == select_then_show(
            Item::RedapEntry(*origin, RedapEntryKind::Folder(*path_prefix)),
            Route::RedapEntry(*origin, RedapEntryKind::Folder(*path_prefix)),
        ),
{
    select_and_show(
        Item::RedapEntry(origin.clone(), RedapEntryKind::Folder(path_prefix.clone())),
        Route::RedapEntry(origin.clone(), RedapEntryKind::Folder(path_prefix.clone())),
    )
}

impl EntryData {
    pub open spec fn spec_route(self) -> Route {
        Route::RedapEntry(self.origin, RedapEntryKind::Entry(self.entry_id))
    }

    fn route(&self) -> (r: Route)
        ensures
            r == self.spec_route(),
    {
        Route::RedapEntry(self.origin.clone(), RedapEntryKind::Entry(self.entry_id))
    }

    /// What a click on a dataset, or on an entry that failed to load, does.
    pub fn on_click(&self) -> (r: Vec<Effect>)
        ensures
            r@ == select_then_show(self.spec_item(), self.spec_route()),
    {
        select_and_show(self.item(), self.route())
    }

    /// What a click on a table does.
    pub fn on_click_table(&self) -> (r: Vec<Effect>)
        ensures
            r@ == seq![
                Effect::System(SystemCommand::SetRoute(self.spec_route())),
                Effect::System(SystemCommand::SetSelection(self.spec_item())),
            ],
    {
        let mut out: Vec<Effect> = Vec::new();
        out.push(Effect::System(SystemCommand::SetRoute(self.route())));
        out.push(Effect::System(SystemCommand::SetSelection(self.item())));
        assert(out@ =~= seq![
            Effect::System(SystemCommand::SetRoute(self.spec_route())),
            Effect::System(SystemCommand::SetSelection(self.spec_item())),
        ]);
        out
    }
}

// ---------------------------------------------------------------------------------------
// Datasets

/// What is said once a text was copied. The text is in quotation marks.
pub open spec fn copied_words(quoted: Seq<char>, lang: Language) -> Seq<char> {
    i18n::translated(
        lang,
        "Copied "@ + quoted + " to clipboard"@,
        "已把 "@ + quoted + " 复制到剪贴板"@,
    )
}

/// What is said once a text was copied. The text is in quotation marks.
pub fn copied_notice(quoted: &str, lang: Language) -> (r: String)
    ensures
        r@ == copied_words(quoted@, lang),
{
    text::cat3(
        tr(lang, "Copied ", "已把 "),
        quoted,
        tr(lang, " to clipboard", " 复制到剪贴板"),
    )
}

/// The row of a dataset, as it is to be drawn, besides its leaf name and icon.
#[derive(Debug)]
pub struct DatasetRow {
    /// The label of the close button. A dataset with no open segment has none.
    pub close: Option<&'static str>,
    /// Whether there are rows of segments below it.
    pub has_children: bool,
    pub hover_text: String,
}

/// What the context menu of a dataset offers.
#[derive(Clone, Copy, Debug, PartialEq, Eq, Structural)]
pub enum DatasetMenuAction {
    CopyLink,
    CopyName,
    CopyId,
}

pub open spec fn dataset_menu_label(action: DatasetMenuAction, lang: Language) -> Seq<char> {
    match action {
        DatasetMenuAction::CopyLink => i18n::translated(
            lang,
            "Copy link to dataset"@,
            "复制数据集链接"@,
        ),
        DatasetMenuAction::CopyName => i18n::translated(
            lang,
            "Copy dataset name"@,
            "复制数据集名称"@,
        ),
        DatasetMenuAction::CopyId => i18n::translated(lang, "Copy dataset id"@, "复制数据集 ID"@),
    }
}

impl DatasetMenuAction {
    pub fn label(self, lang: Language) -> (r: &'static str)
        ensures
            r@ == dataset_menu_label(self, lang),
    {
        match self {
            DatasetMenuAction::CopyLink => tr(lang, "Copy link to dataset", "复制数据集链接"),
            DatasetMenuAction::CopyName => tr(lang, "Copy dataset name", "复制数据集名称"),
            DatasetMenuAction::CopyId => tr(lang, "Copy dataset id", "复制数据集 ID"),
        }
    }
}

/// Why the link to a dataset cannot be copied.
pub fn no_dataset_link_hint(lang: Language) -> (r: &'static str)
    ensures
        r@ == i18n::translated(
            lang,
            "Can't copy a link to this dataset"@,
            "无法复制该数据集的链接"@,
        ),
{
    tr(lang, "Can't copy a link to this dataset", "无法复制该数据集的链接")
}

/// The closing of all segments that are loaded, in their order.
pub open spec fn close_segments(segments: Seq<SegmentData>) -> Seq<Effect>
    decreases segments.len(),
{
    if segments.len() == 0 {
        Seq::empty()
    } else {
        let before = close_segments(segments.drop_last());
        match segments.last() {
            SegmentData::Loaded(id) => before.push(
                Effect::System(SystemCommand::CloseRecording(id)),
            ),
            SegmentData::Loading(_) => before,
        }
    }
}

impl DatasetData {
    /// The row of the dataset.
    pub fn row(&self, lang: Language) -> (r: DatasetRow)
        ensures
            r.close is Some <==> self.segments@.len() > 0,
            r.close matches Some(label) ==> label@ == i18n::translated(
                lang,
                "Close dataset"@,
                "关闭数据集"@,
            ),
            r.has_children == (self.segments@.len() > 0),
            r.hover_text@ == i18n::translated(lang, "Dataset: "@, "数据集："@) + self.entry.name@,
    {
        let open: bool = self.segments.len() > 0;
        DatasetRow {
            close: if open {
                Some(tr(lang, "Close dataset", "关闭数据集"))
            } else {
                None
            },
            has_children: open,
            hover_text: text::cat2(tr(lang, "Dataset: ", "数据集："), self.entry.name.as_str()),
        }
    }

    /// What the close button does: it closes the segments that are loaded.
    pub fn on_close(&self) -> (r: Vec<Effect>)
        ensures
            r@ == close_segments(self.segments@),
    {
        let n: usize = self.segments.len();
        let mut out: Vec<Effect> = Vec::new();
        let mut i: usize = 0;
        while i < n
            invariant
                i <= n,
                n == self.segments@.len(),
                out@ == close_segments(self.segments@.take(i as int)),
            decreases n - i,
        {
            assert(self.segments@.take(i + 1).drop_last() =~= self.segments@.take(i as int));
            if let SegmentData::Loaded(id) = &self.segments[i] {
                let id: StoreId = id.clone();
                out.push(Effect::System(SystemCommand::CloseRecording(id)));
            }
            i += 1;
        }
        assert(self.segments@.take(n as int) =~= self.segments@);
        out
    }

    /// What is said when an entry of the context menu is clicked: that a text was copied.
    pub fn menu_notice(&self, action: DatasetMenuAction, lang: Language) -> (r: Option<String>)
        ensures
            text::opt_view(r) == (match action {
                DatasetMenuAction::CopyLink => None,
                DatasetMenuAction::CopyName => Some(
                    copied_words(text::quoted(self.entry.name@), lang),
                ),
                DatasetMenuAction::CopyId => Some(
                    copied_words(text::quoted(self.entry.id_text@), lang),
                ),
            }),
    {
        match action {
            DatasetMenuAction::CopyLink => None,
            DatasetMenuAction::CopyName => {
                let name: String = text::std_quoted(self.entry.name.as_str());
                Some(copied_notice(name.as_str(), lang))
            },
            DatasetMenuAction::CopyId => {
                let id: String = text::std_quoted(self.entry.id_text.as_str());
                Some(copied_notice(id.as_str(), lang))
            },
        }
    }

    /// What an entry of the context menu does. `link` is the link to the dataset, if it has
    /// one; without it, there is nothing to copy.
    pub fn on_menu(&self, action: DatasetMenuAction, link: &Option<String>) -> (r: Option<Effect>)
        ensures
            r == (match action {
                DatasetMenuAction::CopyLink => match *link {
                    Some(url) => Some(Effect::System(SystemCommand::CopyViewerUrl(url))),
                    None => None,
                },
                DatasetMenuAction::CopyName => Some(Effect::CopyText(self.entry.name)),
                DatasetMenuAction::CopyId => Some(Effect::CopyText(self.entry.id_text)),
            }),
    {
        match action {
            DatasetMenuAction::CopyLink => match link {
                Some(url) => Some(Effect::System(SystemCommand::CopyViewerUrl(url.clone()))),
                None => None,
            },
            DatasetMenuAction::CopyName => Some(Effect::CopyText(self.entry.name.clone())),
            DatasetMenuAction::CopyId => Some(Effect::CopyText(self.entry.id_text.clone())),
        }
    }
}

/// A server is named by its host, and by its port unless that is the usual one of a secure
/// server: names tell apart any two ports of a host that are named at all.
pub proof fn law_server_is_named_by_its_address(a: Origin, b: Origin, lang: Language)
    ensures
        title_of_server(a, true, false, lang) == title_of_server(b, true, true, lang),
        a.scheme == Scheme::RerunHttps && a.port == 443 ==> title_of_server(a, false, false, lang)
            == a.host@,
        a.scheme != Scheme::RerunHttps || a.port != 443 ==> {
            &&& title_of_server(a, false, false, lang).len() > a.host@.len() + 1
            &&& title_of_server(a, false, false, lang).take(a.host@.len() as int) == a.host@
            &&& title_of_server(a, false, false, lang)[a.host@.len() as int] == ':'
            &&& text::digits_value(
                title_of_server(a, false, false, lang).skip(a.host@.len() as int + 1),
            ) == a.port
        },
        a.host@ == b.host@ && title_of_server(a, false, false, lang) == title_of_server(
            b,
            false,
            false,
            lang,
        ) && (a.scheme != Scheme::RerunHttps || a.port != 443) ==> a.port == b.port,
{
    reveal_strlit(":");
    text::lemma_decimal_spells(a.port as nat);
    text::lemma_decimal_spells(b.port as nat);
    let title = title_of_server(a, false, false, lang);
    let other = title_of_server(b, false, false, lang);
    if a.scheme != Scheme::RerunHttps || a.port != 443 {
        assert(title.take(a.host@.len() as int) =~= a.host@);
        assert(title.skip(a.host@.len() as int + 1) =~= text::decimal(a.port as nat));
        if b.scheme != Scheme::RerunHttps || b.port != 443 {
            assert(other.skip(b.host@.len() as int + 1) =~= text::decimal(b.port as nat));
        } else {
            assert(other.len() == b.host@.len());
        }
    }
}

/// A server lists a dataset if and only if some address in its tree leads to one, however
/// deep the folders are that it stands in.
pub proof fn law_datasets_are_found_in_folders(nodes: Seq<EntryTreeNode>)
    ensures
        lists_dataset(nodes) <==> exists|address: Seq<int>|
            #[trigger] expand::leaf_at(nodes, address) is Some && expand::leaf_at(
                nodes,
                address,
            )->0 is Dataset,
    decreases nodes,
{
    reveal_with_fuel(lists_dataset, 2);
    reveal_with_fuel(node_lists_dataset, 2);
    if nodes.len() > 0 {
        let first = nodes[0];
        let rest = nodes.subrange(1, nodes.len() as int);
        law_datasets_are_found_in_folders(rest);
        if let EntryTreeNode::Folder { children, .. } = first {
            law_datasets_are_found_in_folders(children@);
            if lists_dataset(children@) {
                let below = choose|below: Seq<int>|
                    #[trigger] expand::leaf_at(children@, below) is Some && expand::leaf_at(
                        children@,
                        below,
                    )->0 is Dataset;
                let address = seq![0int] + below;
                assert(address.skip(1) =~= below);
                assert(expand::leaf_at(nodes, address) == expand::leaf_at(children@, below));
            }
        } else if node_lists_dataset(first) {
            let address = seq![0int];
            assert(address[0] == 0);
            assert(expand::leaf_at(nodes, address) is Some);
        }
        if lists_dataset(rest) {
            let below = choose|below: Seq<int>|
                #[trigger] expand::leaf_at(rest, below) is Some && expand::leaf_at(
                    rest,
                    below,
                )->0 is Dataset;
            let address = below.update(0, below[0] + 1);
            assert(address.skip(1) =~= below.skip(1));
            assert(nodes[address[0]] == rest[below[0]]);
            assert(expand::leaf_at(nodes, address) == expand::leaf_at(rest, below));
        }
        if exists|address: Seq<int>|
            #[trigger] expand::leaf_at(nodes, address) is Some && expand::leaf_at(
                nodes,
                address,
            )->0 is Dataset {
            let address = choose|address: Seq<int>|
                #[trigger] expand::leaf_at(nodes, address) is Some && expand::leaf_at(
                    nodes,
                    address,
                )->0 is Dataset;
            if address[0] == 0 {
                if let EntryTreeNode::Folder { children, .. } = first {
                    assert(expand::leaf_at(children@, address.skip(1)) is Some);
                }
            } else {
                let below = address.update(0, address[0] - 1);
                assert(below.skip(1) =~= address.skip(1));
                assert(rest[below[0]] == nodes[address[0]]);
                assert(expand::leaf_at(rest, below) == expand::leaf_at(nodes, address));
            }
        }
    }
}

/// Segments are closed in the order in which they are listed, each that is loaded once, and
/// what is clicked is selected before it is shown.
pub proof fn law_segments_are_closed_in_order(
    a: Seq<SegmentData>,
    b: Seq<SegmentData>,
    id: StoreId,
    item: Item,
    route: Route,
)
    ensures
        close_segments(a + b) == close_segments(a) + close_segments(b),
        close_segments(seq![SegmentData::Loaded(id)]) == seq![
            Effect::System(SystemCommand::CloseRecording(id)),
        ],
        select_then_show(item, route).len() == 2,
        select_then_show(item, route)[0] == Effect::System(SystemCommand::SetSelection(item)),
        select_then_show(item, route)[1] == Effect::System(SystemCommand::SetRoute(route)),
    decreases b.len(),
{
    if b.len() > 0 {
        law_segments_are_closed_in_order(a, b.drop_last(), id, item, route);
        assert((a + b).drop_last() =~= a + b.drop_last());
        assert((a + b).last() == b.last());
    } else {
        assert(a + b =~= a);
    }
    let one = seq![SegmentData::Loaded(id)];
    assert(one.drop_last() =~= Seq::empty());
    assert(one.last() == SegmentData::Loaded(id));
    assert(close_segments(one.drop_last()) =~= Seq::empty());
    assert(close_segments(one) =~= seq![Effect::System(SystemCommand::CloseRecording(id))]);
}

/// Closing a dataset closes each of its loaded segments, and nothing else.
pub proof fn law_close_dataset_closes_all(segments: Seq<SegmentData>, effect: Effect)
    ensures
        close_segments(segments).contains(effect) <==> exists|i: int|
            0 <= i < segments.len() && #[trigger] closes(segments[i], effect),
    decreases segments.len(),
{
    if segments.len() > 0 {
        let front = segments.drop_last();
        law_close_dataset_closes_all(front, effect);
        let before = close_segments(front);
        let all = close_segments(segments);
        if all.contains(effect) {
            let k = choose|k: int| 0 <= k < all.len() && all[k] == effect;
            if k < before.len() {
                assert(before[k] == effect);
                let i = choose|i: int| 0 <= i < front.len() && #[trigger] closes(front[i], effect);
                assert(closes(segments[i], effect));
            } else {
                assert(closes(segments[segments.len() - 1], effect));
            }
        }
        if exists|i: int| 0 <= i < segments.len() && #[trigger] closes(segments[i], effect) {
            let i = choose|i: int| 0 <= i < segments.len() && #[trigger] closes(segments[i], effect);
            if i < front.len() {
                assert(closes(front[i], effect));
                let k = choose|k: int| 0 <= k < before.len() && before[k] == effect;
                assert(all[k] == effect);
            } else {
                assert(all[all.len() - 1] == effect);
            }
        }
    }
}

/// Whether an effect is the closing of this segment.
pub open spec fn closes(segment: SegmentData, effect: Effect) -> bool {
    match segment {
        SegmentData::Loaded(id) => effect == Effect::System(SystemCommand::CloseRecording(id)),
        SegmentData::Loading(_) => false,
    }
}

/// Nothing is known of the datasets of a server before its listing is there; what is copied is
/// named.
pub proof fn law_only_a_listing_shows_datasets(
    entries: ServerEntriesData,
    quoted: Seq<char>,
    lang: Language,
)
    ensures
        has_datasets(entries) ==> entries is Loaded,
        entries is Loaded ==> has_datasets(entries) == lists_dataset(entries->entry_tree@),
        text::occurs_in(copied_words(quoted, lang), quoted),
{
    text::lemma_occurs_between(
        i18n::translated(lang, "Copied "@, "已把 "@),
        quoted,
        i18n::translated(lang, " to clipboard"@, " 复制到剪贴板"@),
        copied_words(quoted, lang),
    );
}

} // verus!
