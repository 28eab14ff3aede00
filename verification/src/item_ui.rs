//! Buttons and hover cards for the things a user can select.
use vstd::prelude::*;
use vstd::string::*;

use crate::effects::{Effect, InstancePath, Item, Route, SystemCommand, TimeControlCommand};
use crate::i18n;
use crate::i18n::{tr, Language};
use crate::icons::Icon;
use crate::text;

verus! {

// ---------------------------------------------------------------------------------------
// Entities

/// The icon of an entity or of one instance of it.
///
/// An entity is shown as empty if nothing was logged to it on the current timeline, and a
/// reserved one in its own way.
pub open spec fn path_icon(all_instances: bool, has_data: bool, reserved: bool) -> Icon {
    if !all_instances {
        Icon::Entity
    } else if has_data {
        if reserved {
            Icon::EntityReserved
        } else {
            Icon::Entity
        }
    } else if reserved {
        Icon::EntityReservedEmpty
    } else {
        Icon::EntityEmpty
    }
}

/// Return the instance path icon.
pub fn instance_path_icon(path: &InstancePath, has_data: bool, reserved: bool) -> (r: Icon)
    ensures
        r == path_icon(path.instance is None, has_data, reserved),
{
    if path.instance.is_none() {
        if has_data {
            if reserved {
                Icon::EntityReserved
            } else {
                Icon::Entity
            }
        } else if reserved {
            Icon::EntityReservedEmpty
        } else {
            Icon::EntityEmpty
        }
    } else {
        Icon::Entity
    }
}

/// All instances of an entity.
pub fn entity_all(entity_path: &String) -> (r: InstancePath)
    ensures
        r == (InstancePath { entity_path: *entity_path, instance: None }),
{
    InstancePath { entity_path: entity_path.clone(), instance: None }
}

/// What a button for an entity or instance selects: what a view shows of it, if it stands
/// for a view.
pub fn instance_item(view_id: Option<u128>, path: &InstancePath) -> (r: Item)
    ensures
        r == (match view_id {
            Some(view) => Item::DataResult(view, *path),
            None => Item::InstancePath(*path),
        }),
{
    match view_id {
        Some(view) => Item::DataResult(view, path.clone()),
        None => Item::InstancePath(path.clone()),
    }
}

/// A piece of a path that is shown part by part.
#[derive(Clone, Copy, Debug, PartialEq, Eq, Structural)]
pub enum PathPiece {
    /// A slash.
    Slash,
    /// A button for the entity that this many parts of the path, from the root, name.
    Entity(usize),
    /// A button for the instance, in brackets.
    Instance,
}

/// The pieces for the first `n` parts of a path: a slash and a button for each.
pub open spec fn part_pieces(n: nat) -> Seq<PathPiece>
    decreases n,
{
    if n == 0 {
        Seq::empty()
    } else {
        part_pieces((n - 1) as nat) + seq![PathPiece::Slash, PathPiece::Entity(n as usize)]
    }
}

/// The pieces of an entity path. That of the root is a slash alone.
pub open spec fn entity_pieces(parts: nat) -> Seq<PathPiece> {
    if parts == 0 {
        seq![PathPiece::Slash]
    } else {
        part_pieces(parts)
    }
}

fn push_part_pieces(parts: usize) -> (r: Vec<PathPiece>)
    ensures
        r@ == part_pieces(parts as nat),
{
    let mut out: Vec<PathPiece> = Vec::new();
    let mut i: usize = 0;
    while i < parts
        invariant
            i <= parts,
            out@ == part_pieces(i as nat),
        decreases parts - i,
    {
        i += 1;
        out.push(PathPiece::Slash);
        out.push(PathPiece::Entity(i));
        assert(out@ =~= part_pieces(i as nat));
    }
    out
}

/// Show the different parts of an entity path and make them selectable.
pub fn entity_path_parts(parts: &Vec<String>) -> (r: Vec<PathPiece>)
    ensures
        r@ == entity_pieces(parts@.len()),
{
    if parts.len() == 0 {
        let root: Vec<PathPiece> = vec![PathPiece::Slash];
        root
    } else {
        push_part_pieces(parts.len())
    }
}

/// Show the different parts of an instance path and make them selectable.
pub fn instance_path_parts(parts: &Vec<String>, instance: Option<u64>) -> (r: Vec<PathPiece>)
    ensures
        r@ == part_pieces(parts@.len()) + (match instance {
            Some(_) => seq![PathPiece::Instance],
            None => seq![],
        }),
{
    let mut out: Vec<PathPiece> = push_part_pieces(parts.len());
    if instance.is_some() {
        out.push(PathPiece::Instance);
    }
    assert(out@ =~= part_pieces(parts@.len()) + (match instance {
        Some(_) => seq![PathPiece::Instance],
        None => seq![],
    }));
    out
}

/// The buttons of a path lead, in order, to each of its ancestors and to itself.
pub proof fn law_path_buttons_lead_down(parts: nat, i: int)
    requires
        0 <= i < parts <= usize::MAX,
    ensures
        part_pieces(parts).len() == 2 * parts,
        part_pieces(parts)[2 * i] == PathPiece::Slash,
        part_pieces(parts)[2 * i + 1] == PathPiece::Entity((i + 1) as usize),
    decreases parts,
{
    if i < parts - 1 {
        law_path_buttons_lead_down((parts - 1) as nat, i);
    } else if parts > 1 {
        law_path_buttons_lead_down((parts - 1) as nat, 0);
    } else {
        assert(part_pieces(0) =~= Seq::empty());
    }
}

// ---------------------------------------------------------------------------------------
// Hover cards

/// How the numbers of a timeline are to be read.
#[derive(Clone, Copy, Debug, PartialEq, Eq, Structural)]
pub enum TimeType {
    Sequence,
    DurationNs,
    TimestampNs,
}

/// What is known of the data of an entity.
#[derive(Debug)]
pub struct EntityStats {
    /// Whether there are entities below it.
    pub has_children: bool,
    /// Whether those are counted, too.
    pub include_subtree: bool,
    pub static_rows: u64,
    pub timeline_rows: u64,
    /// The number of rows in words: all of them, the static ones, those on the timeline.
    pub total_rows_text: String,
    pub static_rows_text: String,
    pub timeline_rows_text: String,
    pub timeline: String,
    pub time_type: TimeType,
    /// The size of the data on the timeline.
    pub timeline_bytes: u64,
    /// The first and the last time on the timeline.
    pub time_range: Option<(i64, i64)>,
    /// The size of all data, in words.
    pub size_text: String,
    /// How much data there is for each step of a sequence, or for each second, in words.
    pub rate_text: String,
}

/// What the numbers are about, if there is something below the entity.
pub open spec fn subtree_caveat(s: EntityStats, lang: Language) -> Seq<char> {
    if !s.has_children {
        Seq::empty()
    } else if s.include_subtree {
        i18n::translated(lang, " (including subtree)"@, "（含子树）"@)
    } else {
        i18n::translated(lang, " (excluding subtree)"@, "（不含子树）"@)
    }
}

/// How many rows there are.
pub open spec fn rows_words(s: EntityStats, lang: Language) -> Seq<char> {
    let caveat = subtree_caveat(s, lang);
    if s.timeline_rows == 0 {
        s.total_rows_text@ + " 行静态数据"@ + caveat
    } else if s.static_rows == 0 {
        "时间轴 '"@ + s.timeline@ + "' 上有 "@ + s.total_rows_text@ + " 行"@ + caveat
    } else {
        "共 "@ + s.total_rows_text@ + " 行 = "@ + s.static_rows_text@ + " 行静态数据 + 时间轴 '"@
            + s.timeline@ + "' 上 "@ + s.timeline_rows_text@ + " 行"@ + caveat
    }
}

/// A rate can be told from more than one row with data over some time.
pub open spec fn has_data_rate(s: EntityStats) -> bool {
    &&& 0 < s.timeline_bytes
    &&& 1 < s.timeline_rows
    &&& s.time_range matches Some((first, last))
    &&& first < last
}

/// The rate at which data comes.
pub open spec fn rate_words(s: EntityStats) -> Seq<char> {
    match s.time_type {
        TimeType::Sequence => s.rate_text@ + " / "@ + s.timeline@,
        _ => s.rate_text@ + "/s in '"@ + s.timeline@ + "'"@,
    }
}

/// How much data there is.
pub open spec fn size_words(s: EntityStats, lang: Language) -> Seq<char> {
    let size = "占用约 "@ + s.size_text@ + subtree_caveat(s, lang);
    if has_data_rate(s) {
        size + " ≈ "@ + rate_words(s)
    } else {
        size
    }
}

/// What is said of the data of an entity: nothing if there is none.
pub open spec fn stats_words(s: EntityStats, lang: Language) -> Option<(Seq<char>, Seq<char>)> {
    if s.static_rows == 0 && s.timeline_rows == 0 {
        None
    } else {
        Some((rows_words(s, lang), size_words(s, lang)))
    }
}

impl EntityStats {
    fn caveat(&self, lang: Language) -> (r: &'static str)
        ensures
            r@ == subtree_caveat(*self, lang),
    {
        if !self.has_children {
            let none: &'static str = "";
            proof {
                reveal_strlit("");
            }
            assert(none@ =~= Seq::<char>::empty());
            none
        } else if self.include_subtree {
            tr(lang, " (including subtree)", "（含子树）")
        } else {
            tr(lang, " (excluding subtree)", "（不含子树）")
        }
    }

    fn rows(&self, lang: Language) -> (r: String)
        ensures
            r@ == rows_words(*self, lang),
    {
        let mut out: String;
        if self.timeline_rows == 0 {
            out = text::cat2(self.total_rows_text.as_str(), " 行静态数据");
        } else if self.static_rows == 0 {
            out = text::cat5(
                "时间轴 '",
                self.timeline.as_str(),
                "' 上有 ",
                self.total_rows_text.as_str(),
                " 行",
            );
        } else {
            out = text::cat5(
                "共 ",
                self.total_rows_text.as_str(),
                " 行 = ",
                self.static_rows_text.as_str(),
                " 行静态数据 + 时间轴 '",
            );
            out.append(self.timeline.as_str());
            out.append("' 上 ");
            out.append(self.timeline_rows_text.as_str());
            out.append(" 行");
        }
        out.append(self.caveat(lang));
        out
    }

    /// Whether a rate can be told.
    pub fn has_data_rate(&self) -> (r: bool)
        ensures
            r == has_data_rate(*self),
    {
        match self.time_range {
            Some((first, last)) => 0 < self.timeline_bytes && 1 < self.timeline_rows && first
                < last,
            None => false,
        }
    }

    fn rate(&self) -> (r: String)
        ensures
            r@ == rate_words(*self),
    {
        match self.time_type {
            TimeType::Sequence => text::cat3(self.rate_text.as_str(), " / ", self.timeline.as_str()),
            _ => text::cat4(self.rate_text.as_str(), "/s in '", self.timeline.as_str(), "'"),
        }
    }

    /// The two lines that are said of the data of an entity.
    pub fn lines(&self, lang: Language) -> (r: Option<(String, String)>)
        ensures
            (match r {
                Some((rows, size)) => Some((rows@, size@)),
                None => None,
            }) == stats_words(*self, lang),
    {
        if self.static_rows == 0 && self.timeline_rows == 0 {
            return None;
        }
        let mut size: String = text::cat3("占用约 ", self.size_text.as_str(), self.caveat(lang));
        if self.has_data_rate() {
            size.append(" ≈ ");
            size.append(self.rate().as_str());
        }
        Some((self.rows(lang), size))
    }
}

/// What the hover card of an entity or instance begins with.
#[derive(Clone, Copy, Debug, PartialEq, Eq)]
pub enum HoverCard {
    /// All that can be said.
    Unknown(&'static str),
    /// What it is, and whether the statistics of the entity follow.
    Known(&'static str, bool),
}

/// The "hover card" (i.e. big tooltip) for an instance or an entity.
///
/// The statistics of the entity belong to it if it doesn't refer to a specific instance.
pub fn hover_card(known: bool, path: &InstancePath, in_tree: bool, lang: Language) -> (r: HoverCard)
    ensures
        match r {
            HoverCard::Unknown(words) => !known && words@ == i18n::translated(
                lang,
                "Unknown entity."@,
                "未知实体。"@,
            ),
            HoverCard::Known(words, stats) => {
                &&& known
                &&& words@ == (if path.instance is None {
                    i18n::translated(lang, "Entity"@, "实体"@)
                } else {
                    i18n::translated(lang, "Entity instance"@, "实体实例"@)
                })
                &&& stats == (path.instance is None && in_tree)
            },
        },
{
    if !known {
        return HoverCard::Unknown(tr(lang, "Unknown entity.", "未知实体。"));
    }
    if path.instance.is_none() {
        HoverCard::Known(tr(lang, "Entity", "实体"), in_tree)
    } else {
        HoverCard::Known(tr(lang, "Entity instance", "实体实例"), false)
    }
}

// ---------------------------------------------------------------------------------------
// Times

/// What a click on a time does: show it, and stay there.
pub fn on_time_button(value: i64) -> (r: Vec<TimeControlCommand>)
    ensures
        r@ == seq![
            TimeControlCommand::SetActiveTimeline,
            TimeControlCommand::SetTime(value),
            TimeControlCommand::Pause,
        ],
{
    let out: Vec<TimeControlCommand> = vec![
        TimeControlCommand::SetActiveTimeline,
        TimeControlCommand::SetTime(value),
        TimeControlCommand::Pause,
    ];
    assert(out@ =~= seq![
        TimeControlCommand::SetActiveTimeline,
        TimeControlCommand::SetTime(value),
        TimeControlCommand::Pause,
    ]);
    out
}

/// What a click on a timeline does.
pub fn on_timeline_button() -> (r: Vec<TimeControlCommand>)
    ensures
        r@ == seq![TimeControlCommand::SetActiveTimeline, TimeControlCommand::Pause],
{
    let out: Vec<TimeControlCommand> = vec![
        TimeControlCommand::SetActiveTimeline,
        TimeControlCommand::Pause,
    ];
    assert(out@ =~= seq![TimeControlCommand::SetActiveTimeline, TimeControlCommand::Pause]);
    out
}

/// Whether the button of a timeline is marked: if it is the active one.
pub fn timeline_is_selected(active: Option<&String>, timeline: &String) -> (r: bool)
    ensures
        r == (match active {
            Some(name) => name@ == timeline@,
            None => false,
        }),
{
    match active {
        Some(name) => *name == *timeline,
        None => false,
    }
}

pub fn timeline_hint(lang: Language) -> (r: &'static str)
    ensures
        r@ == i18n::translated(
            lang,
            "Click to switch to this timeline"@,
            "点击切换到这条时间轴"@,
        ),
{
    tr(lang, "Click to switch to this timeline", "点击切换到这条时间轴")
}

// ---------------------------------------------------------------------------------------
// Tables

/// The row of a table, as it is to be drawn.
#[derive(Debug)]
pub struct TableRow {
    pub icon: Icon,
    /// The label and the hint of the close button, in a panel.
    pub close: Option<(&'static str, &'static str)>,
    pub hover_text: String,
    pub active: bool,
}

/// The row of a table.
pub fn table_row(table_id: &String, active_table: Option<&String>, in_panel: bool) -> (r: TableRow)
    ensures
        r.icon == Icon::Table,
        r.close is Some <==> in_panel,
        r.close matches Some((label, hint)) ==> label@ == "关闭表格"@ && hint@
            == "关闭这个表格（所有数据都会丢失）"@,
        r.hover_text@ == "表格："@ + table_id@,
        r.active == (match active_table {
            Some(id) => id@ == table_id@,
            None => false,
        }),
{
    TableRow {
        icon: Icon::Table,
        close: if in_panel {
            Some(("关闭表格", "关闭这个表格（所有数据都会丢失）"))
        } else {
            None
        },
        hover_text: text::cat2("表格：", table_id.as_str()),
        active: match active_table {
            Some(id) => *id == *table_id,
            None => false,
        },
    }
}

/// What the close button of a table does.
pub fn on_close_table(table_id: &String) -> (r: Effect)
    ensures
        r == Effect::System(SystemCommand::CloseTable(*table_id)),
{
    Effect::System(SystemCommand::CloseTable(table_id.clone()))
}

/// What a click on the row of a table does.
pub fn on_click_table(table_id: &String) -> (r: Effect)
    ensures
        r == Effect::System(SystemCommand::SetRoute(Route::LocalTable(*table_id))),
{
    Effect::System(SystemCommand::SetRoute(Route::LocalTable(table_id.clone())))
}

/// One instance of an entity has the icon of entities, whatever the entity holds. Else the icon
/// tells whether the path is reserved and whether there is data at it.
pub proof fn law_icon_tells_what_is_there(has_data: bool, reserved: bool)
    ensures
        path_icon(false, has_data, reserved) == Icon::Entity,
        path_icon(true, has_data, reserved) == Icon::Entity <==> has_data && !reserved,
        path_icon(true, has_data, reserved) == Icon::EntityEmpty <==> !has_data && !reserved,
        path_icon(true, has_data, reserved) == Icon::EntityReserved <==> has_data && reserved,
        path_icon(true, has_data, reserved) == Icon::EntityReservedEmpty <==> !has_data && reserved,
{
}

/// An entity without any rows has no statistics. Those of others name the number of all rows,
/// and, where there are rows on the timeline, the timeline; the two kinds of rows are told
/// apart where there are both.
pub proof fn law_statistics_count_all_rows(s: EntityStats, lang: Language)
    ensures
        stats_words(s, lang) is None <==> s.static_rows == 0 && s.timeline_rows == 0,
        text::occurs_in(rows_words(s, lang), s.total_rows_text@),
        s.timeline_rows > 0 ==> text::occurs_in(rows_words(s, lang), s.timeline@),
        s.timeline_rows > 0 && s.static_rows > 0 ==> text::occurs_in(
            rows_words(s, lang),
            s.static_rows_text@,
        ) && text::occurs_in(rows_words(s, lang), s.timeline_rows_text@),
        !s.has_children ==> subtree_caveat(s, lang).len() == 0,
{
    let caveat = subtree_caveat(s, lang);
    let words = rows_words(s, lang);
    if s.timeline_rows == 0 {
        text::lemma_occurs_between(seq![], s.total_rows_text@, " 行静态数据"@ + caveat, words);
    } else if s.static_rows == 0 {
        lemma_both_occur(
            "时间轴 '"@,
            s.timeline@,
            "' 上有 "@,
            s.total_rows_text@,
            " 行"@ + caveat,
            words,
        );
    } else {
        let head = "共 "@ + s.total_rows_text@ + " 行 = "@;
        let middle = head + s.static_rows_text@ + " 行静态数据 + 时间轴 '"@;
        let tail = s.timeline@ + "' 上 "@ + s.timeline_rows_text@ + (" 行"@ + caveat);
        lemma_both_occur(
            "共 "@,
            s.total_rows_text@,
            " 行 = "@,
            s.static_rows_text@,
            " 行静态数据 + 时间轴 '"@ + tail,
            words,
        );
        lemma_both_occur(
            middle,
            s.timeline@,
            "' 上 "@,
            s.timeline_rows_text@,
            " 行"@ + caveat,
            words,
        );
    }
}

proof fn lemma_both_occur(
    a: Seq<char>,
    x: Seq<char>,
    b: Seq<char>,
    y: Seq<char>,
    c: Seq<char>,
    words: Seq<char>,
)
    requires
        words =~= a + x + b + y + c,
    ensures
        text::occurs_in(words, x),
        text::occurs_in(words, y),
{
    text::lemma_occurs_between(a, x, b + y + c, words);
    text::lemma_occurs_between(a + x + b, y, c, words);
}

/// The size is always named. A rate is given if and only if there are two rows or more of data
/// that spans some time.
pub proof fn law_rate_needs_some_time(s: EntityStats, lang: Language)
    ensures
        text::occurs_in(size_words(s, lang), s.size_text@),
        has_data_rate(s) <==> s.timeline_bytes >= 1 && s.timeline_rows >= 2 && (s.time_range matches Some(
            range,
        ) && range.0 < range.1),
        has_data_rate(s) ==> text::occurs_in(size_words(s, lang), s.rate_text@),
{
    let caveat = subtree_caveat(s, lang);
    let words = size_words(s, lang);
    if has_data_rate(s) {
        let behind = match s.time_type {
            TimeType::Sequence => " / "@ + s.timeline@,
            _ => "/s in '"@ + s.timeline@ + "'"@,
        };
        assert(rate_words(s) =~= s.rate_text@ + behind);
        lemma_both_occur(
            "占用约 "@,
            s.size_text@,
            caveat + " ≈ "@,
            s.rate_text@,
            behind,
            words,
        );
    } else {
        text::lemma_occurs_between("占用约 "@, s.size_text@, caveat, words);
    }
}

} // verus!
