//! The card of a store: what is known of a recording or blueprint.
use vstd::prelude::*;
use vstd::string::*;

use crate::i18n;
use crate::i18n::{tr, Language};
use crate::platform::Build;
use crate::store_id::{StoreId, StoreKind};
use crate::text;

verus! {

// ---------------------------------------------------------------------------------------
// Outside formatting

/// A duration of this many nanoseconds in the "friendly" format of `jiff`, with fractions of
/// a second to two digits.
pub uninterp spec fn friendly_duration(nanos: i64) -> Seq<char>;

/// `SpanPrinter::duration_to_string` of `jiff`, for fractions of a second with a precision
/// of two. What it gives depends on the duration alone.
#[verifier::external_body]
fn jiff_friendly_duration(nanos: i64) -> (r: String)
    ensures
        r@ == friendly_duration(nanos),
{
    jiff::fmt::friendly::SpanPrinter::new()
        .fractional(Some(jiff::fmt::friendly::FractionalUnit::Second))
        .precision(Some(2))
        .duration_to_string(&jiff::SignedDuration::from_nanos(nanos))
}

/// A text without the indentation that its lines, but for the first, share.
pub uninterp spec fn unindented(raw: Seq<char>) -> Seq<char>;

/// `unindent::unindent`. What it gives depends on the text alone.
#[verifier::external_body]
fn unindent_text(raw: &str) -> (r: String)
    ensures
        r@ == unindented(raw@),
{
    unindent::unindent(raw)
}

// ---------------------------------------------------------------------------------------
// Facts

/// How chunks are merged as they arrive: in words, and with the environment variables that
/// change it.
#[derive(Debug)]
pub struct CompactionFacts {
    pub max_rows: String,
    pub max_rows_if_unsorted: String,
    pub max_bytes: String,
    pub env_max_rows: String,
    pub env_max_rows_if_unsorted: String,
    pub env_max_bytes: String,
}

/// What a store says of itself.
#[derive(Debug)]
pub struct StoreInfo {
    pub cloned_from: Option<StoreId>,
    pub source: String,
    pub version: Option<String>,
}

/// The sizes and the chunks of a store, as far as its manifest tells.
#[derive(Debug)]
pub struct ManifestFacts {
    /// The size of the whole recording, uncompressed.
    pub full_size: u64,
    /// Whether all of it is loaded.
    pub is_fully_loaded: bool,
    /// For each chunk whether it is loaded.
    pub root_chunks: Vec<bool>,
    /// Whether more of the manifest is to come.
    pub is_partial: bool,
}

/// What the card is about.
#[derive(Debug)]
pub struct StoreCardFacts {
    pub store_id: StoreId,
    /// The kind of store, in words.
    pub kind_text: String,
    pub segment_id: Option<String>,
    pub info: Option<StoreInfo>,
    /// Whether there is room for everything.
    pub in_panel: bool,
    /// Tests show nothing that differs from run to run.
    pub is_test: bool,
    /// When it was last modified, in nanoseconds since the epoch and in words.
    pub modified: Option<(u64, String)>,
    /// The time between the first and the last entry of its log, in nanoseconds.
    pub log_time_span: Option<i64>,
    /// The size of its data in memory.
    pub current_size: u64,
    pub manifest: Option<ManifestFacts>,
    pub memory_limit: u64,
    pub compaction: CompactionFacts,
    pub data_source: Option<String>,
}

/// Numbers in words.
#[derive(Debug)]
pub struct StoreCardTexts {
    pub full_size: String,
    pub current_size: String,
    pub max_downloaded: String,
    pub memory_limit: String,
    pub chunks_loaded: String,
    pub chunks: String,
    pub average_chunk_size: String,
    pub entities: String,
    pub timelines: String,
    pub columns: String,
    pub rows: String,
}

/// The numbers that the card shows.
#[derive(Clone, Copy, Debug, PartialEq, Eq, Structural)]
pub struct StoreSizes {
    /// The size of the whole recording.
    pub full: u64,
    /// How much of it will be downloaded.
    pub max_downloaded: u64,
    pub chunks: usize,
    pub chunks_loaded: usize,
}

/// How many of these are true.
pub open spec fn count_true(list: Seq<bool>) -> nat
    decreases list.len(),
{
    if list.len() == 0 {
        0
    } else {
        count_true(list.drop_last()) + if list.last() {
            1nat
        } else {
            0nat
        }
    }
}

/// The size of the whole recording: what its manifest says, but not less than what is there.
pub open spec fn full_size(f: StoreCardFacts) -> u64 {
    match f.manifest {
        Some(m) => if m.full_size >= f.current_size {
            m.full_size
        } else {
            f.current_size
        },
        None => f.current_size,
    }
}

/// How much will be downloaded: what the memory budget allows, unless all is there already.
pub open spec fn max_downloaded(f: StoreCardFacts) -> u64 {
    match f.manifest {
        Some(m) => if m.is_fully_loaded || full_size(f) <= f.memory_limit {
            full_size(f)
        } else {
            f.memory_limit
        },
        None => full_size(f),
    }
}

pub open spec fn sizes_of(f: StoreCardFacts) -> StoreSizes {
    StoreSizes {
        full: full_size(f),
        max_downloaded: max_downloaded(f),
        chunks: match f.manifest {
            Some(m) => m.root_chunks@.len() as usize,
            None => 0,
        },
        chunks_loaded: match f.manifest {
            Some(m) => count_true(m.root_chunks@) as usize,
            None => 0,
        },
    }
}

/// How many of the entries of a list are true.
pub(crate) fn number_of_true(list: &Vec<bool>) -> (r: usize)
    ensures
        r == count_true(list@),
        r <= list@.len(),
{
    let n: usize = list.len();
    let mut count: usize = 0;
    let mut i: usize = 0;
    while i < n
        invariant
            i <= n,
            n == list@.len(),
            count == count_true(list@.take(i as int)),
            count <= i,
        decreases n - i,
    {
        assert(list@.take(i + 1).drop_last() =~= list@.take(i as int));
        if list[i] {
            count += 1;
        }
        i += 1;
    }
    assert(list@.take(n as int) =~= list@);
    count
}

impl StoreCardFacts {
    /// The numbers that the card shows.
    pub fn sizes(&self) -> (r: StoreSizes)
        ensures
            r == sizes_of(*self),
    {
        match &self.manifest {
            None => StoreSizes {
                full: self.current_size,
                max_downloaded: self.current_size,
                chunks: 0,
                chunks_loaded: 0,
            },
            Some(m) => {
                let full: u64 = if m.full_size >= self.current_size {
                    m.full_size
                } else {
                    self.current_size
                };
                let max_downloaded: u64 = if m.is_fully_loaded || full <= self.memory_limit {
                    full
                } else {
                    self.memory_limit
                };
                StoreSizes {
                    full,
                    max_downloaded,
                    chunks: m.root_chunks.len(),
                    chunks_loaded: number_of_true(&m.root_chunks),
                }
            },
        }
    }
}

// ---------------------------------------------------------------------------------------
// Rows

/// What stands on the right hand of a row.
#[derive(Debug)]
pub enum Cell {
    Text(String),
    /// A button for a store.
    Store(StoreId),
    /// A button for an application.
    App(String),
    /// A button for a source of data.
    DataSource(String),
    /// How much was downloaded: in bytes and in chunks and, in between, why it will not be
    /// all.
    Progress(String, Option<String>, Option<String>),
}

/// A row of the card.
#[derive(Debug)]
pub struct CardRow {
    pub label: String,
    pub label_hint: Option<&'static str>,
    pub cell: Cell,
    pub hint: Option<String>,
}

/// What stands on the right hand of a row, as a view.
pub enum CellView {
    Text(Seq<char>),
    Store(StoreId),
    App(Seq<char>),
    DataSource(Seq<char>),
    Progress(Seq<char>, Option<Seq<char>>, Option<Seq<char>>),
}

/// A row of the card, as a view.
pub struct RowView {
    pub label: Seq<char>,
    pub label_hint: Option<Seq<char>>,
    pub cell: CellView,
    pub hint: Option<Seq<char>>,
}

pub open spec fn cell_view(c: Cell) -> CellView {
    match c {
        Cell::Text(words) => CellView::Text(words@),
        Cell::Store(id) => CellView::Store(id),
        Cell::App(id) => CellView::App(id@),
        Cell::DataSource(source) => CellView::DataSource(source@),
        Cell::Progress(size, limit, chunks) => CellView::Progress(
            size@,
            text::opt_view(limit),
            text::opt_view(chunks),
        ),
    }
}

pub open spec fn row_view(r: CardRow) -> RowView {
    RowView {
        label: r.label@,
        label_hint: match r.label_hint {
            Some(hint) => Some(hint@),
            None => None,
        },
        cell: cell_view(r.cell),
        hint: text::opt_view(r.hint),
    }
}

pub open spec fn row_views(rows: Seq<CardRow>) -> Seq<RowView> {
    Seq::new(rows.len(), |i: int| row_view(rows[i]))
}

/// A row with a label and nothing to say on hover.
pub open spec fn plain_row(label: Seq<char>, cell: CellView) -> RowView {
    RowView { label, label_hint: None, cell, hint: None }
}

/// A row, if there is something to show in it.
pub open spec fn row_if(on: bool, row: RowView) -> Seq<RowView> {
    if on {
        seq![row]
    } else {
        seq![]
    }
}

fn push_row(rows: &mut Vec<CardRow>, row: CardRow)
    ensures
        row_views(final(rows)@) == row_views(old(rows)@).push(row_view(row)),
{
    rows.push(row);
    assert(row_views(rows@) =~= row_views(old(rows)@).push(row_view(row)));
}

fn text_row(label: &str, words: String) -> (r: CardRow)
    ensures
        row_view(r) == plain_row(label@, CellView::Text(words@)),
{
    CardRow { label: label.to_owned(), label_hint: None, cell: Cell::Text(words), hint: None }
}

// Who it is

/// What identifies the store.
pub open spec fn identity_rows(f: StoreCardFacts, lang: Language) -> Seq<RowView> {
    seq![plain_row(f.kind_text@ + " ID"@, CellView::Text(f.store_id.recording_id@))] + row_if(
        f.segment_id is Some,
        plain_row(
            i18n::translated(lang, "Segment ID"@, "片段 ID"@),
            CellView::Text(f.segment_id->0@),
        ),
    )
}

/// What the store says of itself.
pub open spec fn info_rows(f: StoreCardFacts, lang: Language) -> Seq<RowView> {
    match f.info {
        Some(info) => if !f.in_panel {
            seq![]
        } else {
            row_if(
                info.cloned_from is Some,
                plain_row(
                    i18n::translated(lang, "Clone of"@, "克隆自"@),
                    CellView::Store(info.cloned_from->0),
                ),
            ) + seq![
                plain_row(
                    i18n::translated(lang, "Application ID"@, "应用 ID"@),
                    CellView::App(f.store_id.application_id@),
                ),
                plain_row(
                    i18n::translated(lang, "Source"@, "来源"@),
                    CellView::Text(info.source@),
                ),
            ] + row_if(
                info.version is Some,
                plain_row(
                    i18n::translated(lang, "Source RRD version"@, "来源 RRD 版本"@),
                    CellView::Text(info.version->0@),
                ),
            ) + seq![
                plain_row(
                    i18n::translated(lang, "Kind"@, "类型"@),
                    CellView::Text(f.kind_text@),
                ),
            ]
        },
        None => seq![],
    }
}

impl StoreCardFacts {
    fn push_identity(&self, rows: &mut Vec<CardRow>, lang: Language)
        ensures
            row_views(final(rows)@) == row_views(old(rows)@) + identity_rows(*self, lang),
    {
        let label: String = text::cat2(self.kind_text.as_str(), " ID");
        push_row(rows, text_row(label.as_str(), self.store_id.recording_id.clone()));
        if let Some(segment) = &self.segment_id {
            push_row(rows, text_row(tr(lang, "Segment ID", "片段 ID"), segment.clone()));
        }
        assert(row_views(rows@) =~= row_views(old(rows)@) + identity_rows(*self, lang));
    }

    fn push_info(&self, rows: &mut Vec<CardRow>, lang: Language)
        ensures
            row_views(final(rows)@) == row_views(old(rows)@) + info_rows(*self, lang),
    {
        if self.in_panel {
            if let Some(info) = &self.info {
                if let Some(id) = &info.cloned_from {
                    push_row(
                        rows,
                        CardRow {
                            label: tr(lang, "Clone of", "克隆自").to_owned(),
                            label_hint: None,
                            cell: Cell::Store(id.clone()),
                            hint: None,
                        },
                    );
                }
                push_row(
                    rows,
                    CardRow {
                        label: tr(lang, "Application ID", "应用 ID").to_owned(),
                        label_hint: None,
                        cell: Cell::App(self.store_id.application_id.clone()),
                        hint: None,
                    },
                );
                push_row(rows, text_row(tr(lang, "Source", "来源"), info.source.clone()));
                if let Some(version) = &info.version {
                    push_row(
                        rows,
                        text_row(tr(lang, "Source RRD version", "来源 RRD 版本"), version.clone()),
                    );
                }
                push_row(rows, text_row(tr(lang, "Kind", "类型"), self.kind_text.clone()));
            }
        }
        assert(row_views(rows@) =~= row_views(old(rows)@) + info_rows(*self, lang));
    }
}

// When it was

/// When it was modified, and how much time it spans.
pub open spec fn time_rows(f: StoreCardFacts, lang: Language) -> Seq<RowView> {
    (match f.modified {
        Some((nanos, words)) => row_if(
            !f.is_test && nanos <= i64::MAX,
            plain_row(i18n::translated(lang, "Modified"@, "修改时间"@), CellView::Text(words@)),
        ),
        None => seq![],
    }) + (match f.log_time_span {
        Some(nanos) => row_if(
            nanos > 0,
            RowView {
                label: i18n::translated(lang, "Duration"@, "时长"@),
                label_hint: None,
                cell: CellView::Text(friendly_duration(nanos)),
                hint: Some(
                    i18n::translated(
                        lang,
                        "Duration between earliest and latest log_time."@,
                        "最早与最晚 log_time 之间的时长。"@,
                    ),
                ),
            },
        ),
        None => seq![],
    })
}

impl StoreCardFacts {
    fn push_times(&self, rows: &mut Vec<CardRow>, lang: Language)
        ensures
            row_views(final(rows)@) == row_views(old(rows)@) + time_rows(*self, lang),
    {
        if let Some((nanos, words)) = &self.modified {
            if !self.is_test && *nanos <= i64::MAX as u64 {
                push_row(rows, text_row(tr(lang, "Modified", "修改时间"), words.clone()));
            }
        }
        if let Some(nanos) = self.log_time_span {
            if nanos > 0 {
                push_row(
                    rows,
                    CardRow {
                        label: tr(lang, "Duration", "时长").to_owned(),
                        label_hint: None,
                        cell: Cell::Text(jiff_friendly_duration(nanos)),
                        hint: Some(
                            tr(
                                lang,
                                "Duration between earliest and latest log_time.",
                                "最早与最晚 log_time 之间的时长。",
                            ).to_owned(),
                        ),
                    },
                );
            }
        }
        assert(row_views(rows@) =~= row_views(old(rows)@) + time_rows(*self, lang));
    }
}

// How large it is

/// How much was downloaded.
pub open spec fn progress_cell(f: StoreCardFacts, t: StoreCardTexts, lang: Language) -> CellView {
    let s = sizes_of(f);
    if f.manifest->0.is_partial {
        CellView::Progress(
            t.current_size@ + " / ?"@,
            None,
            Some(
                i18n::translated(lang, "("@, "（"@) + t.chunks_loaded@ + i18n::translated(
                    lang,
                    " / ? chunks)"@,
                    " / ? 个 chunk）"@,
                ),
            ),
        )
    } else if s.chunks_loaded == s.chunks {
        CellView::Progress("100%"@, None, None)
    } else {
        CellView::Progress(
            t.current_size@ + " / "@ + t.max_downloaded@,
            if s.max_downloaded < s.full {
                Some(
                    i18n::translated(lang, "Download limited to "@, "受 "@) + t.memory_limit@
                        + i18n::translated(lang, " memory budget"@, " 内存预算限制，不会全部下载"@),
                )
            } else {
                None
            },
            Some(
                i18n::translated(lang, "("@, "（"@) + t.chunks_loaded@ + " / "@ + t.chunks@
                    + i18n::translated(lang, " chunks)"@, " 个 chunk）"@),
            ),
        )
    }
}

/// How large it is, how much of it was downloaded and how large its chunks are.
pub open spec fn size_rows(f: StoreCardFacts, t: StoreCardTexts, lang: Language) -> Seq<RowView> {
    seq![
        RowView {
            label: i18n::translated(lang, "Size"@, "大小"@),
            label_hint: None,
            cell: CellView::Text(t.full_size@),
            hint: Some(
                "在内存中的大致占用（解压后）。\n在下方 Streams 面板中把鼠标悬停到某个实体上，可以查看单个实体的大小。"@,
            ),
        },
    ] + row_if(f.manifest is Some, plain_row("已下载"@, progress_cell(f, t, lang))) + row_if(
        f.manifest is Some && sizes_of(f).chunks > 0,
        RowView {
            label: "平均 chunk 大小"@,
            label_hint: Some("远端上的大小"@),
            cell: CellView::Text(t.average_chunk_size@),
            hint: None,
        },
    )
}

impl StoreCardFacts {
    fn progress(&self, m: &ManifestFacts, t: &StoreCardTexts, lang: Language) -> (r: Cell)
        requires
            self.manifest == Some(*m),
        ensures
            cell_view(r) == progress_cell(*self, *t, lang),
    {
        let s: StoreSizes = self.sizes();
        if m.is_partial {
            Cell::Progress(
                text::cat2(t.current_size.as_str(), " / ?"),
                None,
                Some(
                    text::cat3(
                        tr(lang, "(", "（"),
                        t.chunks_loaded.as_str(),
                        tr(lang, " / ? chunks)", " / ? 个 chunk）"),
                    ),
                ),
            )
        } else if s.chunks_loaded == s.chunks {
            Cell::Progress("100%".to_owned(), None, None)
        } else {
            Cell::Progress(
                text::cat3(t.current_size.as_str(), " / ", t.max_downloaded.as_str()),
                if s.max_downloaded < s.full {
                    Some(
                        text::cat3(
                            tr(lang, "Download limited to ", "受 "),
                            t.memory_limit.as_str(),
                            tr(lang, " memory budget", " 内存预算限制，不会全部下载"),
                        ),
                    )
                } else {
                    None
                },
                Some(
                    text::cat5(
                        tr(lang, "(", "（"),
                        t.chunks_loaded.as_str(),
                        " / ",
                        t.chunks.as_str(),
                        tr(lang, " chunks)", " 个 chunk）"),
                    ),
                ),
            )
        }
    }

    fn push_sizes(&self, rows: &mut Vec<CardRow>, t: &StoreCardTexts, lang: Language)
        ensures
            row_views(final(rows)@) == row_views(old(rows)@) + size_rows(*self, *t, lang),
    {
        push_row(
            rows,
            CardRow {
                label: tr(lang, "Size", "大小").to_owned(),
                label_hint: None,
                cell: Cell::Text(t.full_size.clone()),
                hint: Some(
                    "在内存中的大致占用（解压后）。\n在下方 Streams 面板中把鼠标悬停到某个实体上，可以查看单个实体的大小。".to_owned(),
                ),
            },
        );
        if let Some(m) = &self.manifest {
            push_row(
                rows,
                CardRow {
                    label: "已下载".to_owned(),
                    label_hint: None,
                    cell: self.progress(m, t, lang),
                    hint: None,
                },
            );
            if m.root_chunks.len() > 0 {
                push_row(
                    rows,
                    CardRow {
                        label: "平均 chunk 大小".to_owned(),
                        label_hint: Some("远端上的大小"),
                        cell: Cell::Text(t.average_chunk_size.clone()),
                        hint: None,
                    },
                );
            }
        }
        assert(row_views(rows@) =~= row_views(old(rows)@) + size_rows(*self, *t, lang));
    }
}

// What is in it

/// How much there is of everything.
pub open spec fn stats_rows(t: StoreCardTexts) -> Seq<RowView> {
    seq![
        RowView {
            label: "实体"@,
            label_hint: Some("位于 ChunkStore 中的实体数"@),
            cell: CellView::Text(t.entities@),
            hint: None,
        },
        plain_row("时间轴列"@, CellView::Text(t.timelines@)),
        plain_row("数据列"@, CellView::Text(t.columns@)),
        plain_row("行数"@, CellView::Text(t.rows@)),
    ]
}

fn push_stats(rows: &mut Vec<CardRow>, t: &StoreCardTexts)
    ensures
        row_views(final(rows)@) == row_views(old(rows)@) + stats_rows(*t),
{
    push_row(
        rows,
        CardRow {
            label: "实体".to_owned(),
            label_hint: Some("位于 ChunkStore 中的实体数"),
            cell: Cell::Text(t.entities.clone()),
            hint: None,
        },
    );
    push_row(rows, text_row("时间轴列", t.timelines.clone()));
    push_row(rows, text_row("数据列", t.columns.clone()));
    push_row(rows, text_row("行数", t.rows.clone()));
    assert(row_views(rows@) =~= row_views(old(rows)@) + stats_rows(*t));
}

/// How chunks are merged, at length, as it is written down.
pub open spec fn compaction_essay(c: CompactionFacts) -> Seq<char> {
    "当前录制文件的 chunk 合并配置为：不断合并 chunk，直到达到 "@
        + c.max_rows@
        + " 行（未排序时 "@
        + c.max_rows_if_unsorted@
        + " 行）或 "@
        + c.max_bytes@
        + " 上限，以先到者为准。\n\n                    Viewer 会在数据到达时把 chunk 合并到一起，以便在存储空间和计算开销之间取得平衡。\n                    这与 SDK 的批处理器（batcher）不同：后者在记录端（SDK）做类似的工作，但目标和约束不一样。\n                    这两个功能（SDK 批处理器和 Viewer 合并器）互为补充。\n\n                    阈值越高，通常空间开销越小，但摄入和查询都需要更多计算。\n                    阈值越低，通常空间开销越大，但摄入更快、查询响应更及时。\n                    以上只是粗略的概括 — 拿不准就用默认值，默认值适合大多数场景。\n\n                    要修改当前配置，请在启动 Viewer 前设置以下环境变量：\n                    * "@
        + c.env_max_rows@
        + "\n                    * "@
        + c.env_max_rows_if_unsorted@
        + "\n                    * "@
        + c.env_max_bytes@
        + "\n\n                    这个合并过程只是 Rerun Viewer 在内存中的临时优化，不会改动录制文件本身：如果想持久化合并结果（让后续打开更快），请使用 Viewer 的“保存”命令或 `rerun rrd optimize` 命令行工具。\n                    "@
}

/// How chunks are merged, in short.
pub open spec fn compaction_words(c: CompactionFacts, lang: Language) -> Seq<char> {
    match lang {
        Language::English => c.max_rows@ + " rows ("@ + c.max_rows_if_unsorted@
            + " if unsorted) or "@ + c.max_bytes@,
        Language::Chinese => c.max_rows@ + " 行（未排序时 "@ + c.max_rows_if_unsorted@
            + " 行）或 "@ + c.max_bytes@,
    }
}

/// How chunks are merged, and where the data comes from.
pub open spec fn origin_rows(f: StoreCardFacts, lang: Language) -> Seq<RowView> {
    row_if(
        f.in_panel,
        RowView {
            label: "chunk 合并配置"@,
            label_hint: None,
            cell: CellView::Text(compaction_words(f.compaction, lang)),
            hint: Some(unindented(compaction_essay(f.compaction))),
        },
    ) + row_if(
        f.in_panel && f.data_source is Some,
        plain_row("数据源"@, CellView::DataSource(f.data_source->0@)),
    )
}

fn compaction_hint(c: &CompactionFacts) -> (r: String)
    ensures
        r@ == unindented(compaction_essay(*c)),
{
    let mut raw: String = "当前录制文件的 chunk 合并配置为：不断合并 chunk，直到达到 ".to_owned();
    raw.append(c.max_rows.as_str());
    raw.append(" 行（未排序时 ");
    raw.append(c.max_rows_if_unsorted.as_str());
    raw.append(" 行）或 ");
    raw.append(c.max_bytes.as_str());
    raw.append(" 上限，以先到者为准。\n\n                    Viewer 会在数据到达时把 chunk 合并到一起，以便在存储空间和计算开销之间取得平衡。\n                    这与 SDK 的批处理器（batcher）不同：后者在记录端（SDK）做类似的工作，但目标和约束不一样。\n                    这两个功能（SDK 批处理器和 Viewer 合并器）互为补充。\n\n                    阈值越高，通常空间开销越小，但摄入和查询都需要更多计算。\n                    阈值越低，通常空间开销越大，但摄入更快、查询响应更及时。\n                    以上只是粗略的概括 — 拿不准就用默认值，默认值适合大多数场景。\n\n                    要修改当前配置，请在启动 Viewer 前设置以下环境变量：\n                    * ");
    raw.append(c.env_max_rows.as_str());
    raw.append("\n                    * ");
    raw.append(c.env_max_rows_if_unsorted.as_str());
    raw.append("\n                    * ");
    raw.append(c.env_max_bytes.as_str());
    raw.append("\n\n                    这个合并过程只是 Rerun Viewer 在内存中的临时优化，不会改动录制文件本身：如果想持久化合并结果（让后续打开更快），请使用 Viewer 的“保存”命令或 `rerun rrd optimize` 命令行工具。\n                    ");
    unindent_text(raw.as_str())
}

impl StoreCardFacts {
    fn push_origin(&self, rows: &mut Vec<CardRow>, lang: Language)
        ensures
            row_views(final(rows)@) == row_views(old(rows)@) + origin_rows(*self, lang),
    {
        if self.in_panel {
            let c: &CompactionFacts = &self.compaction;
            let words: String = text::cat5(
                c.max_rows.as_str(),
                tr(lang, " rows (", " 行（未排序时 "),
                c.max_rows_if_unsorted.as_str(),
                tr(lang, " if unsorted) or ", " 行）或 "),
                c.max_bytes.as_str(),
            );
            push_row(
                rows,
                CardRow {
                    label: "chunk 合并配置".to_owned(),
                    label_hint: None,
                    cell: Cell::Text(words),
                    hint: Some(compaction_hint(c)),
                },
            );
            if let Some(source) = &self.data_source {
                push_row(
                    rows,
                    CardRow {
                        label: "数据源".to_owned(),
                        label_hint: None,
                        cell: Cell::DataSource(source.clone()),
                        hint: None,
                    },
                );
            }
        }
        assert(row_views(rows@) =~= row_views(old(rows)@) + origin_rows(*self, lang));
    }

    /// The rows of the card, from top to bottom.
    pub fn grid_content(&self, t: &StoreCardTexts, lang: Language) -> (r: Vec<CardRow>)
        ensures
            row_views(r@) == card_rows(*self, *t, lang),
    {
        let mut rows: Vec<CardRow> = Vec::new();
        self.push_identity(&mut rows, lang);
        self.push_info(&mut rows, lang);
        self.push_times(&mut rows, lang);
        self.push_sizes(&mut rows, t, lang);
        push_stats(&mut rows, t);
        self.push_origin(&mut rows, lang);
        assert(row_views(rows@) =~= card_rows(*self, *t, lang));
        rows
    }
}

/// The rows of the card, from top to bottom.
pub open spec fn card_rows(f: StoreCardFacts, t: StoreCardTexts, lang: Language) -> Seq<RowView> {
    identity_rows(f, lang) + info_rows(f, lang) + time_rows(f, lang) + size_rows(f, t, lang)
        + stats_rows(t) + origin_rows(f, lang)
}

// ---------------------------------------------------------------------------------------
// In a single line

/// The store in a single line.
pub fn single_line(store_id: &StoreId, data_source: &Option<String>) -> (r: String)
    ensures
        r@ == store_id.recording_id@ + (match *data_source {
            Some(source) => ", "@ + source@,
            None => Seq::empty(),
        }) + ", "@ + store_id.application_id@,
{
    let mut out: String = store_id.recording_id.clone();
    if let Some(source) = data_source {
        out.append(", ");
        out.append(source.as_str());
    }
    assert(out@ =~= store_id.recording_id@ + (match *data_source {
        Some(source) => ", "@ + source@,
        None => Seq::empty(),
    }));
    out.append(", ");
    out.append(store_id.application_id.as_str());
    out
}

// ---------------------------------------------------------------------------------------
// Blueprints

/// How a blueprint stands to the application that is active.
#[derive(Debug)]
pub struct BlueprintFacts {
    pub kind: StoreKind,
    /// The application of the store.
    pub app_id: String,
    /// The application that is active, if any.
    pub active_app_id: Option<String>,
    /// Whether it is the default blueprint of the active application.
    pub is_default: bool,
    /// Whether it is the active blueprint of the active application.
    pub is_active: bool,
    /// If the active blueprint is a clone of this one: whether it was modified since.
    pub active_is_clone: Option<bool>,
}

/// What is said of a blueprint: line by line.
pub open spec fn blueprint_words(f: BlueprintFacts, lang: Language) -> Seq<Seq<char>> {
    if f.kind == StoreKind::Recording || f.active_app_id is None {
        seq![]
    } else if f.app_id@ != f.active_app_id->0@ {
        seq![
            i18n::translated(
                lang,
                "This blueprint is not for the active application"@,
                "这个 blueprint 不属于当前活跃的应用"@,
            ),
        ]
    } else if f.is_default && f.is_active {
        seq![
            i18n::translated(
                lang,
                "This is both the active and default blueprint for the current application, '"@,
                "这既是当前应用 '"@,
            ) + f.active_app_id->0@ + i18n::translated(
                lang,
                "'"@,
                "' 正在生效的 blueprint，也是其默认 blueprint"@,
            ),
        ]
    } else if f.is_active {
        seq![
            i18n::translated(
                lang,
                "This is the active blueprint for the current application, '"@,
                "这是当前应用 '"@,
            ) + f.active_app_id->0@ + i18n::translated(lang, "'"@, "' 正在生效的 blueprint"@),
        ]
    } else if f.is_default {
        seq![
            i18n::translated(
                lang,
                "This is the default blueprint for the current application."@,
                "这是当前应用的默认 blueprint。"@,
            ),
        ] + (match f.active_is_clone {
            Some(false) => seq![
                i18n::translated(
                    lang,
                    "The active blueprint is a clone of this blueprint."@,
                    "当前生效的 blueprint 是这个 blueprint 的克隆。"@,
                ),
            ],
            Some(true) => seq![
                i18n::translated(
                    lang,
                    "The active blueprint is a modified clone of this blueprint."@,
                    "当前生效的 blueprint 是这个 blueprint 的克隆，并有改动。"@,
                ),
            ],
            None => seq![],
        })
    } else {
        seq![]
    }
}

impl BlueprintFacts {
    /// What is said of a blueprint.
    pub fn lines(&self, lang: Language) -> (r: Vec<String>)
        ensures
            text::views(r@) == blueprint_words(*self, lang),
    {
        let mut out: Vec<String> = Vec::new();
        if self.kind == StoreKind::Blueprint {
            if let Some(active) = &self.active_app_id {
                if self.app_id != *active {
                    out.push(
                        tr(
                            lang,
                            "This blueprint is not for the active application",
                            "这个 blueprint 不属于当前活跃的应用",
                        ).to_owned(),
                    );
                } else if self.is_default && self.is_active {
                    out.push(
                        text::cat3(
                            tr(
                                lang,
                                "This is both the active and default blueprint for the current application, '",
                                "这既是当前应用 '",
                            ),
                            active.as_str(),
                            tr(lang, "'", "' 正在生效的 blueprint，也是其默认 blueprint"),
                        ),
                    );
                } else if self.is_active {
                    out.push(
                        text::cat3(
                            tr(
                                lang,
                                "This is the active blueprint for the current application, '",
                                "这是当前应用 '",
                            ),
                            active.as_str(),
                            tr(lang, "'", "' 正在生效的 blueprint"),
                        ),
                    );
                } else if self.is_default {
                    out.push(
                        tr(
                            lang,
                            "This is the default blueprint for the current application.",
                            "这是当前应用的默认 blueprint。",
                        ).to_owned(),
                    );
                    match self.active_is_clone {
                        Some(modified) => if modified {
                            out.push(
                                tr(
                                    lang,
                                    "The active blueprint is a modified clone of this blueprint.",
                                    "当前生效的 blueprint 是这个 blueprint 的克隆，并有改动。",
                                ).to_owned(),
                            );
                        } else {
                            out.push(
                                tr(
                                    lang,
                                    "The active blueprint is a clone of this blueprint.",
                                    "当前生效的 blueprint 是这个 blueprint 的克隆。",
                                ).to_owned(),
                            );
                        },
                        None => {},
                    }
                }
            }
        }
        assert(text::views(out@) =~= blueprint_words(*self, lang));
        out
    }
}

// ---------------------------------------------------------------------------------------
// Laws

/// What will be downloaded is no more than the whole, and within the memory budget unless all
/// of it is there already; the whole is no less than what is there.
pub proof fn law_download_respects_the_budget(f: StoreCardFacts)
    ensures
        full_size(f) >= f.current_size,
        max_downloaded(f) <= full_size(f),
        f.manifest is Some && !f.manifest->0.is_fully_loaded ==> max_downloaded(f)
            <= f.memory_limit,
        max_downloaded(f) < full_size(f) ==> max_downloaded(f) == f.memory_limit,
{
}

/// No more chunks are loaded than there are, and all of them are loaded if none is missing.
pub proof fn law_loaded_chunks_are_chunks(chunks: Seq<bool>)
    ensures
        count_true(chunks) <= chunks.len(),
        count_true(chunks) == chunks.len() <==> forall|i: int| 0 <= i < chunks.len() ==> chunks[i],
    decreases chunks.len(),
{
    if chunks.len() > 0 {
        let front = chunks.drop_last();
        law_loaded_chunks_are_chunks(front);
        if forall|i: int| 0 <= i < chunks.len() ==> chunks[i] {
            assert(forall|i: int| 0 <= i < front.len() ==> front[i] == chunks[i]);
            assert(chunks.last());
        }
        if count_true(chunks) == chunks.len() {
            assert forall|i: int| 0 <= i < chunks.len() implies chunks[i] by {
                if i < front.len() {
                    assert(front[i]);
                }
            }
        }
    }
}

/// Loaded chunks are counted one by one.
pub proof fn law_loaded_chunks_are_counted(a: Seq<bool>, b: Seq<bool>)
    ensures
        count_true(a + b) == count_true(a) + count_true(b),
        count_true(seq![true]) == 1,
        count_true(seq![false]) == 0,
    decreases b.len(),
{
    if b.len() > 0 {
        law_loaded_chunks_are_counted(a, b.drop_last());
        assert((a + b).drop_last() =~= a + b.drop_last());
        assert((a + b).last() == b.last());
    } else {
        assert(a + b =~= a);
    }
    assert(seq![true].drop_last() =~= Seq::empty());
    assert(seq![false].drop_last() =~= Seq::empty());
    assert(count_true(Seq::empty()) == 0);
}

/// The whole is what is there, or what the manifest announces, whichever is more. All of it
/// comes in where it is there already or where there is room for it; else as much as there is
/// room for.
pub proof fn law_sizes_are_those_of_the_manifest(f: StoreCardFacts)
    ensures
        f.manifest is None ==> {
            &&& sizes_of(f).full == f.current_size
            &&& sizes_of(f).max_downloaded == f.current_size
            &&& sizes_of(f).chunks == 0
            &&& sizes_of(f).chunks_loaded == 0
        },
        f.manifest is Some ==> {
            &&& sizes_of(f).full >= f.manifest->0.full_size
            &&& sizes_of(f).full >= f.current_size
            &&& sizes_of(f).full == f.manifest->0.full_size || sizes_of(f).full == f.current_size
            &&& f.manifest->0.is_fully_loaded ==> sizes_of(f).max_downloaded == sizes_of(f).full
            &&& sizes_of(f).full <= f.memory_limit ==> sizes_of(f).max_downloaded == sizes_of(
                f,
            ).full
            &&& !f.manifest->0.is_fully_loaded && sizes_of(f).full > f.memory_limit ==> sizes_of(
                f,
            ).max_downloaded == f.memory_limit
            &&& sizes_of(f).chunks == f.manifest->0.root_chunks.len()
            &&& sizes_of(f).chunks_loaded == count_true(f.manifest->0.root_chunks@)
        },
{
    if let Some(m) = f.manifest {
        law_loaded_chunks_are_chunks(m.root_chunks@);
        assert(m.root_chunks.len() == m.root_chunks@.len());
    }
}

/// Whether no chunk is missing.
pub open spec fn is_complete(m: ManifestFacts) -> bool {
    !m.is_partial && forall|i: int| 0 <= i < m.root_chunks@.len() ==> m.root_chunks@[i]
}

/// The download is said to be complete if and only if the manifest is complete and none of its
/// chunks is missing; and the memory budget is blamed if and only if it is what keeps some of
/// the data out.
pub proof fn law_progress_says_how_much_is_there(
    f: StoreCardFacts,
    t: StoreCardTexts,
    lang: Language,
)
    requires
        f.manifest is Some,
    ensures
        progress_cell(f, t, lang) is Progress,
        progress_cell(f, t, lang)->Progress_2 is None <==> is_complete(f.manifest->0),
        progress_cell(f, t, lang)->Progress_2 is None ==> progress_cell(f, t, lang)->Progress_0
            == "100%"@,
        progress_cell(f, t, lang)->Progress_2 is Some ==> {
            let first = progress_cell(f, t, lang)->Progress_0;
            first.len() > t.current_size@.len() && first.take(t.current_size@.len() as int)
                == t.current_size@
        },
        progress_cell(f, t, lang)->Progress_1 is Some <==> {
            &&& !f.manifest->0.is_partial
            &&& !is_complete(f.manifest->0)
            &&& !f.manifest->0.is_fully_loaded
            &&& f.manifest->0.full_size > f.memory_limit || f.current_size > f.memory_limit
        },
{
    reveal_strlit(" / ?");
    reveal_strlit(" / ");
    law_sizes_are_those_of_the_manifest(f);
    law_loaded_chunks_are_chunks(f.manifest->0.root_chunks@);
    let cell = progress_cell(f, t, lang);
    if cell->Progress_2 is Some {
        assert(cell->Progress_0.take(t.current_size@.len() as int) =~= t.current_size@);
    }
}

/// Rows that lead somewhere else are there only where there is room for them.
pub proof fn law_short_card_leads_nowhere(
    f: StoreCardFacts,
    t: StoreCardTexts,
    lang: Language,
    i: int,
)
    requires
        !f.in_panel,
        0 <= i < card_rows(f, t, lang).len(),
    ensures
        card_rows(f, t, lang)[i].cell is Text || card_rows(f, t, lang)[i].cell is Progress,
{
}

/// A card begins with the id of the recording. In the panel the card of a known recording names
/// the application that it is of and the recording that it was cloned from, and where the data
/// comes from, where that is known.
pub proof fn law_full_card_names_the_origin(f: StoreCardFacts, t: StoreCardTexts, lang: Language)
    ensures
        card_rows(f, t, lang).len() > 0,
        card_rows(f, t, lang)[0].cell == CellView::Text(f.store_id.recording_id@),
        f.segment_id is Some ==> card_rows(f, t, lang)[1].cell == CellView::Text(
            f.segment_id->0@,
        ),
        f.in_panel && f.data_source is Some ==> card_rows(f, t, lang).last().cell
            == CellView::DataSource(f.data_source->0@),
        f.in_panel && f.info is Some ==> exists|i: int|
            0 <= i < card_rows(f, t, lang).len() && (#[trigger] card_rows(f, t, lang)[i]).cell
                == CellView::App(f.store_id.application_id@),
        f.in_panel && f.info is Some && f.info->0.cloned_from is Some ==> exists|i: int|
            0 <= i < card_rows(f, t, lang).len() && (#[trigger] card_rows(f, t, lang)[i]).cell
                == CellView::Store(f.info->0.cloned_from->0),
{
    let rows = card_rows(f, t, lang);
    let start = identity_rows(f, lang).len() as int;
    if f.in_panel && f.info is Some {
        let info = f.info->0;
        if info.cloned_from is Some {
            assert(info_rows(f, lang)[0].cell == CellView::Store(info.cloned_from->0));
            assert(rows[start] == info_rows(f, lang)[0]);
            assert(info_rows(f, lang)[1].cell == CellView::App(f.store_id.application_id@));
            assert(rows[start + 1] == info_rows(f, lang)[1]);
        } else {
            assert(info_rows(f, lang)[0].cell == CellView::App(f.store_id.application_id@));
            assert(rows[start] == info_rows(f, lang)[0]);
        }
    }
    if f.in_panel && f.data_source is Some {
        assert(rows.last() == origin_rows(f, lang).last());
    }
}

/// When a recording was modified is said unless it is a test; how long it is, if it takes any
/// time. How large chunks are is said where there are any.
pub proof fn law_times_and_chunks_are_told_where_known(
    f: StoreCardFacts,
    t: StoreCardTexts,
    lang: Language,
)
    ensures
        time_rows(f, lang).len() == (if f.modified is Some && !f.is_test && (
        f.modified matches Some(when) && when.0 <= i64::MAX) {
            1int
        } else {
            0
        }) + (if f.log_time_span is Some && f.log_time_span->0 > 0 {
            1int
        } else {
            0
        }),
        f.modified matches Some(when) ==> (!f.is_test && when.0 <= i64::MAX ==> time_rows(
            f,
            lang,
        )[0].cell == CellView::Text(when.1@)),
        f.log_time_span is Some && f.log_time_span->0 > 0 ==> time_rows(f, lang).last().cell
            == CellView::Text(friendly_duration(f.log_time_span->0)),
        size_rows(f, t, lang)[0].cell == CellView::Text(t.full_size@),
        size_rows(f, t, lang).len() == (if f.manifest is None {
            1int
        } else if f.manifest->0.root_chunks@.len() == 0 {
            2
        } else {
            3
        }),
        f.manifest is Some ==> size_rows(f, t, lang)[1].cell is Progress,
        f.manifest is Some && f.manifest->0.root_chunks@.len() > 0 ==> size_rows(
            f,
            t,
            lang,
        ).last().cell == CellView::Text(t.average_chunk_size@),
{
    law_sizes_are_those_of_the_manifest(f);
}

/// Of a blueprint it is said whether it belongs to the active application, and if so, whether
/// it is the default one, the active one, or both; a clone is mentioned only where it is the
/// default one and not active itself.
pub proof fn law_blueprint_is_described_by_its_role(f: BlueprintFacts, lang: Language)
    ensures
        blueprint_words(f, lang).len() > 0 <==> f.kind == StoreKind::Blueprint
            && f.active_app_id is Some && (f.app_id@ != f.active_app_id->0@ || f.is_active
            || f.is_default),
        blueprint_words(f, lang).len() == 2 <==> f.kind == StoreKind::Blueprint
            && f.active_app_id is Some && f.app_id@ == f.active_app_id->0@ && !f.is_active
            && f.is_default && f.active_is_clone is Some,
        blueprint_words(f, lang).len() <= 2,
        f.kind == StoreKind::Blueprint && f.active_app_id is Some && f.app_id@
            == f.active_app_id->0@ && f.is_active ==> text::occurs_in(
            blueprint_words(f, lang)[0],
            f.app_id@,
        ),
{
    if f.kind == StoreKind::Blueprint && f.active_app_id is Some && f.app_id@
        == f.active_app_id->0@ && f.is_active {
        let line = blueprint_words(f, lang)[0];
        if f.is_default {
            text::lemma_occurs_between(
                i18n::translated(
                    lang,
                    "This is both the active and default blueprint for the current application, '"@,
                    "这既是当前应用 '"@,
                ),
                f.app_id@,
                i18n::translated(lang, "'"@, "' 正在生效的 blueprint，也是其默认 blueprint"@),
                line,
            );
        } else {
            text::lemma_occurs_between(
                i18n::translated(
                    lang,
                    "This is the active blueprint for the current application, '"@,
                    "这是当前应用 '"@,
                ),
                f.app_id@,
                i18n::translated(lang, "'"@, "' 正在生效的 blueprint"@),
                line,
            );
        }
    }
}

/// A row is shown with all that it holds, and all rows are shown, in their order.
pub proof fn law_rows_are_shown_as_they_are(rows: Seq<CardRow>, i: int)
    requires
        0 <= i < rows.len(),
    ensures
        row_views(rows).len() == rows.len(),
        row_views(rows)[i].label == rows[i].label@,
        row_views(rows)[i].label_hint is Some <==> rows[i].label_hint is Some,
        row_views(rows)[i].hint == text::opt_view(rows[i].hint),
        rows[i].cell matches Cell::Text(words) ==> row_views(rows)[i].cell == CellView::Text(words@),
        rows[i].cell matches Cell::App(id) ==> row_views(rows)[i].cell == CellView::App(id@),
        rows[i].cell matches Cell::Store(id) ==> row_views(rows)[i].cell == CellView::Store(id),
        rows[i].cell matches Cell::DataSource(source) ==> row_views(rows)[i].cell
            == CellView::DataSource(source@),
        rows[i].cell matches Cell::Progress(size, limit, chunks) ==> row_views(rows)[i].cell
            == CellView::Progress(size@, text::opt_view(limit), text::opt_view(chunks)),
{
}

// ---------------------------------------------------------------------------------------
// For developers

/// What a development build adds to the card. Numbers and sizes are in words.
#[derive(Debug)]
pub struct DebugFacts {
    /// How many entities the manifest names, where there is one.
    pub entities: Option<String>,
    pub is_buffering: bool,
    pub connection: String,
    pub physical_size: String,
}

/// The rows that a development build adds.
pub open spec fn debug_rows(f: DebugFacts) -> Seq<(Seq<char>, Seq<char>)> {
    (match f.entities {
        Some(entities) => seq![("实体"@, entities@)],
        None => Seq::empty(),
    }) + seq![
        (
            "is_buffering"@,
            if f.is_buffering {
                "true"@
            } else {
                "false"@
            },
        ),
        ("连接"@, f.connection@),
        ("物理 chunk 数"@, f.physical_size@),
    ]
}

/// The part of the card that is for developers.
#[derive(Debug)]
pub struct DebugSection {
    pub heading: &'static str,
    pub rows: Vec<(&'static str, String)>,
}

impl DebugFacts {
    /// The part of the card that is for developers: development builds have it, but not in
    /// tests.
    pub fn section(&self, build: Build, is_test: bool) -> (r: Option<DebugSection>)
        ensures
            r is Some <==> build.debug && !is_test,
            r matches Some(section) ==> {
                &&& section.heading@ == "Debug info"@
                &&& section.rows@.len() == debug_rows(*self).len()
                &&& forall|i: int|
                    0 <= i < section.rows@.len() ==> (
                        (#[trigger] section.rows@[i]).0@,
                        section.rows@[i].1@,
                    ) == debug_rows(*self)[i]
            },
    {
        if build.debug && !is_test {
            Some(DebugSection { heading: "Debug info", rows: self.rows() })
        } else {
            None
        }
    }

    fn rows(&self) -> (r: Vec<(&'static str, String)>)
        ensures
            r@.len() == debug_rows(*self).len(),
            forall|i: int|
                0 <= i < r@.len() ==> ((#[trigger] r@[i]).0@, r@[i].1@) == debug_rows(*self)[i],
    {
        let mut rows: Vec<(&'static str, String)> = Vec::new();
        if let Some(entities) = &self.entities {
            rows.push(("实体", entities.clone()));
        }
        let buffering: &'static str = if self.is_buffering {
            "true"
        } else {
            "false"
        };
        rows.push(("is_buffering", buffering.to_owned()));
        rows.push(("连接", self.connection.clone()));
        rows.push(("物理 chunk 数", self.physical_size.clone()));
        rows
    }
}

} // verus!
