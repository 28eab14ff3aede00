//! The tab that shows how recordings are streamed from a server.
use vstd::prelude::*;
use vstd::string::*;

use crate::text;

verus! {

/// A row of the details of a recording: label, value and hint.
#[derive(Debug)]
pub struct DetailRow {
    pub label: &'static str,
    pub value: String,
    pub hint: Option<&'static str>,
}

/// A row as a view.
pub type DetailView = (Seq<char>, Seq<char>, Option<Seq<char>>);

pub open spec fn detail_view(row: DetailRow) -> DetailView {
    (
        row.label@,
        row.value@,
        match row.hint {
            Some(hint) => Some(hint@),
            None => None,
        },
    )
}

pub open spec fn detail_views(rows: Seq<DetailRow>) -> Seq<DetailView> {
    Seq::new(rows.len(), |i: int| detail_view(rows[i]))
}

fn push_detail(rows: &mut Vec<DetailRow>, label: &'static str, value: String, hint: Option<
    &'static str,
>)
    ensures
        detail_views(final(rows)@) == detail_views(old(rows)@).push(
            (
                label@,
                value@,
                match hint {
                    Some(hint) => Some(hint@),
                    None => None,
                },
            ),
        ),
{
    let row: DetailRow = DetailRow { label, value, hint };
    rows.push(row);
    assert(detail_views(rows@) =~= detail_views(old(rows)@).push(detail_view(row)));
}

/// A yes or no, in words.
pub open spec fn bool_words(b: bool) -> Seq<char> {
    if b {
        "true"@
    } else {
        "false"@
    }
}

fn bool_text(b: bool) -> (r: String)
    ensures
        r@ == bool_words(b),
{
    if b {
        "true".to_owned()
    } else {
        "false".to_owned()
    }
}

/// What is said where nothing is being streamed.
pub fn no_streams() -> (r: &'static str)
    ensures
        r@ == "没有活跃的服务器流式读取连接。"@,
{
    "没有活跃的服务器流式读取连接。"
}

/// What the turning mark before a recording says. Without requests there is a dot instead.
pub fn downloading_mark(has_pending: bool) -> (r: Option<&'static str>)
    ensures
        r is Some <==> has_pending,
        r matches Some(label) ==> label@ == "正在下载 chunk"@,
{
    if has_pending {
        Some("正在下载 chunk")
    } else {
        None
    }
}

// ---------------------------------------------------------------------------------------
// Sums

/// The sum of some numbers.
pub open spec fn sum_of(list: Seq<u64>) -> nat
    decreases list.len(),
{
    if list.len() == 0 {
        0
    } else {
        sum_of(list.drop_last()) + list.last() as nat
    }
}

/// The sum of some numbers.
pub fn sum(list: &Vec<u64>) -> (r: u64)
    requires
        sum_of(list@) <= u64::MAX,
    ensures
        r == sum_of(list@),
{
    let n: usize = list.len();
    let mut total: u64 = 0;
    let mut i: usize = 0;
    while i < n
        invariant
            i <= n,
            n == list@.len(),
            sum_of(list@) <= u64::MAX,
            total == sum_of(list@.take(i as int)),
        decreases n - i,
    {
        proof {
            assert(list@.take(i + 1).drop_last() =~= list@.take(i as int));
            lemma_part_sum(list@, i + 1);
        }
        total += list[i];
        i += 1;
    }
    assert(list@.take(n as int) =~= list@);
    total
}

proof fn lemma_part_sum(list: Seq<u64>, n: int)
    requires
        0 <= n <= list.len(),
    ensures
        sum_of(list.take(n)) <= sum_of(list),
    decreases list.len(),
{
    if n < list.len() {
        lemma_part_sum(list.drop_last(), n);
        assert(list.drop_last().take(n) =~= list.take(n));
    } else {
        assert(list.take(n) =~= list);
    }
}

// ---------------------------------------------------------------------------------------
// Removed chunks

/// How many chunks were removed, and why.
#[derive(Clone, Copy, Debug, PartialEq, Eq, Structural)]
pub struct RemovedChunks {
    pub num_chunks_gc: u64,
    pub num_chunks_split_cleanup: u64,
    pub num_chunks_compacted: u64,
    pub num_chunks_overwritten: u64,
}

impl RemovedChunks {
    pub open spec fn sum(self) -> int {
        self.num_chunks_gc + self.num_chunks_split_cleanup + self.num_chunks_compacted
            + self.num_chunks_overwritten
    }

    /// How many chunks were removed in all.
    pub fn total(&self) -> (r: u64)
        requires
            self.sum() <= u64::MAX,
        ensures
            r == self.sum(),
    {
        self.num_chunks_gc + self.num_chunks_split_cleanup + self.num_chunks_compacted
            + self.num_chunks_overwritten
    }
}

/// The numbers of removed chunks, in words, in the same order.
#[derive(Debug)]
pub struct RemovedTexts {
    pub gc: String,
    pub split_cleanup: String,
    pub compacted: String,
    pub overwritten: String,
}

/// The rows for the reasons that chunks were removed for.
pub open spec fn removed_views(t: RemovedTexts) -> Seq<DetailView> {
    seq![
        ("垃圾回收"@, t.gc@, Some("因内存压力被清理"@)),
        ("拆分清理"@, t.split_cleanup@, Some("根 chunk 重新下载后，被移除的旧拆分 chunk"@)),
        ("压实（compaction）"@, t.compacted@, Some("chunk 被压实后的版本替换"@)),
        ("覆盖"@, t.overwritten@, Some("静态 chunk 被更新的值覆盖"@)),
    ]
}

impl RemovedTexts {
    pub fn rows(&self) -> (r: Vec<DetailRow>)
        ensures
            detail_views(r@) == removed_views(*self),
    {
        let mut rows: Vec<DetailRow> = Vec::new();
        push_detail(&mut rows, "垃圾回收", self.gc.clone(), Some("因内存压力被清理"));
        push_detail(
            &mut rows,
            "拆分清理",
            self.split_cleanup.clone(),
            Some("根 chunk 重新下载后，被移除的旧拆分 chunk"),
        );
        push_detail(
            &mut rows,
            "压实（compaction）",
            self.compacted.clone(),
            Some("chunk 被压实后的版本替换"),
        );
        push_detail(
            &mut rows,
            "覆盖",
            self.overwritten.clone(),
            Some("静态 chunk 被更新的值覆盖"),
        );
        assert(detail_views(rows@) =~= removed_views(*self));
        rows
    }
}

// ---------------------------------------------------------------------------------------
// Progress

/// How far a recording is loaded, in words. A recording without a manifest says nothing of
/// its progress; where no chunk is protected nothing is said of those.
#[derive(Debug)]
pub struct ProgressTexts {
    pub overall: Option<String>,
    pub protected: Option<String>,
    /// How much comes in each second, where that is known.
    pub bandwidth: Option<String>,
}

pub open spec fn progress_views(t: ProgressTexts) -> Seq<DetailView> {
    (match t.overall {
        Some(overall) => seq![
            (
                "总体"@,
                overall@,
                Some("已完整加载的根 chunk 相对于 manifest 声明的整个录制文件的占比。"@),
            ),
        ] + (match t.protected {
            Some(protected) => seq![
                (
                    "已加载的受保护根 chunk"@,
                    protected@,
                    Some(
                        "受保护的根 chunk 不会被垃圾回收。chunk 通常在被活跃使用时受保护。"@,
                    ),
                ),
            ],
            None => seq![],
        }),
        None => seq![],
    }) + seq![
        (
            "带宽"@,
            match t.bandwidth {
                Some(rate) => rate@ + "/s"@,
                None => "—"@,
            },
            Some("近期平均下载速度（按传输中的压缩字节计）"@),
        ),
    ]
}

impl ProgressTexts {
    pub fn rows(&self) -> (r: Vec<DetailRow>)
        ensures
            detail_views(r@) == progress_views(*self),
    {
        let mut rows: Vec<DetailRow> = Vec::new();
        if let Some(overall) = &self.overall {
            push_detail(
                &mut rows,
                "总体",
                overall.clone(),
                Some("已完整加载的根 chunk 相对于 manifest 声明的整个录制文件的占比。"),
            );
            if let Some(protected) = &self.protected {
                push_detail(
                    &mut rows,
                    "已加载的受保护根 chunk",
                    protected.clone(),
                    Some("受保护的根 chunk 不会被垃圾回收。chunk 通常在被活跃使用时受保护。"),
                );
            }
        }
        let bandwidth: String = match &self.bandwidth {
            Some(rate) => text::cat2(rate.as_str(), "/s"),
            None => "—".to_owned(),
        };
        push_detail(
            &mut rows,
            "带宽",
            bandwidth,
            Some("近期平均下载速度（按传输中的压缩字节计）"),
        );
        assert(detail_views(rows@) =~= progress_views(*self));
        rows
    }
}

/// The row for the connection. `state` is its state in words.
pub fn status_row(state: &str) -> (r: DetailRow)
    ensures
        detail_view(r) == ("连接"@, state@, Some("与 Redap 服务器的连接状态"@)),
{
    DetailRow { label: "连接", value: state.to_owned(), hint: Some("与 Redap 服务器的连接状态") }
}

// ---------------------------------------------------------------------------------------
// The manifest

/// How many of the chunks of a manifest are static, and how many are not.
pub fn static_and_temporal(num_chunks: usize, is_static: &Vec<bool>) -> (r: (usize, usize))
    ensures
        r.0 == crate::store_card::count_true(is_static@),
        r.1 == (if num_chunks >= r.0 {
            num_chunks - r.0
        } else {
            0
        }),
{
    let count: usize = crate::store_card::number_of_true(is_static);
    (count, num_chunks.saturating_sub(count))
}

/// The texts of a list without repetitions: each where it comes first.
pub open spec fn first_mentions(list: Seq<Seq<char>>) -> Seq<Seq<char>>
    decreases list.len(),
{
    if list.len() == 0 {
        Seq::empty()
    } else {
        let before = first_mentions(list.drop_last());
        if before.contains(list.last()) {
            before
        } else {
            before.push(list.last())
        }
    }
}

fn is_among(list: &Vec<String>, x: &String) -> (r: bool)
    ensures
        r == text::views(list@).contains(x@),
{
    let n: usize = list.len();
    let mut i: usize = 0;
    while i < n
        invariant
            i <= n,
            n == list@.len(),
            forall|j: int| 0 <= j < i ==> (#[trigger] list@[j])@ != x@,
        decreases n - i,
    {
        if list[i] == *x {
            assert(text::views(list@)[i as int] == x@);
            return true;
        }
        i += 1;
    }
    false
}

/// The entities of a list without repetitions.
pub fn distinct_entities(list: &Vec<String>) -> (r: Vec<String>)
    ensures
        text::views(r@) == first_mentions(text::views(list@)),
{
    let ghost all = text::views(list@);
    let n: usize = list.len();
    let mut out: Vec<String> = Vec::new();
    let mut i: usize = 0;
    assert(text::views(out@) =~= first_mentions(all.take(0)));
    while i < n
        invariant
            i <= n,
            n == list@.len(),
            all == text::views(list@),
            text::views(out@) == first_mentions(all.take(i as int)),
        decreases n - i,
    {
        proof {
            assert(all.take(i + 1).drop_last() =~= all.take(i as int));
            assert(all.take(i + 1).last() == list@[i as int]@);
        }
        if !is_among(&out, &list[i]) {
            let ghost before = out@;
            out.push(list[i].clone());
            assert(text::views(out@) =~= text::views(before).push(list@[i as int]@));
        }
        i += 1;
    }
    assert(all.take(n as int) =~= all);
    out
}

/// A list without repetitions mentions the same things, each of them once.
pub proof fn law_first_mentions(list: Seq<Seq<char>>, x: Seq<char>)
    ensures
        first_mentions(list).contains(x) <==> list.contains(x),
        first_mentions(list).no_duplicates(),
        first_mentions(list).len() <= list.len(),
    decreases list.len(),
{
    if list.len() > 0 {
        let front = list.drop_last();
        law_first_mentions(front, x);
        law_first_mentions(front, list.last());
        let before = first_mentions(front);
        let all = first_mentions(list);
        assert(list =~= front.push(list.last()));
        vstd::seq_lib::lemma_seq_concat_contains_all_elements(front, seq![list.last()], x);
        assert(front + seq![list.last()] =~= list);
        assert(seq![list.last()].contains(x) <==> x == list.last()) by {
            assert(seq![list.last()][0] == list.last());
        }
        if !before.contains(list.last()) {
            vstd::seq_lib::lemma_seq_concat_contains_all_elements(before, seq![list.last()], x);
            assert(before + seq![list.last()] =~= all);
        }
    }
}

/// What is said of a manifest, in words.
#[derive(Debug)]
pub struct ManifestTexts {
    pub chunks: String,
    pub static_chunks: String,
    pub temporal_chunks: String,
    pub entities: String,
    pub manifest_size: String,
    pub index_size: String,
    pub uncompressed: String,
    pub compressed: String,
}

/// The rows of a manifest. The first of them has the two after it below it.
pub open spec fn manifest_views(t: ManifestTexts) -> Seq<DetailView> {
    seq![
        ("Chunk 数"@, t.chunks@, None),
        ("静态"@, t.static_chunks@, None),
        ("时序"@, t.temporal_chunks@, None),
        ("实体数"@, t.entities@, None),
        (
            "Manifest 大小（内存中）"@,
            t.manifest_size@,
            Some("manifest（所有 chunk 的索引）在内存中的大小"@),
        ),
        (
            "索引大小（内存中）"@,
            t.index_size@,
            Some("manifest 加上派生索引（排序后的 chunk、已加载范围、优先级器状态等）在内存中的大小"@),
        ),
        (
            "录制文件未压缩/压缩大小"@,
            t.uncompressed@ + " / "@ + t.compressed@,
            Some(
                "manifest 声明的 chunk 大小之和，未压缩与存储中大小的对比。后端不压缩 chunk 时，存储中大小等于未压缩大小。"@,
            ),
        ),
    ]
}

impl ManifestTexts {
    pub fn rows(&self) -> (r: Vec<DetailRow>)
        ensures
            detail_views(r@) == manifest_views(*self),
    {
        let mut rows: Vec<DetailRow> = Vec::new();
        push_detail(&mut rows, "Chunk 数", self.chunks.clone(), None);
        push_detail(&mut rows, "静态", self.static_chunks.clone(), None);
        push_detail(&mut rows, "时序", self.temporal_chunks.clone(), None);
        push_detail(&mut rows, "实体数", self.entities.clone(), None);
        push_detail(
            &mut rows,
            "Manifest 大小（内存中）",
            self.manifest_size.clone(),
            Some("manifest（所有 chunk 的索引）在内存中的大小"),
        );
        push_detail(
            &mut rows,
            "索引大小（内存中）",
            self.index_size.clone(),
            Some("manifest 加上派生索引（排序后的 chunk、已加载范围、优先级器状态等）在内存中的大小"),
        );
        push_detail(
            &mut rows,
            "录制文件未压缩/压缩大小",
            text::cat3(self.uncompressed.as_str(), " / ", self.compressed.as_str()),
            Some(
                "manifest 声明的 chunk 大小之和，未压缩与存储中大小的对比。后端不压缩 chunk 时，存储中大小等于未压缩大小。",
            ),
        );
        assert(detail_views(rows@) =~= manifest_views(*self));
        rows
    }
}

// ---------------------------------------------------------------------------------------
// Priorities

/// What came of the last time that chunks were prioritized.
#[derive(Clone, Copy, Debug, PartialEq, Eq, Structural)]
pub struct Prioritization {
    pub transit_budget_filled: bool,
    pub memory_budget_filled: bool,
    /// Where it is known.
    pub all_required_are_loaded: Option<bool>,
}

/// What is said of the priorities of a recording.
#[derive(Debug)]
pub struct PriorityFacts {
    pub is_preview: bool,
    pub latest: Option<Prioritization>,
    /// How much of the recording is protected, in words.
    pub protected_roots: String,
    pub protected_physical: String,
}

/// The rows of the last prioritization, or that there was none.
pub open spec fn prioritization_views(latest: Option<Prioritization>) -> Seq<DetailView> {
    match latest {
        Some(prio) => seq![
            (
                "传输预算已满"@,
                bool_words(prio.transit_budget_filled),
                Some("这个录制文件的在途传输预算已耗尽 — 无法再增加并发下载"@),
            ),
            (
                "内存预算已满"@,
                bool_words(prio.memory_budget_filled),
                Some("这个录制文件的内存预算已耗尽 — 不清理就无法加载更多 chunk"@),
            ),
            (
                "必需项已全部加载"@,
                match prio.all_required_are_loaded {
                    Some(loaded) => bool_words(loaded),
                    None => "未知"@,
                },
                Some("所有必需 chunk（静态、缺失、高优先级）是否都已加载或在传输中"@),
            ),
        ],
        None => seq![("还没有获取数据"@, Seq::<char>::empty(), None)],
    }
}

/// All rows of the priorities of a recording.
pub open spec fn priority_views(f: PriorityFacts) -> Seq<DetailView> {
    seq![
        (
            "预览"@,
            bool_words(f.is_preview),
            Some("上一帧中这个录制文件是否以预览形式渲染 — 预览使用更严格的垃圾回收预算"@),
        ),
    ] + prioritization_views(f.latest) + seq![
        (
            "受保护的根 chunk"@,
            f.protected_roots@,
            Some(
                "不会被取消下载的根 chunk（当前查询需要）相对于 manifest 中所有根 chunk 的占比。按未压缩的 Arrow 字节计。"@,
            ),
        ),
        (
            "受保护的物理 chunk"@,
            f.protected_physical@,
            Some(
                "不会被垃圾回收的物理 chunk（正被查询使用）相对于内存中所有已加载物理 chunk 的占比。按内存中 Chunk 大小计。"@,
            ),
        ),
    ]
}

impl PriorityFacts {
    pub fn rows(&self) -> (r: Vec<DetailRow>)
        ensures
            detail_views(r@) == priority_views(*self),
    {
        let mut rows: Vec<DetailRow> = Vec::new();
        push_detail(
            &mut rows,
            "预览",
            bool_text(self.is_preview),
            Some("上一帧中这个录制文件是否以预览形式渲染 — 预览使用更严格的垃圾回收预算"),
        );
        match self.latest {
            Some(prio) => {
                push_detail(
                    &mut rows,
                    "传输预算已满",
                    bool_text(prio.transit_budget_filled),
                    Some("这个录制文件的在途传输预算已耗尽 — 无法再增加并发下载"),
                );
                push_detail(
                    &mut rows,
                    "内存预算已满",
                    bool_text(prio.memory_budget_filled),
                    Some("这个录制文件的内存预算已耗尽 — 不清理就无法加载更多 chunk"),
                );
                let required: String = match prio.all_required_are_loaded {
                    Some(loaded) => bool_text(loaded),
                    None => "未知".to_owned(),
                };
                push_detail(
                    &mut rows,
                    "必需项已全部加载",
                    required,
                    Some("所有必需 chunk（静态、缺失、高优先级）是否都已加载或在传输中"),
                );
            },
            None => {
                push_detail(&mut rows, "还没有获取数据", String::new(), None);
            },
        }
        push_detail(
            &mut rows,
            "受保护的根 chunk",
            self.protected_roots.clone(),
            Some(
                "不会被取消下载的根 chunk（当前查询需要）相对于 manifest 中所有根 chunk 的占比。按未压缩的 Arrow 字节计。",
            ),
        );
        push_detail(
            &mut rows,
            "受保护的物理 chunk",
            self.protected_physical.clone(),
            Some(
                "不会被垃圾回收的物理 chunk（正被查询使用）相对于内存中所有已加载物理 chunk 的占比。按内存中 Chunk 大小计。",
            ),
        );
        assert(detail_views(rows@) =~= priority_views(*self));
        rows
    }
}

// ---------------------------------------------------------------------------------------
// Requests

/// What is said of the requests that wait for an answer, in words.
#[derive(Debug)]
pub struct PendingTexts {
    pub batches: String,
    pub chunks: String,
    pub recently_canceled: String,
}

pub open spec fn pending_views(t: PendingTexts) -> Seq<DetailView> {
    seq![
        ("批次数"@, t.batches@, Some("发往服务器、仍在途中的请求批次数量"@)),
        ("Chunk 数"@, t.chunks@, Some("所有待处理批次包含的 chunk 总数"@)),
        (
            "最近取消"@,
            t.recently_canceled@,
            Some("最近一秒内取消的批次（例如因为时间标记移动）"@),
        ),
    ]
}

impl PendingTexts {
    pub fn rows(&self) -> (r: Vec<DetailRow>)
        ensures
            detail_views(r@) == pending_views(*self),
    {
        let mut rows: Vec<DetailRow> = Vec::new();
        push_detail(
            &mut rows,
            "批次数",
            self.batches.clone(),
            Some("发往服务器、仍在途中的请求批次数量"),
        );
        push_detail(
            &mut rows,
            "Chunk 数",
            self.chunks.clone(),
            Some("所有待处理批次包含的 chunk 总数"),
        );
        push_detail(
            &mut rows,
            "最近取消",
            self.recently_canceled.clone(),
            Some("最近一秒内取消的批次（例如因为时间标记移动）"),
        );
        assert(detail_views(rows@) =~= pending_views(*self));
        rows
    }
}

/// The entities that are on their way: how many there are, in words, and which. They stand in
/// the order in which they are mentioned, so mentions that are sorted give a sorted list.
pub fn in_flight_entities(mentioned: &Vec<String>) -> (r: (String, Vec<String>))
    ensures
        r.0@ == "传输中的实体（"@ + text::decimal(
            first_mentions(text::views(mentioned@)).len(),
        ) + "）"@,
        text::views(r.1@) == first_mentions(text::views(mentioned@)),
{
    let entities: Vec<String> = distinct_entities(mentioned);
    assert(text::views(entities@).len() == entities@.len());
    let count: String = text::decimal_text(entities.len() as u64);
    (text::cat3("传输中的实体（", count.as_str(), "）"), entities)
}

/// The headings of what can be folded away.
pub fn detail_headings() -> (r: (&'static str, &'static str, &'static str, &'static str))
    ensures
        r.0@ == "已移除的 chunk"@,
        r.1@ == "Manifest（chunk 清单）"@,
        r.2@ == "优先级"@,
        r.3@ == "待处理请求"@,
{
    ("已移除的 chunk", "Manifest（chunk 清单）", "优先级", "待处理请求")
}

/// Numbers are added up one by one, and each reason for a removal counts.
pub proof fn law_numbers_are_added_up(a: Seq<u64>, b: Seq<u64>, n: u64, r: RemovedChunks)
    ensures
        sum_of(a + b) == sum_of(a) + sum_of(b),
        sum_of(seq![n]) == n,
        r.sum() - r.num_chunks_gc - r.num_chunks_split_cleanup - r.num_chunks_compacted
            == r.num_chunks_overwritten,
    decreases b.len(),
{
    if b.len() > 0 {
        law_numbers_are_added_up(a, b.drop_last(), n, r);
        assert((a + b).drop_last() =~= a + b.drop_last());
        assert((a + b).last() == b.last());
    } else {
        assert(a + b =~= a);
    }
    assert(seq![n].drop_last() =~= Seq::empty());
    assert(seq![n].last() == n);
    assert(sum_of(Seq::empty()) == 0);
}

/// Entities are listed in the order in which they are first mentioned: further mentions only
/// add to the end of the list.
pub proof fn law_first_mentions_keep_their_order(a: Seq<Seq<char>>, b: Seq<Seq<char>>)
    ensures
        first_mentions(a).len() <= first_mentions(a + b).len(),
        first_mentions(a + b).take(first_mentions(a).len() as int) == first_mentions(a),
    decreases b.len(),
{
    if b.len() > 0 {
        law_first_mentions_keep_their_order(a, b.drop_last());
        assert((a + b).drop_last() =~= a + b.drop_last());
        let before = first_mentions(a + b.drop_last());
        let all = first_mentions(a + b);
        assert(all.take(before.len() as int) =~= before);
        assert(all.take(first_mentions(a).len() as int) =~= before.take(
            first_mentions(a).len() as int,
        ));
    } else {
        assert(a + b =~= a);
        assert(first_mentions(a).take(first_mentions(a).len() as int) =~= first_mentions(a));
    }
}

/// A row is shown with all that it holds, and all rows are shown, in their order.
pub proof fn law_details_are_shown_as_they_are(rows: Seq<DetailRow>, i: int)
    requires
        0 <= i < rows.len(),
    ensures
        detail_views(rows).len() == rows.len(),
        detail_views(rows)[i].0 == rows[i].label@,
        detail_views(rows)[i].1 == rows[i].value@,
        detail_views(rows)[i].2 is Some <==> rows[i].hint is Some,
{
}

/// Each number is shown in the row of what it counts.
pub proof fn law_details_show_their_numbers(
    removed: RemovedTexts,
    manifest: ManifestTexts,
    pending: PendingTexts,
    priority: PriorityFacts,
)
    ensures
        removed_views(removed)[0].1 == removed.gc@,
        removed_views(removed)[1].1 == removed.split_cleanup@,
        removed_views(removed)[2].1 == removed.compacted@,
        removed_views(removed)[3].1 == removed.overwritten@,
        manifest_views(manifest)[0].1 == manifest.chunks@,
        manifest_views(manifest)[1].1 == manifest.static_chunks@,
        manifest_views(manifest)[2].1 == manifest.temporal_chunks@,
        manifest_views(manifest)[3].1 == manifest.entities@,
        manifest_views(manifest)[4].1 == manifest.manifest_size@,
        manifest_views(manifest)[5].1 == manifest.index_size@,
        manifest_views(manifest)[6].1 == manifest.uncompressed@ + " / "@ + manifest.compressed@,
        pending_views(pending)[0].1 == pending.batches@,
        pending_views(pending)[1].1 == pending.chunks@,
        pending_views(pending)[2].1 == pending.recently_canceled@,
        priority_views(priority)[0].1 == (if priority.is_preview {
            "true"@
        } else {
            "false"@
        }),
        priority_views(priority).last().1 == priority.protected_physical@,
        priority.latest matches Some(latest) ==> {
            &&& priority_views(priority).len() == 6
            &&& priority_views(priority)[1].1 == (if latest.transit_budget_filled {
                "true"@
            } else {
                "false"@
            })
            &&& priority_views(priority)[2].1 == (if latest.memory_budget_filled {
                "true"@
            } else {
                "false"@
            })
        },
        priority.latest is None ==> priority_views(priority).len() == 4,
{
}

/// The progress is shown where there is any to show, and of what is protected only beside the
/// whole; the bandwidth always, if only to say that it is unknown.
pub proof fn law_progress_is_shown_where_known(t: ProgressTexts)
    ensures
        progress_views(t).len() == (if t.overall is None {
            1int
        } else if t.protected is None {
            2
        } else {
            3
        }),
        t.overall matches Some(overall) ==> progress_views(t)[0].1 == overall@,
        t.overall is Some ==> (t.protected matches Some(protected) ==> progress_views(t)[1].1
            == protected@),
        t.bandwidth matches Some(rate) ==> progress_views(t).last().1 == rate@ + "/s"@,
{
}

} // verus!
