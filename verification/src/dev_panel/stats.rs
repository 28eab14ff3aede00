//! The statistics of the stores, of the graphics card and of the allocator.
use vstd::prelude::*;
use vstd::string::*;

use crate::dev_panel::callstack;
use crate::i18n;
use crate::i18n::{tr, Language};
use crate::platform::Platform;
use crate::text;

verus! {

// ---------------------------------------------------------------------------------------
// Stores

/// The title of a store, and what is said of its source. `kind` is the kind of store in
/// words.
pub fn store_title(kind: &str, recording_id: &str, source: &Option<String>, lang: Language) -> (r: (
    String,
    Option<String>,
))
    ensures
        r.0@ == kind@ + " "@ + recording_id@,
        text::opt_view(r.1) == (match *source {
            Some(source) => Some(i18n::translated(lang, "Source: "@, "数据源："@) + source@),
            None => None,
        }),
{
    (
        text::cat3(kind, " ", recording_id),
        match source {
            Some(source) => Some(
                text::cat2(tr(lang, "Source: ", "数据源："), source.as_str()),
            ),
            None => None,
        },
    )
}

/// The headings below a store, and what is said of its use of graphics memory.
pub fn store_headings(vram: &str, lang: Language) -> (r: (
    &'static str,
    &'static str,
    &'static str,
    String,
))
    ensures
        r.0@ == i18n::translated(lang, "Datastore Resources"@, "数据存储资源"@),
        r.1@ == i18n::translated(lang, "Primary Query Caches"@, "主查询缓存"@),
        r.2@ == i18n::translated(lang, "Viewer Caches"@, "Viewer 缓存"@),
        r.3@ == "GPU 内存："@ + vram@,
{
    (
        tr(lang, "Datastore Resources", "数据存储资源"),
        tr(lang, "Primary Query Caches", "主查询缓存"),
        tr(lang, "Viewer Caches", "Viewer 缓存"),
        text::cat2("GPU 内存：", vram),
    )
}

/// How much there is of a kind of chunk.
#[derive(Clone, Copy, Debug, PartialEq, Eq, Structural)]
pub struct ChunkStats {
    pub num_chunks: u64,
    pub total_size_bytes: u64,
    pub num_rows: u64,
    pub num_events: u64,
}

impl ChunkStats {
    /// How much there is of two kinds together.
    pub fn plus(self, other: ChunkStats) -> (r: ChunkStats)
        requires
            self.num_chunks + other.num_chunks <= u64::MAX,
            self.total_size_bytes + other.total_size_bytes <= u64::MAX,
            self.num_rows + other.num_rows <= u64::MAX,
            self.num_events + other.num_events <= u64::MAX,
        ensures
            r.num_chunks == self.num_chunks + other.num_chunks,
            r.total_size_bytes == self.total_size_bytes + other.total_size_bytes,
            r.num_rows == self.num_rows + other.num_rows,
            r.num_events == self.num_events + other.num_events,
    {
        ChunkStats {
            num_chunks: self.num_chunks + other.num_chunks,
            total_size_bytes: self.total_size_bytes + other.total_size_bytes,
            num_rows: self.num_rows + other.num_rows,
            num_events: self.num_events + other.num_events,
        }
    }
}

/// The table of the chunks: its header, and its rows for static and temporal chunks and for
/// both together.
pub open spec fn chunk_header(lang: Language) -> Seq<Seq<char>> {
    seq![
        i18n::translated(lang, "Stats"@, "统计"@),
        i18n::translated(lang, "Chunks"@, "Chunk 数"@),
        i18n::translated(lang, "Rows (total)"@, "行数（总计）"@),
        i18n::translated(lang, "Events (total)"@, "事件数（总计）"@),
        i18n::translated(lang, "Size (total)"@, "大小（总计）"@),
    ]
}

pub fn chunk_table_header(lang: Language) -> (r: Vec<&'static str>)
    ensures
        text::str_views(r@) == chunk_header(lang),
{
    let out: Vec<&'static str> = vec![
        tr(lang, "Stats", "统计"),
        tr(lang, "Chunks", "Chunk 数"),
        tr(lang, "Rows (total)", "行数（总计）"),
        tr(lang, "Events (total)", "事件数（总计）"),
        tr(lang, "Size (total)", "大小（总计）"),
    ];
    assert(text::str_views(out@) =~= chunk_header(lang));
    out
}

/// What counts as an event.
pub fn events_hint(lang: Language) -> (r: &'static str)
    ensures
        r@ == i18n::translated(
            lang,
            "Number of non-null component batches (cells)"@,
            "非空组件批次（单元格）的数量"@,
        ),
{
    tr(
        lang,
        "Number of non-null component batches (cells)",
        "非空组件批次（单元格）的数量",
    )
}

/// The rows of the table.
pub fn chunk_table(static_chunks: ChunkStats, temporal_chunks: ChunkStats, lang: Language) -> (r:
    Vec<(&'static str, ChunkStats)>)
    requires
        static_chunks.num_chunks + temporal_chunks.num_chunks <= u64::MAX,
        static_chunks.total_size_bytes + temporal_chunks.total_size_bytes <= u64::MAX,
        static_chunks.num_rows + temporal_chunks.num_rows <= u64::MAX,
        static_chunks.num_events + temporal_chunks.num_events <= u64::MAX,
    ensures
        r@.len() == 3,
        r@[0].0@ == i18n::translated(lang, "Static:"@, "静态："@) && r@[0].1 == static_chunks,
        r@[1].0@ == i18n::translated(lang, "Temporal:"@, "时序："@) && r@[1].1 == temporal_chunks,
        r@[2].0@ == i18n::translated(lang, "Total:"@, "总计："@),
        r@[2].1 == (ChunkStats {
            num_chunks: (static_chunks.num_chunks + temporal_chunks.num_chunks) as u64,
            total_size_bytes: (static_chunks.total_size_bytes
                + temporal_chunks.total_size_bytes) as u64,
            num_rows: (static_chunks.num_rows + temporal_chunks.num_rows) as u64,
            num_events: (static_chunks.num_events + temporal_chunks.num_events) as u64,
        }),
{
    let out: Vec<(&'static str, ChunkStats)> = vec![
        (tr(lang, "Static:", "静态："), static_chunks),
        (tr(lang, "Temporal:", "时序："), temporal_chunks),
        (tr(lang, "Total:", "总计："), static_chunks.plus(temporal_chunks)),
    ];
    out
}

// ---------------------------------------------------------------------------------------
// Query caches

/// A cache of queries.
#[derive(Clone, Copy, Debug, PartialEq, Eq, Structural)]
pub enum QueryCache {
    LatestAt,
    Range,
}

/// The caches that are shown: those that hold something.
pub fn shown_caches(latest_at: usize, range: usize) -> (r: Vec<QueryCache>)
    ensures
        r@ == (if latest_at > 0 {
            seq![QueryCache::LatestAt]
        } else {
            seq![]
        }) + (if range > 0 {
            seq![QueryCache::Range]
        } else {
            seq![]
        }),
{
    let mut out: Vec<QueryCache> = Vec::new();
    if latest_at > 0 {
        out.push(QueryCache::LatestAt);
    }
    if range > 0 {
        out.push(QueryCache::Range);
    }
    assert(out@ =~= (if latest_at > 0 {
        seq![QueryCache::LatestAt]
    } else {
        seq![]
    }) + (if range > 0 {
        seq![QueryCache::Range]
    } else {
        seq![]
    }));
    out
}

impl QueryCache {
    pub fn heading(self) -> (r: &'static str)
        ensures
            r@ == (match self {
                QueryCache::LatestAt => "LatestAt"@,
                QueryCache::Range => "Range"@,
            }),
    {
        match self {
            QueryCache::LatestAt => "LatestAt",
            QueryCache::Range => "Range",
        }
    }
}

/// The columns of the table of a cache, each with its hint.
pub open spec fn cache_columns(lang: Language) -> Seq<(Seq<char>, Option<Seq<char>>)> {
    seq![
        (i18n::translated(lang, "Entity"@, "实体"@), None),
        (i18n::translated(lang, "Component"@, "组件"@), None),
        (
            i18n::translated(lang, "Chunks"@, "Chunk 数"@),
            Some(
                i18n::translated(lang, "How many chunks in the cache?"@, "缓存里有多少个 chunk？"@),
            ),
        ),
        (
            i18n::translated(lang, "Effective size"@, "名义大小"@),
            Some(
                i18n::translated(
                    lang,
                    "What would be the size of this cache in the worst case, i.e. if all chunks had been fully copied?"@,
                    "最坏情况下（即所有 chunk 都被完整复制时）这个缓存会有多大？"@,
                ),
            ),
        ),
        (
            i18n::translated(lang, "Actual size"@, "实际大小"@),
            Some(
                i18n::translated(
                    lang,
                    "What is the actual size of this cache after deduplication?"@,
                    "去重之后这个缓存实际有多大？"@,
                ),
            ),
        ),
    ]
}

/// A column as a view.
pub open spec fn column_view(column: (&str, Option<&str>)) -> (Seq<char>, Option<Seq<char>>) {
    (
        column.0@,
        match column.1 {
            Some(hint) => Some(hint@),
            None => None,
        },
    )
}

pub fn cache_table_columns(lang: Language) -> (r: Vec<(&'static str, Option<&'static str>)>)
    ensures
        r@.len() == cache_columns(lang).len(),
        forall|i: int| 0 <= i < r@.len() ==> column_view(#[trigger] r@[i]) == cache_columns(lang)[i],
{
    let out: Vec<(&'static str, Option<&'static str>)> = vec![
        (tr(lang, "Entity", "实体"), None),
        (tr(lang, "Component", "组件"), None),
        (
            tr(lang, "Chunks", "Chunk 数"),
            Some(tr(lang, "How many chunks in the cache?", "缓存里有多少个 chunk？")),
        ),
        (
            tr(lang, "Effective size", "名义大小"),
            Some(
                tr(
                    lang,
                    "What would be the size of this cache in the worst case, i.e. if all chunks had been fully copied?",
                    "最坏情况下（即所有 chunk 都被完整复制时）这个缓存会有多大？",
                ),
            ),
        ),
        (
            tr(lang, "Actual size", "实际大小"),
            Some(
                tr(
                    lang,
                    "What is the actual size of this cache after deduplication?",
                    "去重之后这个缓存实际有多大？",
                ),
            ),
        ),
    ];
    out
}

// ---------------------------------------------------------------------------------------
// The graphics card

/// What there is on the graphics card. The two sizes are in words.
#[derive(Debug)]
pub struct GpuFacts {
    pub num_bind_group_layouts: usize,
    pub num_pipeline_layouts: usize,
    pub num_render_pipelines: usize,
    pub num_samplers: usize,
    pub num_shader_modules: usize,
    pub num_bind_groups: usize,
    pub num_buffers: usize,
    pub num_textures: usize,
    pub buffer_memory: String,
    pub texture_memory: String,
}

/// The rows of the table of the graphics card: label and value.
pub open spec fn gpu_table(f: GpuFacts, lang: Language) -> Seq<(Seq<char>, Seq<char>)> {
    seq![
        (
            i18n::translated(lang, "# Bind Group Layouts:"@, "Bind group layout 数："@),
            text::decimal(f.num_bind_group_layouts as nat),
        ),
        (
            i18n::translated(lang, "# Pipeline Layouts:"@, "Pipeline layout 数："@),
            text::decimal(f.num_pipeline_layouts as nat),
        ),
        (
            i18n::translated(lang, "# Render Pipelines:"@, "渲染管线数："@),
            text::decimal(f.num_render_pipelines as nat),
        ),
        (
            i18n::translated(lang, "# Samplers:"@, "采样器数："@),
            text::decimal(f.num_samplers as nat),
        ),
        (
            i18n::translated(lang, "# Shader Modules:"@, "着色器模块数："@),
            text::decimal(f.num_shader_modules as nat),
        ),
        (
            i18n::translated(lang, "# Bind Groups:"@, "Bind group 数："@),
            text::decimal(f.num_bind_groups as nat),
        ),
        (
            i18n::translated(lang, "# Buffers:"@, "缓冲区数："@),
            text::decimal(f.num_buffers as nat),
        ),
        (
            i18n::translated(lang, "# Textures:"@, "纹理数："@),
            text::decimal(f.num_textures as nat),
        ),
        (i18n::translated(lang, "Buffer Memory:"@, "缓冲区内存："@), f.buffer_memory@),
        (i18n::translated(lang, "Texture Memory:"@, "纹理内存："@), f.texture_memory@),
    ]
}

/// The heading of the table.
pub fn gpu_heading(lang: Language) -> (r: &'static str)
    ensures
        r@ == i18n::translated(lang, "GPU Resources"@, "GPU 资源"@),
{
    tr(lang, "GPU Resources", "GPU 资源")
}

impl GpuFacts {
    /// The rows of the table.
    pub fn rows(&self, lang: Language) -> (r: Vec<(&'static str, String)>)
        ensures
            r@.len() == gpu_table(*self, lang).len(),
            forall|i: int|
                0 <= i < r@.len() ==> ((#[trigger] r@[i]).0@, r@[i].1@) == gpu_table(
                    *self,
                    lang,
                )[i],
    {
        let out: Vec<(&'static str, String)> = vec![
            (
                tr(lang, "# Bind Group Layouts:", "Bind group layout 数："),
                text::decimal_text(self.num_bind_group_layouts as u64),
            ),
            (
                tr(lang, "# Pipeline Layouts:", "Pipeline layout 数："),
                text::decimal_text(self.num_pipeline_layouts as u64),
            ),
            (
                tr(lang, "# Render Pipelines:", "渲染管线数："),
                text::decimal_text(self.num_render_pipelines as u64),
            ),
            (tr(lang, "# Samplers:", "采样器数："), text::decimal_text(self.num_samplers as u64)),
            (
                tr(lang, "# Shader Modules:", "着色器模块数："),
                text::decimal_text(self.num_shader_modules as u64),
            ),
            (
                tr(lang, "# Bind Groups:", "Bind group 数："),
                text::decimal_text(self.num_bind_groups as u64),
            ),
            (tr(lang, "# Buffers:", "缓冲区数："), text::decimal_text(self.num_buffers as u64)),
            (tr(lang, "# Textures:", "纹理数："), text::decimal_text(self.num_textures as u64)),
            (tr(lang, "Buffer Memory:", "缓冲区内存："), self.buffer_memory.clone()),
            (tr(lang, "Texture Memory:", "纹理内存："), self.texture_memory.clone()),
        ];
        out
    }
}

// ---------------------------------------------------------------------------------------
// Allocations

/// The size and the number of some allocations, in words.
#[derive(Debug)]
pub struct AllocationTexts {
    pub size: String,
    pub count: String,
}

/// What the allocator tracked, in words.
#[derive(Debug)]
pub struct TrackingTexts {
    pub fully_tracked: AllocationTexts,
    pub stochastically_tracked: AllocationTexts,
    pub untracked: AllocationTexts,
    /// Smaller allocations are not tracked.
    pub threshold: String,
    pub overhead: AllocationTexts,
}

/// What is said of the allocations.
pub open spec fn tracking_words(t: TrackingTexts) -> Seq<Seq<char>> {
    seq![
        "counted = fully_tracked + stochastically_tracked + untracked + overhead"@,
        "fully_tracked（完整追踪）："@ + t.fully_tracked.size@ + "，共 "@ + t.fully_tracked.count@
            + " 次分配"@,
        "stochastically_tracked（随机采样追踪）："@ + t.stochastically_tracked.size@ + "，共 "@
            + t.stochastically_tracked.count@ + " 次分配"@,
        "untracked（未追踪）："@ + t.untracked.size@ + "，共 "@ + t.untracked.count@
            + " 次分配（均小于 "@ + t.threshold@ + "）"@,
        "overhead（开销）："@ + t.overhead.size@ + "，共 "@ + t.overhead.count@ + " 次分配"@,
    ]
}

impl TrackingTexts {
    /// What is said of the allocations.
    pub fn lines(&self) -> (r: Vec<String>)
        ensures
            text::views(r@) == tracking_words(*self),
    {
        let mut untracked: String = text::cat5(
            "untracked（未追踪）：",
            self.untracked.size.as_str(),
            "，共 ",
            self.untracked.count.as_str(),
            " 次分配（均小于 ",
        );
        untracked.append(self.threshold.as_str());
        untracked.append("）");
        let out: Vec<String> = vec![
            "counted = fully_tracked + stochastically_tracked + untracked + overhead".to_owned(),
            text::cat5(
                "fully_tracked（完整追踪）：",
                self.fully_tracked.size.as_str(),
                "，共 ",
                self.fully_tracked.count.as_str(),
                " 次分配",
            ),
            text::cat5(
                "stochastically_tracked（随机采样追踪）：",
                self.stochastically_tracked.size.as_str(),
                "，共 ",
                self.stochastically_tracked.count.as_str(),
                " 次分配",
            ),
            untracked,
            text::cat5(
                "overhead（开销）：",
                self.overhead.size.as_str(),
                "，共 ",
                self.overhead.count.as_str(),
                " 次分配",
            ),
        ];
        assert(text::views(out@) =~= tracking_words(*self));
        out
    }
}

/// What came of a callstack that was seen, if one in `stochastic_rate` was looked at.
#[derive(Clone, Copy, Debug, PartialEq, Eq, Structural)]
pub struct CallstackFacts {
    pub size: u64,
    pub count: u64,
    pub stochastic_rate: u64,
}

impl CallstackFacts {
    /// The size and the number that the sample stands for.
    pub fn extrapolated(&self) -> (r: (u64, u64))
        requires
            self.size * self.stochastic_rate <= u64::MAX,
            self.count * self.stochastic_rate <= u64::MAX,
        ensures
            r.0 == self.size * self.stochastic_rate,
            r.1 == self.count * self.stochastic_rate,
    {
        (self.size * self.stochastic_rate, self.count * self.stochastic_rate)
    }
}

/// What is said of a callstack: how much memory it holds, in how many allocations, and what it
/// is about. What was extrapolated from a sample says so.
pub open spec fn callstack_words(
    f: CallstackFacts,
    size: Seq<char>,
    count: Seq<char>,
    average: Seq<char>,
    backtrace: Seq<char>,
) -> Seq<char> {
    (if f.stochastic_rate > 1 {
        "≈"@
    } else {
        ""@
    }) + size + "，共 "@ + count + " 次分配（每次约 "@ + average + "）"@ + (if f.stochastic_rate
        > 1 {
        "（"@ + text::decimal(f.count as nat) + " 个随机采样）"@
    } else {
        Seq::empty()
    }) + " - "@ + text::joined(
        callstack::summaries(backtrace, callstack::patterns().len() as int),
        ", "@,
    )
}

/// What is said of a callstack. `size`, `count` and `average` are the numbers that the sample
/// stands for, in words.
pub fn callstack_text(
    f: &CallstackFacts,
    size: &str,
    count: &str,
    average: &str,
    backtrace: &str,
) -> (r: String)
    ensures
        r@ == callstack_words(*f, size@, count@, average@, backtrace@),
{
    let mut out: String = if f.stochastic_rate > 1 {
        "≈".to_owned()
    } else {
        "".to_owned()
    };
    out.append(size);
    out.append("，共 ");
    out.append(count);
    out.append(" 次分配（每次约 ");
    out.append(average);
    out.append("）");
    if f.stochastic_rate > 1 {
        out.append("（");
        text::push_decimal(&mut out, f.count);
        out.append(" 个随机采样）");
    }
    out.append(" - ");
    let summary: String = callstack::summarize_callstack(backtrace);
    out.append(summary.as_str());
    assert(out@ =~= callstack_words(*f, size@, count@, average@, backtrace@));
    out
}

/// What a click on a callstack copies.
pub fn callstack_to_copy(backtrace: &String, lang: Language) -> (r: String)
    ensures
        r@ == (if backtrace@.len() == 0 {
            i18n::translated(lang, "No callstack available"@, "没有可用的调用栈"@)
        } else {
            backtrace@
        }),
{
    if backtrace.as_str().is_empty() {
        tr(lang, "No callstack available", "没有可用的调用栈").to_owned()
    } else {
        backtrace.clone()
    }
}

/// What is said where nothing is tracked: how to begin with it, where that is possible.
/// `variable` is the environment variable for it.
pub fn tracking_hint(has_stats: bool, platform: Platform, variable: &str) -> (r: Option<String>)
    ensures
        text::opt_view(r) == (if !has_stats && platform == Platform::Native {
            Some("设置 "@ + variable@ + "=1 可从启动起就进行详细的内存分配追踪。"@)
        } else {
            None
        }),
{
    if !has_stats && platform == Platform::Native {
        Some(text::cat3("设置 ", variable, "=1 可从启动起就进行详细的内存分配追踪。"))
    } else {
        None
    }
}

/// The fixed texts of the tab: the checkbox and its hint, what the overhead is, the heading of
/// the callstacks, and the hint of each.
pub fn tracking_texts(lang: Language) -> (r: (
    &'static str,
    &'static str,
    &'static str,
    &'static str,
    &'static str,
))
    ensures
        r.0@ == i18n::translated(
            lang,
            "Enable detailed allocation tracking"@,
            "启用详细的内存分配追踪"@,
        ),
        r.1@ == i18n::translated(lang, "This will slow down the program"@, "这会拖慢程序"@),
        r.2@ == i18n::translated(
            lang,
            "Used for the book-keeping of the allocation tracker"@,
            "分配追踪器自身记账所用的内存"@,
        ),
        r.3@ == i18n::translated(lang, "Top memory consumers"@, "内存占用大户"@),
        r.4@ == i18n::translated(
            lang,
            "Click to copy callstack to clipboard"@,
            "点击把调用栈复制到剪贴板"@,
        ),
{
    (
        tr(lang, "Enable detailed allocation tracking", "启用详细的内存分配追踪"),
        tr(lang, "This will slow down the program", "这会拖慢程序"),
        tr(
            lang,
            "Used for the book-keeping of the allocation tracker",
            "分配追踪器自身记账所用的内存",
        ),
        tr(lang, "Top memory consumers", "内存占用大户"),
        tr(lang, "Click to copy callstack to clipboard", "点击把调用栈复制到剪贴板"),
    )
}

/// A sampled callstack is marked as an estimate and says how many samples there are; one that is
/// counted in full is not and does not. Both name the size, the number and the average.
pub proof fn law_samples_are_marked(
    f: CallstackFacts,
    size: Seq<char>,
    count: Seq<char>,
    average: Seq<char>,
    backtrace: Seq<char>,
)
    ensures
        ({
            let words = callstack_words(f, size, count, average, backtrace);
            let told = text::joined(
                callstack::summaries(backtrace, callstack::patterns().len() as int),
                ", "@,
            );
            let start = size + "，共 "@ + count + " 次分配（每次约 "@ + average + "）"@;
            &&& f.stochastic_rate <= 1 ==> words == start + " - "@ + told
            &&& f.stochastic_rate > 1 ==> words == "≈"@ + start + "（"@ + text::decimal(
                f.count as nat,
            ) + " 个随机采样）"@ + " - "@ + told
        }),
{
    reveal_strlit("");
    let words = callstack_words(f, size, count, average, backtrace);
    let told = text::joined(
        callstack::summaries(backtrace, callstack::patterns().len() as int),
        ", "@,
    );
    let start = size + "，共 "@ + count + " 次分配（每次约 "@ + average + "）"@;
    if f.stochastic_rate <= 1 {
        assert(words =~= start + " - "@ + told);
    } else {
        assert(words =~= "≈"@ + start + "（"@ + text::decimal(f.count as nat) + " 个随机采样）"@
            + " - "@ + told);
    }
}

/// Each number is shown in the row of what it counts.
pub proof fn law_gpu_rows_show_their_numbers(f: GpuFacts, lang: Language)
    ensures
        gpu_table(f, lang).len() == 10,
        gpu_table(f, lang)[0].1 == text::decimal(f.num_bind_group_layouts as nat),
        gpu_table(f, lang)[1].1 == text::decimal(f.num_pipeline_layouts as nat),
        gpu_table(f, lang)[2].1 == text::decimal(f.num_render_pipelines as nat),
        gpu_table(f, lang)[3].1 == text::decimal(f.num_samplers as nat),
        gpu_table(f, lang)[4].1 == text::decimal(f.num_shader_modules as nat),
        gpu_table(f, lang)[5].1 == text::decimal(f.num_bind_groups as nat),
        gpu_table(f, lang)[6].1 == text::decimal(f.num_buffers as nat),
        gpu_table(f, lang)[7].1 == text::decimal(f.num_textures as nat),
        gpu_table(f, lang)[8].1 == f.buffer_memory@,
        gpu_table(f, lang)[9].1 == f.texture_memory@,
{
}

} // verus!
