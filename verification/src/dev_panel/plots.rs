//! The plots of the panel.
use vstd::prelude::*;
use vstd::string::*;

use crate::i18n;
use crate::i18n::{tr, Language};
use crate::text;

verus! {

// ---------------------------------------------------------------------------------------
// Memory use over time

/// A line of the plot of the memory use.
#[derive(Clone, Copy, Debug, PartialEq, Eq, Structural)]
pub enum MemoryLine {
    Resident,
    Allocator,
    Vram,
    Recordings,
}

pub open spec fn memory_line_label(line: MemoryLine, lang: Language) -> Seq<char> {
    match line {
        MemoryLine::Resident => i18n::translated(lang, "Resident"@, "常驻内存（RSS）"@),
        MemoryLine::Allocator => i18n::translated(lang, "Allocator"@, "分配器统计"@),
        MemoryLine::Vram => i18n::translated(lang, "VRAM"@, "显存（VRAM）"@),
        MemoryLine::Recordings => i18n::translated(lang, "Recordings"@, "录制文件"@),
    }
}

impl MemoryLine {
    /// The lines that are drawn, in their order.
    pub fn all() -> (r: Vec<MemoryLine>)
        ensures
            r@ == seq![
                MemoryLine::Resident,
                MemoryLine::Allocator,
                MemoryLine::Vram,
                MemoryLine::Recordings,
            ],
    {
        let out: Vec<MemoryLine> = vec![
            MemoryLine::Resident,
            MemoryLine::Allocator,
            MemoryLine::Vram,
            MemoryLine::Recordings,
        ];
        assert(out@ =~= seq![
            MemoryLine::Resident,
            MemoryLine::Allocator,
            MemoryLine::Vram,
            MemoryLine::Recordings,
        ]);
        out
    }

    pub fn label(self, lang: Language) -> (r: &'static str)
        ensures
            r@ == memory_line_label(self, lang),
    {
        match self {
            MemoryLine::Resident => tr(lang, "Resident", "常驻内存（RSS）"),
            MemoryLine::Allocator => tr(lang, "Allocator", "分配器统计"),
            MemoryLine::Vram => tr(lang, "VRAM", "显存（VRAM）"),
            MemoryLine::Recordings => tr(lang, "Recordings", "录制文件"),
        }
    }
}

/// The labels of the line at the limit, and of those where memory was purged.
pub fn memory_mark_labels(lang: Language) -> (r: (&'static str, &'static str))
    ensures
        r.0@ == i18n::translated(lang, "Limit"@, "上限"@),
        r.1@ == i18n::translated(lang, "RAM purge"@, "内存清理"@),
{
    (tr(lang, "Limit", "上限"), tr(lang, "RAM purge", "内存清理"))
}

/// What is said of a point: near a line, the name of the line comes first.
pub fn point_label(line: &Option<String>, value: &str) -> (r: String)
    ensures
        r@ == (match *line {
            Some(name) => name@ + ": "@ + value@,
            None => value@,
        }),
{
    match line {
        Some(name) => text::cat3(name.as_str(), ": ", value),
        None => value.to_owned(),
    }
}

// ---------------------------------------------------------------------------------------
// Streaming

/// One of the three plots of the streaming.
#[derive(Clone, Copy, Debug, PartialEq, Eq, Structural)]
pub enum StreamingPlot {
    Progress,
    Throughput,
    Counts,
}

/// A line of these plots.
#[derive(Clone, Copy, Debug, PartialEq, Eq, Structural)]
pub enum StreamingLine {
    LoadedBytes,
    ManifestBytes,
    Bandwidth,
    PendingBytes,
    ChunksInFlight,
    Cancellations,
    CollectedChunks,
}

/// The color of a line.
#[derive(Clone, Copy, Debug, PartialEq, Eq, Structural)]
pub enum LineColor {
    /// One that the plot chooses.
    Automatic,
    Success,
    Error,
    Warning,
}

/// The plots, from left to right.
pub fn streaming_plots() -> (r: Vec<StreamingPlot>)
    ensures
        r@ == seq![StreamingPlot::Progress, StreamingPlot::Throughput, StreamingPlot::Counts],
{
    let out: Vec<StreamingPlot> = vec![
        StreamingPlot::Progress,
        StreamingPlot::Throughput,
        StreamingPlot::Counts,
    ];
    assert(out@ =~= seq![
        StreamingPlot::Progress,
        StreamingPlot::Throughput,
        StreamingPlot::Counts,
    ]);
    out
}

pub open spec fn plot_lines(plot: StreamingPlot) -> Seq<StreamingLine> {
    match plot {
        StreamingPlot::Progress => seq![StreamingLine::LoadedBytes, StreamingLine::ManifestBytes],
        StreamingPlot::Throughput => seq![StreamingLine::Bandwidth, StreamingLine::PendingBytes],
        StreamingPlot::Counts => seq![
            StreamingLine::ChunksInFlight,
            StreamingLine::Cancellations,
            StreamingLine::CollectedChunks,
        ],
    }
}

impl StreamingPlot {
    pub fn title(self) -> (r: &'static str)
        ensures
            r@ == (match self {
                StreamingPlot::Progress => "进度"@,
                StreamingPlot::Throughput => "吞吐量"@,
                StreamingPlot::Counts => "计数"@,
            }),
    {
        match self {
            StreamingPlot::Progress => "进度",
            StreamingPlot::Throughput => "吞吐量",
            StreamingPlot::Counts => "计数",
        }
    }

    /// The name that the plot is known by.
    pub fn id(self) -> (r: &'static str)
        ensures
            r@ == (match self {
                StreamingPlot::Progress => "streaming_progress"@,
                StreamingPlot::Throughput => "streaming_throughput"@,
                StreamingPlot::Counts => "streaming_counts"@,
            }),
    {
        match self {
            StreamingPlot::Progress => "streaming_progress",
            StreamingPlot::Throughput => "streaming_throughput",
            StreamingPlot::Counts => "streaming_counts",
        }
    }

    /// Whether its values are bytes. Others are numbers without a fraction.
    pub fn is_in_bytes(self) -> (r: bool)
        ensures
            r == (self != StreamingPlot::Counts),
    {
        self != StreamingPlot::Counts
    }

    pub fn lines(self) -> (r: Vec<StreamingLine>)
        ensures
            r@ == plot_lines(self),
    {
        let mut out: Vec<StreamingLine> = Vec::new();
        match self {
            StreamingPlot::Progress => {
                out.push(StreamingLine::LoadedBytes);
                out.push(StreamingLine::ManifestBytes);
            },
            StreamingPlot::Throughput => {
                out.push(StreamingLine::Bandwidth);
                out.push(StreamingLine::PendingBytes);
            },
            StreamingPlot::Counts => {
                out.push(StreamingLine::ChunksInFlight);
                out.push(StreamingLine::Cancellations);
                out.push(StreamingLine::CollectedChunks);
            },
        }
        assert(out@ =~= plot_lines(self));
        out
    }
}

impl StreamingLine {
    pub fn label(self) -> (r: &'static str)
        ensures
            r@ == (match self {
                StreamingLine::LoadedBytes => "已加载"@,
                StreamingLine::ManifestBytes => "Manifest 声明总量"@,
                StreamingLine::Bandwidth => "带宽（B/s）"@,
                StreamingLine::PendingBytes => "待下载字节"@,
                StreamingLine::ChunksInFlight => "传输中的 chunk"@,
                StreamingLine::Cancellations => "取消数"@,
                StreamingLine::CollectedChunks => "被垃圾回收的 chunk"@,
            }),
    {
        match self {
            StreamingLine::LoadedBytes => "已加载",
            StreamingLine::ManifestBytes => "Manifest 声明总量",
            StreamingLine::Bandwidth => "带宽（B/s）",
            StreamingLine::PendingBytes => "待下载字节",
            StreamingLine::ChunksInFlight => "传输中的 chunk",
            StreamingLine::Cancellations => "取消数",
            StreamingLine::CollectedChunks => "被垃圾回收的 chunk",
        }
    }

    pub fn color(self) -> (r: LineColor)
        ensures
            r == (match self {
                StreamingLine::ChunksInFlight => LineColor::Success,
                StreamingLine::Cancellations => LineColor::Error,
                StreamingLine::CollectedChunks => LineColor::Warning,
                _ => LineColor::Automatic,
            }),
    {
        match self {
            StreamingLine::ChunksInFlight => LineColor::Success,
            StreamingLine::Cancellations => LineColor::Error,
            StreamingLine::CollectedChunks => LineColor::Warning,
            _ => LineColor::Automatic,
        }
    }

    /// What was announced is dashed.
    pub fn is_dashed(self) -> (r: bool)
        ensures
            r == (self == StreamingLine::ManifestBytes),
    {
        self == StreamingLine::ManifestBytes
    }
}

/// The plots that follow the time show the last ten seconds, in nanoseconds.
pub const WINDOW_NANOS: i64 = 10_000_000_000;

/// What the user does with a plot.
#[derive(Clone, Copy, Debug, PartialEq, Eq, Structural)]
pub struct PlotEvents {
    pub dragged: bool,
    pub hovered: bool,
    /// Scrolled sideways.
    pub scrolled: bool,
    pub double_clicked: bool,
}

/// The part of the time that a plot shows, in nanoseconds, if it follows the time. The clock
/// starts with the viewer.
pub fn shown_window(following: bool, now: i64) -> (r: Option<(i64, i64)>)
    requires
        now >= 0,
    ensures
        r == (if following {
            Some(((now - WINDOW_NANOS) as i64, now))
        } else {
            None
        }),
{
    if following {
        Some((now - WINDOW_NANOS, now))
    } else {
        None
    }
}

/// Whether the plots follow the time after this: not once the user moves one of them, until
/// they double-click it.
pub open spec fn follows_after(following: bool, e: PlotEvents) -> bool {
    e.double_clicked || (following && !(e.dragged || (e.hovered && e.scrolled)))
}

pub fn follow(following: bool, e: PlotEvents) -> (r: bool)
    ensures
        r == follows_after(following, e),
{
    let mut following: bool = following;
    if e.dragged || (e.hovered && e.scrolled) {
        following = false;
    }
    if e.double_clicked {
        following = true;
    }
    following
}

/// Plots that are left alone go on as they were; a double click always makes them follow.
pub proof fn law_following(following: bool, e: PlotEvents)
    ensures
        !e.dragged && !e.scrolled && !e.double_clicked ==> follows_after(following, e) == following,
        e.double_clicked ==> follows_after(following, e),
        e.dragged && !e.double_clicked ==> !follows_after(following, e),
{
}

/// Scrolling stops the plot that is scrolled, and no other one; and only a double click makes a
/// plot follow again.
pub proof fn law_scrolling_stops_only_what_is_under_it(following: bool, e: PlotEvents)
    ensures
        e.hovered && e.scrolled && !e.double_clicked ==> !follows_after(following, e),
        !e.hovered && !e.dragged && !e.double_clicked ==> follows_after(following, e) == following,
        !following && !e.double_clicked ==> !follows_after(following, e),
{
}

/// Each line is drawn in the plot of its unit: amounts of data, rates, and counts do not mix.
pub proof fn law_lines_are_drawn_by_their_unit(plot: StreamingPlot, line: StreamingLine)
    ensures
        plot_lines(plot).no_duplicates(),
        plot_lines(plot).contains(line) <==> plot == (match line {
            StreamingLine::LoadedBytes | StreamingLine::ManifestBytes => StreamingPlot::Progress,
            StreamingLine::Bandwidth | StreamingLine::PendingBytes => StreamingPlot::Throughput,
            _ => StreamingPlot::Counts,
        }),
{
    let progress = plot_lines(StreamingPlot::Progress);
    let throughput = plot_lines(StreamingPlot::Throughput);
    let counts = plot_lines(StreamingPlot::Counts);
    assert(progress[0] == StreamingLine::LoadedBytes && progress[1]
        == StreamingLine::ManifestBytes);
    assert(throughput[0] == StreamingLine::Bandwidth && throughput[1]
        == StreamingLine::PendingBytes);
    assert(counts[0] == StreamingLine::ChunksInFlight && counts[1] == StreamingLine::Cancellations
        && counts[2] == StreamingLine::CollectedChunks);
}

/// A plot that follows shows the last ten seconds.
pub proof fn law_following_plot_shows_the_last_seconds(
    following: bool,
    now: i64,
    shown: Option<(i64, i64)>,
)
    requires
        now >= 0,
        call_ensures(shown_window, (following, now), shown),
    ensures
        shown is Some <==> following,
        shown matches Some(window) ==> window.1 == now && window.1 - window.0 == 10_000_000_000,
{
}

} // verus!
