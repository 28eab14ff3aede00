//! The tabs of the panel.
use vstd::prelude::*;
use vstd::string::*;

use crate::i18n;
use crate::i18n::{tr, Language};
use crate::text;


verus! {

/// Which view to show in the dev panel.
#[derive(Clone, Copy, Debug, PartialEq, Eq, Structural)]
pub enum DevPanelTab {
    Flamegraph,
    TimeGraph,
    Stores,
    Streaming,
    AllocationTracking,
    Gpu,
    TransformCache,
}

pub open spec fn tab_label(tab: DevPanelTab, lang: Language) -> Seq<char> {
    match tab {
        DevPanelTab::Flamegraph => i18n::translated(lang, "Flamegraph"@, "内存火焰图"@),
        DevPanelTab::TimeGraph => i18n::translated(lang, "Over time"@, "随时间变化"@),
        DevPanelTab::Stores => i18n::translated(lang, "Recordings"@, "录制文件"@),
        DevPanelTab::Streaming => i18n::translated(lang, "Server streaming"@, "服务器流式读取"@),
        DevPanelTab::AllocationTracking => i18n::translated(
            lang,
            "Allocation tracking"@,
            "内存分配追踪"@,
        ),
        DevPanelTab::Gpu => "GPU"@,
        DevPanelTab::TransformCache => i18n::translated(lang, "Transform cache"@, "变换缓存"@),
    }
}

/// All tabs, in their order.
pub open spec fn every_tab() -> Seq<DevPanelTab> {
    seq![
        DevPanelTab::Flamegraph,
        DevPanelTab::TimeGraph,
        DevPanelTab::Stores,
        DevPanelTab::Streaming,
        DevPanelTab::AllocationTracking,
        DevPanelTab::Gpu,
        DevPanelTab::TransformCache,
    ]
}

impl DevPanelTab {
    pub fn label(&self, lang: Language) -> (r: &'static str)
        ensures
            r@ == tab_label(*self, lang),
    {
        match self {
            DevPanelTab::Flamegraph => tr(lang, "Flamegraph", "内存火焰图"),
            DevPanelTab::TimeGraph => tr(lang, "Over time", "随时间变化"),
            DevPanelTab::Stores => tr(lang, "Recordings", "录制文件"),
            DevPanelTab::Streaming => tr(lang, "Server streaming", "服务器流式读取"),
            DevPanelTab::AllocationTracking => tr(lang, "Allocation tracking", "内存分配追踪"),
            DevPanelTab::Gpu => "GPU",
            DevPanelTab::TransformCache => tr(lang, "Transform cache", "变换缓存"),
        }
    }

    /// All tabs, in their order.
    pub fn all() -> (r: Vec<DevPanelTab>)
        ensures
            r@ == every_tab(),
    {
        let out: Vec<DevPanelTab> = vec![
            DevPanelTab::Flamegraph,
            DevPanelTab::TimeGraph,
            DevPanelTab::Stores,
            DevPanelTab::Streaming,
            DevPanelTab::AllocationTracking,
            DevPanelTab::Gpu,
            DevPanelTab::TransformCache,
        ];
        assert(out@ =~= every_tab());
        out
    }
}

/// Each tab can be selected in one place.
pub proof fn law_every_tab_is_listed_once(tab: DevPanelTab)
    ensures
        every_tab().contains(tab),
        every_tab().no_duplicates(),
{
    let all = every_tab();
    match tab {
        DevPanelTab::Flamegraph => assert(all[0] == tab),
        DevPanelTab::TimeGraph => assert(all[1] == tab),
        DevPanelTab::Stores => assert(all[2] == tab),
        DevPanelTab::Streaming => assert(all[3] == tab),
        DevPanelTab::AllocationTracking => assert(all[4] == tab),
        DevPanelTab::Gpu => assert(all[5] == tab),
        DevPanelTab::TransformCache => assert(all[6] == tab),
    }
}

/// What the labels of the tabs are told apart by.
spec fn label_marks(tab: DevPanelTab, lang: Language) -> (nat, char, char, char) {
    match lang {
        Language::English => match tab {
            DevPanelTab::Flamegraph => (10, 'F', 'm', 'g'),
            DevPanelTab::TimeGraph => (9, 'O', 'r', ' '),
            DevPanelTab::Stores => (10, 'R', 'o', 'd'),
            DevPanelTab::Streaming => (16, 'S', 'r', 't'),
            DevPanelTab::AllocationTracking => (19, 'A', 't', 'n'),
            DevPanelTab::TransformCache => (15, 'T', 'f', 'r'),
            DevPanelTab::Gpu => (3, 'G', 'P', 'P'),
        },
        Language::Chinese => match tab {
            DevPanelTab::Flamegraph => (5, '内', '存', '火'),
            DevPanelTab::TimeGraph => (5, '随', '时', '间'),
            DevPanelTab::Stores => (4, '录', '制', '文'),
            DevPanelTab::Streaming => (7, '服', '器', '流'),
            DevPanelTab::AllocationTracking => (6, '内', '分', '配'),
            DevPanelTab::TransformCache => (4, '变', '换', '缓'),
            DevPanelTab::Gpu => (3, 'G', 'P', 'P'),
        },
    }
}

proof fn lemma_label_marks(tab: DevPanelTab, lang: Language)
    ensures
        text::marks(tab_label(tab, lang)) == label_marks(tab, lang),
{
    match tab {
        DevPanelTab::Flamegraph => {
            reveal_strlit("Flamegraph");
            reveal_strlit("内存火焰图");
        },
        DevPanelTab::TimeGraph => {
            reveal_strlit("Over time");
            reveal_strlit("随时间变化");
        },
        DevPanelTab::Stores => {
            reveal_strlit("Recordings");
            reveal_strlit("录制文件");
        },
        DevPanelTab::Streaming => {
            reveal_strlit("Server streaming");
            reveal_strlit("服务器流式读取");
        },
        DevPanelTab::AllocationTracking => {
            reveal_strlit("Allocation tracking");
            reveal_strlit("内存分配追踪");
        },
        DevPanelTab::TransformCache => {
            reveal_strlit("Transform cache");
            reveal_strlit("变换缓存");
        },
        DevPanelTab::Gpu => {
            reveal_strlit("GPU");
        },
    }
}

/// No two tabs have the same label.
pub proof fn law_tab_labels_are_distinct(a: DevPanelTab, b: DevPanelTab, lang: Language)
    requires
        tab_label(a, lang) == tab_label(b, lang),
    ensures
        a == b,
{
    lemma_label_marks(a, lang);
    lemma_label_marks(b, lang);
}

/// The panel.
#[derive(Debug)]
pub struct DevPanel {
    /// When memory was purged, in nanoseconds since the start.
    pub memory_purge_times: Vec<u64>,
    pub selected_tab: DevPanelTab,
    pub include_rss_in_flamegraph: bool,
}

/// What the panel asks for.
#[derive(Clone, Copy, Debug, PartialEq, Eq, Structural)]
pub struct DevPanelResponse {
    pub close_requested: bool,
    pub repaint_requested: bool,
}

impl DevPanel {
    pub fn new() -> (r: Self)
        ensures
            r.memory_purge_times@.len() == 0,
            r.selected_tab == DevPanelTab::Flamegraph,
            !r.include_rss_in_flamegraph,
    {
        DevPanel {
            memory_purge_times: Vec::new(),
            selected_tab: DevPanelTab::Flamegraph,
            include_rss_in_flamegraph: false,
        }
    }

    /// Note that we purged memory at this time, to show in stats.
    pub fn note_memory_purge(&mut self, now: u64)
        ensures
            final(self).memory_purge_times@ == old(self).memory_purge_times@.push(now),
            final(self).selected_tab == old(self).selected_tab,
            final(self).include_rss_in_flamegraph == old(self).include_rss_in_flamegraph,
    {
        self.memory_purge_times.push(now);
    }

    /// What the panel asks for after it was drawn. It shows realtime stats, so it is to be
    /// drawn again at once; the transform cache has no need for that.
    pub fn response(&self, close_clicked: bool) -> (r: DevPanelResponse)
        ensures
            r.close_requested == close_clicked,
            r.repaint_requested == (self.selected_tab != DevPanelTab::TransformCache),
    {
        DevPanelResponse {
            close_requested: close_clicked,
            repaint_requested: self.selected_tab != DevPanelTab::TransformCache,
        }
    }
}

/// The fixed texts of the panel.
#[derive(Clone, Copy, Debug)]
pub struct DevPanelTexts {
    pub close: &'static str,
    pub over_time: &'static str,
    pub no_recording: &'static str,
    pub no_stores: &'static str,
    pub flamegraph: &'static str,
    pub flamegraph_link: &'static str,
    pub flamegraph_url: &'static str,
    pub flamegraph_controls: &'static str,
    pub include_rss: &'static str,
    pub include_rss_hint: &'static str,
    pub no_tree: &'static str,
}

pub fn panel_texts(lang: Language) -> (r: DevPanelTexts)
    ensures
        r.close@ == i18n::translated(lang, "Close dev panel"@, "关闭开发者面板"@),
        r.over_time@ == i18n::translated(
            lang,
            "🗠 Rerun Viewer memory use over time"@,
            "🗠 Rerun Viewer 内存占用随时间的变化"@,
        ),
        r.no_recording@ == i18n::translated(
            lang,
            "No active recording selected for the transform cache."@,
            "没有选中活跃的录制文件，无法查看变换缓存。"@,
        ),
        r.no_stores@ == i18n::translated(
            lang,
            "No store statistics available."@,
            "没有可用的存储统计信息。"@,
        ),
        r.flamegraph@ == i18n::translated(
            lang,
            "Memory flamegraph visualizing the memory usage tree."@,
            "内存火焰图，可视化内存占用树。"@,
        ),
        r.flamegraph_link@ == i18n::translated(lang, "Learn more"@, "了解更多"@),
        r.flamegraph_url@
            == "https://docs.rs/re_byte_size/latest/re_byte_size/trait.MemUsageTreeCapture.html"@,
        r.flamegraph_controls@ == i18n::translated(
            lang,
            "Double-click to reset view, scroll to zoom, drag to pan."@,
            "双击重置视图，滚轮缩放，拖动平移。"@,
        ),
        r.include_rss@ == i18n::translated(lang, "Include RSS"@, "包含 RSS"@),
        r.include_rss_hint@ == i18n::translated(
            lang,
            "Include Resident Set Size (RSS) in the flamegraph. This shows total memory use as reported by the OS. This may be a lot bigger than what is actually _used_ because our allocator (mimalloc) retains pages in case they are needed again."@,
            "在火焰图中包含常驻内存（RSS），即操作系统报告的总内存占用。它可能远大于实际使用量，因为我们的分配器（mimalloc）会保留内存页以备复用。"@,
        ),
        r.no_tree@ == i18n::translated(
            lang,
            "No memory usage tree available."@,
            "没有可用的内存占用树。"@,
        ),
{
    DevPanelTexts {
        close: tr(lang, "Close dev panel", "关闭开发者面板"),
        over_time: tr(
            lang,
            "🗠 Rerun Viewer memory use over time",
            "🗠 Rerun Viewer 内存占用随时间的变化",
        ),
        no_recording: tr(
            lang,
            "No active recording selected for the transform cache.",
            "没有选中活跃的录制文件，无法查看变换缓存。",
        ),
        no_stores: tr(lang, "No store statistics available.", "没有可用的存储统计信息。"),
        flamegraph: tr(
            lang,
            "Memory flamegraph visualizing the memory usage tree.",
            "内存火焰图，可视化内存占用树。",
        ),
        flamegraph_link: tr(lang, "Learn more", "了解更多"),
        flamegraph_url: "https://docs.rs/re_byte_size/latest/re_byte_size/trait.MemUsageTreeCapture.html",
        flamegraph_controls: tr(
            lang,
            "Double-click to reset view, scroll to zoom, drag to pan.",
            "双击重置视图，滚轮缩放，拖动平移。",
        ),
        include_rss: tr(lang, "Include RSS", "包含 RSS"),
        include_rss_hint: tr(
            lang,
            "Include Resident Set Size (RSS) in the flamegraph. This shows total memory use as reported by the OS. This may be a lot bigger than what is actually _used_ because our allocator (mimalloc) retains pages in case they are needed again.",
            "在火焰图中包含常驻内存（RSS），即操作系统报告的总内存占用。它可能远大于实际使用量，因为我们的分配器（mimalloc）会保留内存页以备复用。",
        ),
        no_tree: tr(lang, "No memory usage tree available.", "没有可用的内存占用树。"),
    }
}

// ---------------------------------------------------------------------------------------
// The flamegraph

/// A level that the tree of the memory in use is put into.
#[derive(Clone, Copy, Debug, PartialEq, Eq, Structural)]
pub enum TreeLevel {
    /// What the operating system reports, with the total.
    Rss(u64),
    /// What the allocator counts, with the total. The trees from outside stand beside the
    /// viewer's own in it.
    Counted(u64),
}

/// The levels around the tree, from the inside out.
pub open spec fn tree_levels(
    counted: Option<u64>,
    resident: Option<u64>,
    include_rss: bool,
) -> Seq<TreeLevel> {
    (match counted {
        Some(total) => seq![TreeLevel::Counted(total)],
        None => seq![],
    }) + (match resident {
        Some(total) => if include_rss {
            seq![TreeLevel::Rss(total)]
        } else {
            seq![]
        },
        None => seq![],
    })
}

/// The levels around the tree, from the inside out.
pub fn memory_tree_levels(counted: Option<u64>, resident: Option<u64>, include_rss: bool) -> (r: Vec<
    TreeLevel,
>)
    ensures
        r@ == tree_levels(counted, resident, include_rss),
{
    let mut out: Vec<TreeLevel> = Vec::new();
    if let Some(total) = counted {
        out.push(TreeLevel::Counted(total));
    }
    if include_rss {
        if let Some(total) = resident {
            out.push(TreeLevel::Rss(total));
        }
    }
    assert(out@ =~= tree_levels(counted, resident, include_rss));
    out
}

impl TreeLevel {
    pub fn name(self) -> (r: &'static str)
        ensures
            r@ == (match self {
                TreeLevel::Rss(_) => "RSS"@,
                TreeLevel::Counted(_) => "counted"@,
            }),
    {
        match self {
            TreeLevel::Rss(_) => "RSS",
            TreeLevel::Counted(_) => "counted",
        }
    }
}

/// What is counted is shown where it is known; what is resident, around it, where it is known
/// and asked for.
pub proof fn law_levels_show_what_is_known(
    counted: Option<u64>,
    resident: Option<u64>,
    include_rss: bool,
    n: u64,
)
    ensures
        tree_levels(counted, resident, include_rss).contains(TreeLevel::Counted(n)) <==> counted
            == Some(n),
        tree_levels(counted, resident, include_rss).contains(TreeLevel::Rss(n)) <==> include_rss
            && resident == Some(n),
        tree_levels(counted, resident, include_rss).len() <= 2,
        counted is Some ==> tree_levels(counted, resident, include_rss)[0] is Counted,
{
    let levels = tree_levels(counted, resident, include_rss);
    if counted is Some {
        assert(levels[0] == TreeLevel::Counted(counted->0));
        if include_rss && resident is Some {
            assert(levels[1] == TreeLevel::Rss(resident->0));
        }
    } else if include_rss && resident is Some {
        assert(levels[0] == TreeLevel::Rss(resident->0));
    }
}

} // verus!
