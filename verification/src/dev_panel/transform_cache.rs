//! The tab that shows how coordinate frames are related.
use vstd::prelude::*;
use vstd::string::*;

use crate::store_id::StoreId;
use crate::text;

verus! {

/// Which frames are shown. Compared to the filter of the cache itself this adds a category
/// for unlinked named frames.
#[derive(Clone, Copy, Debug, PartialEq, Eq, Structural)]
pub enum FrameVisibilityFilter {
    Implicit,
    Named,
    Unlinked,
    All,
}

/// Which relations are shown.
#[derive(Clone, Copy, Debug, PartialEq, Eq, Structural)]
pub enum EdgeFilter {
    Static,
    Temporal,
    All,
}

/// Orientation of the rendered transform-cache graph.
#[derive(Clone, Copy, Debug, PartialEq, Eq, Structural)]
pub enum LayoutDirection {
    Horizontal,
    Vertical,
}

impl FrameVisibilityFilter {
    /// The label of its button, and the hint.
    pub fn texts(self) -> (r: (&'static str, &'static str))
        ensures
            (r.0@, r.1@) == (match self {
                FrameVisibilityFilter::Implicit => (
                    "隐式"@,
                    "只显示由实体路径派生出的 tf# 坐标系"@,
                ),
                FrameVisibilityFilter::Named => ("具名"@, "显示带变换的、显式命名的坐标系"@),
                FrameVisibilityFilter::Unlinked => ("未关联"@, "显示没有变换的具名坐标系"@),
                FrameVisibilityFilter::All => ("全部"@, "显示隐式、具名和未关联的坐标系"@),
            }),
    {
        match self {
            FrameVisibilityFilter::Implicit => ("隐式", "只显示由实体路径派生出的 tf# 坐标系"),
            FrameVisibilityFilter::Named => ("具名", "显示带变换的、显式命名的坐标系"),
            FrameVisibilityFilter::Unlinked => ("未关联", "显示没有变换的具名坐标系"),
            FrameVisibilityFilter::All => ("全部", "显示隐式、具名和未关联的坐标系"),
        }
    }
}

impl EdgeFilter {
    /// The label of its button, and the hint.
    pub fn texts(self) -> (r: (&'static str, &'static str))
        ensures
            (r.0@, r.1@) == (match self {
                EdgeFilter::Static => ("静态"@, "只显示静态变换"@),
                EdgeFilter::Temporal => ("时序"@, "只显示时序变换"@),
                EdgeFilter::All => ("全部"@, "显示静态和时序变换"@),
            }),
    {
        match self {
            EdgeFilter::Static => ("静态", "只显示静态变换"),
            EdgeFilter::Temporal => ("时序", "只显示时序变换"),
            EdgeFilter::All => ("全部", "显示静态和时序变换"),
        }
    }
}

/// What stands before the two layouts.
pub fn layout_label() -> (r: &'static str)
    ensures
        r@ == "布局："@,
{
    "布局："
}

impl LayoutDirection {
    /// The label of its button, and the hint.
    pub fn texts(self) -> (r: (&'static str, &'static str))
        ensures
            (r.0@, r.1@) == (match self {
                LayoutDirection::Horizontal => ("▶"@, "横向排布变换坐标系"@),
                LayoutDirection::Vertical => ("▼"@, "纵向排布变换坐标系"@),
            }),
    {
        match self {
            LayoutDirection::Horizontal => ("▶", "横向排布变换坐标系"),
            LayoutDirection::Vertical => ("▼", "纵向排布变换坐标系"),
        }
    }
}

/// What the user chose to see.
#[derive(Clone, Copy, Debug, PartialEq, Eq, Structural)]
pub struct ViewSettings {
    pub frame_filter: FrameVisibilityFilter,
    pub edge_filter: EdgeFilter,
    pub layout_direction: LayoutDirection,
}

impl ViewSettings {
    /// The settings at first, with the edges that the cache shows by default.
    pub fn new(edge_filter: EdgeFilter) -> (r: Self)
        ensures
            r == (ViewSettings {
                frame_filter: FrameVisibilityFilter::Named,
                edge_filter,
                layout_direction: LayoutDirection::Vertical,
            }),
    {
        ViewSettings {
            frame_filter: FrameVisibilityFilter::Named,
            edge_filter,
            layout_direction: LayoutDirection::Vertical,
        }
    }

    /// Whether one of them was changed.
    pub fn differs(&self, before: &ViewSettings) -> (r: bool)
        ensures
            r == (*self != *before),
    {
        self.frame_filter != before.frame_filter || self.edge_filter != before.edge_filter
            || self.layout_direction != before.layout_direction
    }
}

/// The part of the scene that is in sight: `R` is a rectangle.
#[derive(Clone, Copy, Debug)]
pub struct SceneState<R> {
    pub scene_rect: Option<R>,
    /// Whether the user moved or zoomed the scene.
    pub user_interacted: bool,
}

impl<R: Copy> SceneState<R> {
    pub fn new() -> (r: Self)
        ensures
            r.scene_rect is None,
            !r.user_interacted,
    {
        SceneState { scene_rect: None, user_interacted: false }
    }

    /// The part of the scene to show: all of its content, unless the user has moved or zoomed
    /// it and the settings are the same.
    pub fn fit(&mut self, content: R, settings_changed: bool) -> (r: R)
        ensures
            r == (if old(self).user_interacted && !settings_changed && old(self).scene_rect is Some {
                old(self).scene_rect->0
            } else {
                content
            }),
            final(self).scene_rect == Some(r),
            final(self).user_interacted == old(self).user_interacted,
    {
        match self.scene_rect {
            Some(shown) => if !settings_changed && self.user_interacted {
                shown
            } else {
                self.scene_rect = Some(content);
                content
            },
            None => {
                self.scene_rect = Some(content);
                content
            },
        }
    }

    /// The scene was drawn, and what is in sight may have changed. A double click brings all
    /// of its content back.
    pub fn drawn(&mut self, in_sight: R, content: R, changed: bool, double_clicked: bool)
        ensures
            *final(self) == (if double_clicked {
                SceneState { scene_rect: Some(content), user_interacted: false }
            } else {
                SceneState {
                    scene_rect: Some(in_sight),
                    user_interacted: old(self).user_interacted || changed,
                }
            }),
    {
        self.scene_rect = Some(in_sight);
        if changed {
            self.user_interacted = true;
        }
        if double_clicked {
            self.scene_rect = Some(content);
            self.user_interacted = false;
        }
    }
}

/// What stands in place of the scene.
#[derive(Clone, Copy, Debug, PartialEq, Eq)]
pub enum CacheNote {
    Warning(&'static str),
    Label(&'static str),
}

/// What stands in place of the scene: there has to be a timeline, and a cache.
pub fn missing_note(has_query: bool, has_cache: bool) -> (r: Option<CacheNote>)
    ensures
        !has_query ==> (r matches Some(CacheNote::Warning(words)) && words@
            == "变换缓存没有选中活动的时间轴。"@),
        has_query && !has_cache ==> (r matches Some(CacheNote::Label(words)) && words@
            == "这个录制文件还没有可用的变换缓存。"@),
        has_query && has_cache ==> r is None,
{
    if !has_query {
        Some(CacheNote::Warning("变换缓存没有选中活动的时间轴。"))
    } else if !has_cache {
        Some(CacheNote::Label("这个录制文件还没有可用的变换缓存。"))
    } else {
        None
    }
}

/// What is said of the frames that are shown: how many there are, or `Err` if there are none.
pub fn frames_note(trees: usize, frames: usize, edges: usize) -> (r: Result<String, &'static str>)
    ensures
        r is Ok <==> frames > 0,
        r matches Ok(words) ==> words@ == text::decimal(trees as nat) + " 棵树、"@ + text::decimal(
            frames as nat,
        ) + " 个坐标系、"@ + text::decimal(edges as nat) + " 个变换"@,
        r matches Err(words) ==> words@ == "没有符合当前筛选条件的变换坐标系。"@,
{
    if frames == 0 {
        return Err("没有符合当前筛选条件的变换坐标系。");
    }
    let mut out: String = text::decimal_text(trees as u64);
    out.append(" 棵树、");
    text::push_decimal(&mut out, frames as u64);
    out.append(" 个坐标系、");
    text::push_decimal(&mut out, edges as u64);
    out.append(" 个变换");
    Ok(out)
}

/// The name of the recording, and the warning that some of it is missing.
pub fn recording_label(id: &StoreId, any_missing_chunks: bool) -> (r: (String, Option<&'static str>))
    ensures
        r.0@ == id.application_id@ + " ("@ + id.recording_id@ + ")"@,
        r.1 is Some <==> any_missing_chunks,
        r.1 matches Some(words) ==> words@ == "有部分 chunk 缺失"@,
{
    (
        text::cat4(id.application_id.as_str(), " (", id.recording_id.as_str(), ")"),
        if any_missing_chunks {
            Some("有部分 chunk 缺失")
        } else {
            None
        },
    )
}

/// Whether there is something to ask the cache: the recording has a clock, and that clock
/// runs on a timeline that is known.
pub fn has_query(has_time_control: bool, timeline_is_resolved: bool) -> (r: bool)
    ensures
        r == (has_time_control && timeline_is_resolved),
{
    has_time_control && timeline_is_resolved
}

} // verus!
