//! The view that stands in for a view class that is not registered.
use vstd::prelude::*;

use crate::i18n;
use crate::i18n::{tr, Language};
use crate::icons::Icon;

verus! {

/// A placeholder view class that can be used when the actual class is not registered.
#[derive(Clone, Copy, Debug, PartialEq, Eq, Structural)]
pub struct ViewClassPlaceholder;

/// Which views come first when a layout is made.
#[derive(Clone, Copy, Debug, PartialEq, Eq, Structural)]
pub enum ViewClassLayoutPriority {
    Low,
    Medium,
    High,
}

/// How grave a report is.
#[derive(Clone, Copy, Debug, PartialEq, Eq, Structural)]
pub enum ViewerReportSeverity {
    OverallError,
    Error,
    Warning,
}

/// A report of what went wrong in a view.
#[derive(Clone, Copy, Debug)]
pub struct ViewerDiagnostic {
    pub severity: ViewerReportSeverity,
    pub summary: &'static str,
    pub details: &'static str,
}

/// Why the view class may be unknown.
pub open spec fn unknown_class_details() -> Seq<char> {
    "出现这种情况，可能是 blueprint 指定了无效的视图类型，或者当前版本的 viewer 不认识这个类型。\n\n**注意**：有些视图需要启用特定的 Cargo feature。比如地图视图需要 `map_view` feature。"@
}

impl ViewClassPlaceholder {
    pub fn identifier() -> (r: &'static str)
        ensures
            r@ == "UnknownViewClass"@,
    {
        "UnknownViewClass"
    }

    pub fn display_name(&self, lang: Language) -> (r: &'static str)
        ensures
            r@ == i18n::translated(lang, "Unknown view class"@, "未知视图类型"@),
    {
        tr(lang, "Unknown view class", "未知视图类型")
    }

    pub fn icon(&self) -> (r: Icon)
        ensures
            r == Icon::ViewUnknown,
    {
        Icon::ViewUnknown
    }

    /// The title and the text of its help.
    pub fn help(&self, lang: Language) -> (r: (&'static str, &'static str))
        ensures
            r.0@ == i18n::translated(lang, "Placeholder view"@, "占位视图"@),
            r.1@ == i18n::translated(
                lang,
                "Placeholder view for unknown view class"@,
                "未知视图类型的占位视图"@,
            ),
    {
        (
            tr(lang, "Placeholder view", "占位视图"),
            tr(lang, "Placeholder view for unknown view class", "未知视图类型的占位视图"),
        )
    }

    pub fn layout_priority(&self) -> (r: ViewClassLayoutPriority)
        ensures
            r == ViewClassLayoutPriority::Low,
    {
        ViewClassLayoutPriority::Low
    }

    /// What the view shows: an error, and below it the details of the report.
    pub fn error_label(&self) -> (r: &'static str)
        ensures
            r@ == "未知的视图类型"@,
    {
        "未知的视图类型"
    }

    /// What the view reports.
    pub fn report(&self) -> (r: ViewerDiagnostic)
        ensures
            r.severity == ViewerReportSeverity::Error,
            r.summary@ == "Unknown view class"@,
            r.details@ == unknown_class_details(),
    {
        ViewerDiagnostic {
            severity: ViewerReportSeverity::Error,
            summary: "Unknown view class",
            details: "出现这种情况，可能是 blueprint 指定了无效的视图类型，或者当前版本的 viewer 不认识这个类型。\n\n**注意**：有些视图需要启用特定的 Cargo feature。比如地图视图需要 `map_view` feature。",
        }
    }
}

} // verus!
