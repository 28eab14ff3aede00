//! The welcome screen as a whole.
use vstd::prelude::*;
use vstd::string::*;

use crate::i18n;
use crate::i18n::{tr, Language};
use crate::text;

verus! {

/// The welcome screen.
#[derive(Debug)]
pub struct WelcomeScreen {
    /// Where the list of examples comes from, if not from the usual place.
    pub examples_manifest_url: Option<String>,
}

/// What the welcome screen shows.
#[derive(Debug)]
pub enum WelcomeContent {
    /// It is invisible.
    Nothing,
    /// A minimal screen: the recents lead, and below them is what is being loaded.
    Loading(String),
    /// A minimal screen: the recents lead, and below them it says that there is no data.
    NoData,
    /// The feature cards, with the recents below them.
    Full,
}

impl WelcomeScreen {
    pub fn new() -> (r: Self)
        ensures
            r.examples_manifest_url is None,
    {
        WelcomeScreen { examples_manifest_url: None }
    }

    pub fn set_examples_manifest_url(&mut self, url: String)
        ensures
            final(self).examples_manifest_url == Some(url),
    {
        self.examples_manifest_url = Some(url);
    }

    /// What the welcome screen shows. `loading_text` says what is being loaded.
    pub fn content(&self, visible: bool, hide_examples: bool, loading_text: &Option<String>) -> (r:
        WelcomeContent)
        ensures
            r == (if !visible {
                WelcomeContent::Nothing
            } else if !hide_examples {
                WelcomeContent::Full
            } else {
                match *loading_text {
                    Some(words) => WelcomeContent::Loading(words),
                    None => WelcomeContent::NoData,
                }
            }),
    {
        if !visible {
            return WelcomeContent::Nothing;
        }
        if hide_examples {
            match loading_text {
                Some(words) => WelcomeContent::Loading(words.clone()),
                None => WelcomeContent::NoData,
            }
        } else {
            WelcomeContent::Full
        }
    }
}

/// Where the documentation is.
pub fn docs_url() -> (r: &'static str)
    ensures
        r@ == "https://www.rerun.io/docs"@,
{
    "https://www.rerun.io/docs"
}

pub fn welcome_screen_title(lang: Language) -> (r: &'static str)
    ensures
        r@ == i18n::translated(
            lang,
            "Rerun: The data layer for VePAI"@,
            "Rerun: VePAI的数据底座"@,
        ),
{
    tr(lang, "Rerun: The data layer for VePAI", "Rerun: VePAI的数据底座")
}

/// What the viewer is for.
pub open spec fn bullet_words(lang: Language) -> Seq<Seq<char>> {
    seq![
        i18n::translated(
            lang,
            "Log multi-rate, multimodal data with the Rerun SDK in C++, Python, or Rust"@,
            "用 C++、Python 或 Rust 的 Rerun SDK 记录多频率、多模态数据"@,
        ),
        i18n::translated(
            lang,
            "Visualize and explore live or recorded data across the pipeline"@,
            "可视化并探索管线各环节的实时或已录制数据"@,
        ),
        i18n::translated(
            lang,
            "Query with dataframes or SQL, and stream directly to training"@,
            "用 dataframe 或 SQL 查询，并直接流式接入训练"@,
        ),
    ]
}

pub fn welcome_screen_bullet_text(lang: Language) -> (r: Vec<&'static str>)
    ensures
        text::str_views(r@) == bullet_words(lang),
{
    let list: Vec<&'static str> = vec![
        tr(
            lang,
            "Log multi-rate, multimodal data with the Rerun SDK in C++, Python, or Rust",
            "用 C++、Python 或 Rust 的 Rerun SDK 记录多频率、多模态数据",
        ),
        tr(
            lang,
            "Visualize and explore live or recorded data across the pipeline",
            "可视化并探索管线各环节的实时或已录制数据",
        ),
        tr(
            lang,
            "Query with dataframes or SQL, and stream directly to training",
            "用 dataframe 或 SQL 查询，并直接流式接入训练",
        ),
    ];
    assert(text::str_views(list@) =~= bullet_words(lang));
    list
}

/// How large the title is.
#[derive(Clone, Copy, Debug, PartialEq, Eq, Structural)]
pub struct TitleStyle {
    /// In the larger of two styles.
    pub large: bool,
    /// In points.
    pub line_height: u32,
}

/// How large the title is, where there is room for it: more than 400 points, or not.
pub fn title_style(wide: bool) -> (r: TitleStyle)
    ensures
        r.large == wide,
        r.line_height == (if wide {
            50u32
        } else {
            36u32
        }),
{
    TitleStyle {
        large: wide,
        line_height: if wide {
            50
        } else {
            36
        },
    }
}

} // verus!
