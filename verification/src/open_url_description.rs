//! What happens when a URL is opened, in words.
use vstd::prelude::*;
use vstd::string::*;

use crate::text;

verus! {

/// What a URL is, as far as it is described. Where the description may name a target, `url` is
/// the URL itself.
#[derive(Debug)]
pub enum ViewerOpenUrl {
    /// Something within the recording, and its entity path, if it has one.
    IntraRecordingSelection { url: String, entity_path: Option<String> },
    /// A file on the web, and the path of its URL.
    HttpUrl { url: String, path: String },
    /// The path of a file.
    FilePath(String),
    RedapDatasetSegment { url: String, segment_id: String },
    RedapProxy,
    /// The location of a dataset.
    TosDataset(String),
    RedapCatalog { url: String, host: String },
    RedapEntry { url: String, entry_id: String },
    RedapFolder { url: String, path: String },
    WebEventListener,
    /// A web viewer, and the URLs that it is to open.
    WebViewerUrl { url: String, url_parameters: Vec<ViewerOpenUrl> },
    Settings,
    ChunkStoreBrowser,
}

/// A description of what happens when opening a [`ViewerOpenUrl`].
#[derive(Debug)]
pub struct ViewerOpenUrlDescription {
    /// The general category of this URL.
    pub category: &'static str,
    /// The specific target of this URL if known.
    ///
    /// This is always shorter than the URL itself.
    pub target_short: Option<String>,
}

// ---------------------------------------------------------------------------------------
// File names

/// The last component of a path, as slashes part it, but for empty ones and dots; empty if there
/// is none.
pub open spec fn last_component(path: Seq<char>) -> Seq<char>
    decreases path.len(),
{
    let segment = text::after_last(path, '/');
    if segment.len() > 0 && segment != seq!['.'] {
        segment
    } else if segment.len() < path.len() {
        last_component(text::before_last(path, '/'))
    } else {
        Seq::empty()
    }
}

/// The name of a file, by the last component of its path. There is none if that leads to the
/// parent directory.
pub open spec fn file_name(path: Seq<char>) -> Option<Seq<char>> {
    let component = last_component(path);
    if component.len() == 0 || component == seq!['.', '.'] {
        None
    } else {
        Some(component)
    }
}

pub open spec fn is_separator(c: char) -> bool {
    c == '/' || c == '\\'
}

/// Whether the last component of a path is the same on Unix and on Windows: it has no backslash,
/// it has no colon where it stands at the start of the path, as a drive does, and the path does
/// not start with two separators, as that of a server does.
pub open spec fn is_portable(path: Seq<char>) -> bool {
    let component = last_component(path);
    &&& !component.contains('\\')
    &&& component.contains(':') ==> !text::starts_with(path, component)
    &&& !(path.len() >= 2 && is_separator(path[0]) && is_separator(path[1]))
}

/// `Path::file_name`: a part of the path. Of a portable path, its last component: repeated and
/// trailing slashes do not count, nor do dots, and there is none where the path ends in `..`.
/// What counts as a component of other paths depends on the system, so that is left unsaid.
#[verifier::external_body]
fn std_file_name(path: &str) -> (r: Option<String>)
    ensures
        is_portable(path@) ==> text::opt_view(r) == file_name(path@),
        r matches Some(name) ==> text::occurs_in(path@, name@),
{
    std::path::Path::new(path).file_name().map(|name| name.to_string_lossy().into_owned())
}

/// The path of the file that a URL leads to, if it leads to one.
pub open spec fn path_of(url: ViewerOpenUrl) -> Option<Seq<char>>
    decreases url,
{
    match url {
        ViewerOpenUrl::FilePath(path) => Some(path@),
        ViewerOpenUrl::WebViewerUrl { url_parameters, .. } => if url_parameters@.len() == 1 {
            path_of(url_parameters@[0])
        } else {
            None
        },
        _ => None,
    }
}

/// The name of the file that a URL leads to.
pub open spec fn file_name_of(url: ViewerOpenUrl) -> Option<Seq<char>> {
    match path_of(url) {
        Some(path) => file_name(path),
        None => None,
    }
}

fn file_path(url: &ViewerOpenUrl) -> (r: Option<&str>)
    ensures
        r is Some <==> path_of(*url) is Some,
        r matches Some(path) ==> path_of(*url) == Some(path@),
    decreases *url,
{
    match url {
        ViewerOpenUrl::FilePath(path) => Some(path.as_str()),
        ViewerOpenUrl::WebViewerUrl { url: _, url_parameters } => if url_parameters.len() == 1 {
            file_path(&url_parameters[0])
        } else {
            None
        },
        _ => None,
    }
}

// ---------------------------------------------------------------------------------------
// Descriptions

/// The URL, path or location itself, where the description may name a target.
pub open spec fn url_text(url: ViewerOpenUrl) -> Option<Seq<char>> {
    match url {
        ViewerOpenUrl::IntraRecordingSelection { url, .. } => Some(url@),
        ViewerOpenUrl::HttpUrl { url, .. } => Some(url@),
        ViewerOpenUrl::FilePath(path) => Some(path@),
        ViewerOpenUrl::RedapDatasetSegment { url, .. } => Some(url@),
        ViewerOpenUrl::TosDataset(location) => Some(location@),
        ViewerOpenUrl::RedapCatalog { url, .. } => Some(url@),
        ViewerOpenUrl::RedapEntry { url, .. } => Some(url@),
        ViewerOpenUrl::RedapFolder { url, .. } => Some(url@),
        ViewerOpenUrl::WebViewerUrl { url, .. } => Some(url@),
        ViewerOpenUrl::RedapProxy => None,
        ViewerOpenUrl::WebEventListener => None,
        ViewerOpenUrl::Settings => None,
        ViewerOpenUrl::ChunkStoreBrowser => None,
    }
}

/// A target, if it is shorter than the URL.
pub open spec fn if_shorter(target: Option<Seq<char>>, url: Seq<char>) -> Option<Seq<char>> {
    match target {
        Some(target) => if target.len() < url.len() {
            Some(target)
        } else {
            None
        },
        None => None,
    }
}

/// The last segment of the location of a dataset, if it is not empty.
pub open spec fn dataset_target(location: Seq<char>) -> Option<Seq<char>> {
    let segment = text::after_last(text::without_trailing(location, '/'), '/');
    if segment.len() > 0 {
        Some(segment)
    } else {
        None
    }
}

/// The category of a URL, and its target. `name` is the name of the file that it leads to, if
/// it leads to one that has a name.
pub open spec fn described(url: ViewerOpenUrl, name: Option<Seq<char>>) -> (
    Seq<char>,
    Option<Seq<char>>,
)
    decreases url,
{
    match url {
        ViewerOpenUrl::IntraRecordingSelection { url, entity_path } => (
            "选区"@,
            if_shorter(text::opt_view(entity_path), url@),
        ),
        ViewerOpenUrl::HttpUrl { url, path } => (
            "HTTP 链接"@,
            if_shorter(Some(text::after_last(path@, '/')), url@),
        ),
        ViewerOpenUrl::FilePath(path) => ("文件"@, if_shorter(name, path@)),
        ViewerOpenUrl::RedapDatasetSegment { url, segment_id } => (
            "数据段"@,
            if_shorter(Some(segment_id@), url@),
        ),
        ViewerOpenUrl::RedapProxy => ("gRPC 代理"@, None),
        ViewerOpenUrl::TosDataset(location) => (
            "TOS 数据集"@,
            if_shorter(dataset_target(location@), location@),
        ),
        ViewerOpenUrl::RedapCatalog { url, host } => ("目录"@, if_shorter(Some(host@), url@)),
        ViewerOpenUrl::RedapEntry { url, entry_id } => (
            "Redap 条目"@,
            if_shorter(Some(entry_id@), url@),
        ),
        ViewerOpenUrl::RedapFolder { url, path } => ("文件夹"@, if_shorter(Some(path@), url@)),
        ViewerOpenUrl::WebEventListener => ("Web 事件监听器"@, None),
        ViewerOpenUrl::WebViewerUrl { url, url_parameters } => if url_parameters@.len() == 1 {
            let only = described(url_parameters@[0], name);
            (only.0, if_shorter(only.1, url@))
        } else {
            (
                "多个 URL"@,
                if_shorter(Some(text::decimal(url_parameters@.len()) + " 个 URL"@), url@),
            )
        },
        ViewerOpenUrl::Settings => ("设置"@, None),
        ViewerOpenUrl::ChunkStoreBrowser => ("Chunk store 浏览器"@, None),
    }
}

/// Whether a name, if there is one, stands in the path of the file that a URL leads to.
pub open spec fn is_part_of_path(url: ViewerOpenUrl, name: Option<Seq<char>>) -> bool {
    name matches Some(name) ==> path_of(url) matches Some(path) && text::occurs_in(path, name)
}

/// The target of a URL that leads to a file is the name of the file, or there is none.
proof fn lemma_file_target(url: ViewerOpenUrl, name: Option<Seq<char>>)
    requires
        path_of(url) is Some,
    ensures
        described(url, name).1 is Some ==> described(url, name).1 == name,
    decreases url,
{
    if let ViewerOpenUrl::WebViewerUrl { url_parameters, .. } = url {
        lemma_file_target(url_parameters@[0], name);
    }
}

/// A description as a category and a target, if that is shorter than the URL.
fn description(category: &'static str, target: Option<String>, url: &String) -> (r:
    ViewerOpenUrlDescription)
    ensures
        r.category == category,
        text::opt_view(r.target_short) == if_shorter(text::opt_view(target), url@),
{
    let target_short: Option<String> = match target {
        Some(target) => if target.as_str().unicode_len() < url.as_str().unicode_len() {
            Some(target)
        } else {
            None
        },
        None => None,
    };
    ViewerOpenUrlDescription { category, target_short }
}

impl ViewerOpenUrlDescription {
    fn category_only(category: &'static str) -> (r: Self)
        ensures
            r.category == category,
            r.target_short is None,
    {
        ViewerOpenUrlDescription { category, target_short: None }
    }

    /// The description of a URL. Where it leads to a file, the target is the name that the
    /// system has for it.
    pub fn from_url(open_url: &ViewerOpenUrl) -> (r: Self)
        ensures
            (path_of(*open_url) matches Some(path) ==> is_portable(path)) ==> (
                r.category@,
                text::opt_view(r.target_short),
            ) == described(*open_url, file_name_of(*open_url)),
            exists|name: Option<Seq<char>>|
                (r.category@, text::opt_view(r.target_short)) == #[trigger] described(
                    *open_url,
                    name,
                ) && is_part_of_path(*open_url, name),
            path_of(*open_url) is Some ==> is_part_of_path(
                *open_url,
                text::opt_view(r.target_short),
            ),
            url_text(*open_url) is None ==> r.target_short is None,
            text::opt_view(r.target_short) matches Some(target) ==> target.len() < url_text(
                *open_url,
            )->0.len(),
    {
        let name: Option<String> = match file_path(open_url) {
            Some(path) => std_file_name(path),
            None => None,
        };
        proof {
            law_target_is_shorter(*open_url, text::opt_view(name));
            if path_of(*open_url) is Some {
                lemma_file_target(*open_url, text::opt_view(name));
            }
        }
        Self::with_file_name(open_url, &name)
    }

    /// The description of a URL. `name` is the name of the file that it leads to, if it leads
    /// to one that has a name.
    pub fn with_file_name(open_url: &ViewerOpenUrl, name: &Option<String>) -> (r: Self)
        ensures
            (r.category@, text::opt_view(r.target_short)) == described(
                *open_url,
                text::opt_view(*name),
            ),
        decreases *open_url,
    {
        match open_url {
            ViewerOpenUrl::IntraRecordingSelection { url, entity_path } => description(
                "选区",
                copy_of(entity_path),
                url,
            ),
            ViewerOpenUrl::HttpUrl { url, path } => description(
                "HTTP 链接",
                Some(text::last_segment(path.as_str(), '/').to_owned()),
                url,
            ),
            ViewerOpenUrl::FilePath(path) => description("文件", copy_of(name), path),
            ViewerOpenUrl::RedapDatasetSegment { url, segment_id } => description(
                "数据段",
                Some(segment_id.clone()),
                url,
            ),
            ViewerOpenUrl::RedapProxy => Self::category_only("gRPC 代理"),
            ViewerOpenUrl::TosDataset(location) => {
                let segment: &str = text::last_segment(
                    text::trim_end_char(location.as_str(), '/'),
                    '/',
                );
                description(
                    "TOS 数据集",
                    if segment.is_empty() {
                        None
                    } else {
                        Some(segment.to_owned())
                    },
                    location,
                )
            },
            ViewerOpenUrl::RedapCatalog { url, host } => description(
                "目录",
                Some(host.clone()),
                url,
            ),
            ViewerOpenUrl::RedapEntry { url, entry_id } => description(
                "Redap 条目",
                Some(entry_id.clone()),
                url,
            ),
            ViewerOpenUrl::RedapFolder { url, path } => description(
                "文件夹",
                Some(path.clone()),
                url,
            ),
            ViewerOpenUrl::WebEventListener => Self::category_only("Web 事件监听器"),
            ViewerOpenUrl::WebViewerUrl { url, url_parameters } => {
                if url_parameters.len() == 1 {
                    let only: Self = Self::with_file_name(&url_parameters[0], name);
                    description(only.category, only.target_short, url)
                } else {
                    let count: String = text::decimal_text(url_parameters.len() as u64);
                    description("多个 URL", Some(text::cat2(count.as_str(), " 个 URL")), url)
                }
            },
            ViewerOpenUrl::Settings => Self::category_only("设置"),
            ViewerOpenUrl::ChunkStoreBrowser => Self::category_only("Chunk store 浏览器"),
        }
    }

    /// The description as one text: the category and, where it is known, the target.
    pub fn text(&self) -> (r: String)
        ensures
            r@ == (match self.target_short {
                Some(target) => self.category@ + "："@ + target@,
                None => self.category@,
            }),
    {
        match &self.target_short {
            Some(target) => text::cat3(self.category, "：", target.as_str()),
            None => self.category.to_owned(),
        }
    }
}

fn copy_of(s: &Option<String>) -> (r: Option<String>)
    ensures
        r == *s,
{
    match s {
        Some(s) => Some(s.clone()),
        None => None,
    }
}

// ---------------------------------------------------------------------------------------
// Laws

/// A target is always shorter than the URL it is the target of.
pub proof fn law_target_is_shorter(url: ViewerOpenUrl, name: Option<Seq<char>>)
    ensures
        url_text(url) is None ==> described(url, name).1 is None,
        described(url, name).1 matches Some(target) ==> target.len() < url_text(url)->0.len(),
{
}

/// A file path that is only a name has no target: there is nothing shorter to say.
pub proof fn law_bare_name_has_no_target(path: String)
    requires
        !path@.contains('/'),
    ensures
        described(ViewerOpenUrl::FilePath(path), file_name(path@)).1 is None,
{
    text::lemma_after_last(path@, '/');
}

proof fn lemma_last_component(path: Seq<char>)
    ensures
        last_component(path).len() <= path.len(),
        !last_component(path).contains('/'),
    decreases path.len(),
{
    let segment = text::after_last(path, '/');
    text::lemma_after_last(path, '/');
    if (segment.len() == 0 || segment == seq!['.']) && segment.len() < path.len() {
        lemma_last_component(text::before_last(path, '/'));
    }
}

/// The name of a file is a part of its path, and a single segment.
pub proof fn law_file_name_is_one_segment(path: Seq<char>)
    ensures
        file_name(path) matches Some(name) ==> 0 < name.len() <= path.len() && !name.contains('/'),
{
    lemma_last_component(path);
}

/// The target of a path or location is a part of it, and a single segment.
pub proof fn law_target_is_one_segment(path: Seq<char>)
    ensures
        text::after_last(path, '/').len() <= path.len(),
        !text::after_last(path, '/').contains('/'),
        dataset_target(path) matches Some(target) ==> 0 < target.len() <= path.len()
            && !target.contains('/'),
{
    text::lemma_after_last(path, '/');
    text::lemma_without_trailing(path, '/');
    text::lemma_after_last(text::without_trailing(path, '/'), '/');
}

/// A web viewer that is to open a single URL, which its own URL holds, is described as that URL
/// is.
pub proof fn law_single_url_is_transparent(
    url: String,
    urls: Vec<ViewerOpenUrl>,
    name: Option<Seq<char>>,
)
    requires
        urls@.len() == 1,
        url_text(urls@[0]) matches Some(only) ==> only.len() <= url@.len(),
    ensures
        described(ViewerOpenUrl::WebViewerUrl { url, url_parameters: urls }, name) == described(
            urls@[0],
            name,
        ),
{
    law_target_is_shorter(urls@[0], name);
}

/// Whether a path goes on, behind one of its components, without naming another one: slashes,
/// and dots that stand for the directory itself.
pub open spec fn names_nothing(tail: Seq<char>) -> bool {
    forall|i: int|
        #![trigger tail[i]]
        0 <= i < tail.len() ==> tail[i] == '/' || (tail[i] == '.' && i > 0 && tail[i - 1] == '/')
}

/// The last component of a path is what stands behind its last slash, where slashes at the end
/// and dots that stand for the directory itself do not count. It is the name of the file,
/// unless it leads up.
pub proof fn law_file_name_is_the_last_component(
    before: Seq<char>,
    name: Seq<char>,
    tail: Seq<char>,
)
    requires
        before.len() > 0 ==> before.last() == '/',
        name.len() > 0,
        !name.contains('/'),
        name != seq!['.'],
        names_nothing(tail),
    ensures
        last_component(before + name + tail) == name,
        name == seq!['.', '.'] ==> file_name(before + name + tail) is None,
        name != seq!['.', '.'] ==> file_name(before + name + tail) == Some(name),
    decreases tail.len(),
{
    let path = before + name + tail;
    if tail.len() == 0 {
        lemma_segment_is(before, name);
        assert(path =~= before + name);
    } else if tail.last() == '/' {
        let shorter = before + name + tail.drop_last();
        assert(names_nothing(tail.drop_last()));
        law_file_name_is_the_last_component(before, name, tail.drop_last());
        text::lemma_last_is(shorter, Seq::empty(), '/');
        assert(path =~= shorter + seq!['/'] + Seq::empty());
        assert(last_component(path) == last_component(shorter));
    } else {
        let dot = seq!['.'];
        let front = tail.take(tail.len() - 2);
        let shorter = before + name + front;
        assert(tail[tail.len() - 1] == '.' && tail[tail.len() - 2] == '/');
        assert(names_nothing(front)) by {
            assert(forall|i: int| 0 <= i < front.len() ==> front[i] == tail[i]);
        }
        law_file_name_is_the_last_component(before, name, front);
        text::lemma_last_is(shorter, dot, '/');
        assert(path =~= shorter + seq!['/'] + dot);
        assert(last_component(path) == last_component(shorter));
    }
}

proof fn lemma_segment_is(before: Seq<char>, name: Seq<char>)
    requires
        before.len() > 0 ==> before.last() == '/',
        !name.contains('/'),
    ensures
        text::after_last(before + name, '/') == name,
{
    let path = before + name;
    if before.len() > 0 {
        text::lemma_last_is(before.drop_last(), name, '/');
        assert(path =~= before.drop_last() + seq!['/'] + name);
    } else {
        assert(path =~= name);
        text::lemma_after_last(name, '/');
        assert(name.skip(0) =~= name);
    }
}

/// A path of slashes and dots alone names no file.
pub proof fn law_path_without_a_name_names_no_file(tail: Seq<char>)
    requires
        names_nothing(tail),
    ensures
        file_name(tail) is None,
        file_name(seq!['.'] + tail) is None,
{
    lemma_nothing_named(Seq::empty(), tail);
    lemma_nothing_named(seq!['.'], tail);
    assert(Seq::empty() + tail =~= tail);
}

proof fn lemma_nothing_named(start: Seq<char>, tail: Seq<char>)
    requires
        start == Seq::<char>::empty() || start == seq!['.'],
        names_nothing(tail),
    ensures
        last_component(start + tail).len() == 0,
    decreases tail.len(),
{
    let path = start + tail;
    if tail.len() == 0 {
        assert(path =~= start);
        assert(!start.contains('/'));
        text::lemma_after_last(start, '/');
        assert(start.skip(0) =~= start);
    } else if tail.last() == '/' {
        let shorter = start + tail.drop_last();
        assert(names_nothing(tail.drop_last()));
        lemma_nothing_named(start, tail.drop_last());
        text::lemma_last_is(shorter, Seq::empty(), '/');
        assert(path =~= shorter + seq!['/'] + Seq::empty());
    } else {
        let dot = seq!['.'];
        let front = tail.take(tail.len() - 2);
        let shorter = start + front;
        assert(tail[tail.len() - 1] == '.' && tail[tail.len() - 2] == '/');
        assert(names_nothing(front)) by {
            assert(forall|i: int| 0 <= i < front.len() ==> front[i] == tail[i]);
        }
        lemma_nothing_named(start, front);
        text::lemma_last_is(shorter, dot, '/');
        assert(path =~= shorter + seq!['/'] + dot);
    }
}

/// What a link leads to is named by what is particular to it, wherever that is shorter than the
/// link, and by nothing else: the entity of a selection, the segment, the host, the entry, the
/// folder, the name of a file, or how many links there are.
pub proof fn law_target_is_what_is_particular(url: ViewerOpenUrl, name: Option<Seq<char>>)
    ensures
        match url {
            ViewerOpenUrl::IntraRecordingSelection { url: link, entity_path } => {
                described(url, name).1 == (match entity_path {
                    Some(path) => if path@.len() < link@.len() {
                        Some(path@)
                    } else {
                        None
                    },
                    None => None,
                })
            },
            ViewerOpenUrl::FilePath(path) => described(url, name).1 == (match name {
                Some(file) => if file.len() < path@.len() {
                    Some(file)
                } else {
                    None
                },
                None => None,
            }),
            ViewerOpenUrl::RedapDatasetSegment { url: link, segment_id } => described(url, name).1
                == (if segment_id@.len() < link@.len() {
                Some(segment_id@)
            } else {
                None
            }),
            ViewerOpenUrl::RedapCatalog { url: link, host } => described(url, name).1 == (if host@.len()
                < link@.len() {
                Some(host@)
            } else {
                None
            }),
            ViewerOpenUrl::RedapEntry { url: link, entry_id } => described(url, name).1 == (if entry_id@.len()
                < link@.len() {
                Some(entry_id@)
            } else {
                None
            }),
            ViewerOpenUrl::RedapFolder { url: link, path } => described(url, name).1 == (if path@.len()
                < link@.len() {
                Some(path@)
            } else {
                None
            }),
            ViewerOpenUrl::WebViewerUrl { url: link, url_parameters } => url_parameters@.len() != 1
                ==> described(url, name).1 == ({
                let many = text::decimal(url_parameters@.len()) + " 个 URL"@;
                if many.len() < link@.len() {
                    Some(many)
                } else {
                    None
                }
            }),
            ViewerOpenUrl::RedapProxy
            | ViewerOpenUrl::WebEventListener
            | ViewerOpenUrl::Settings
            | ViewerOpenUrl::ChunkStoreBrowser => described(url, name).1 is None,
            _ => true,
        },
{
}

/// A file on the web is named by what stands behind the last slash of its path, and a dataset
/// by its last folder, however many slashes follow.
pub proof fn law_target_is_the_last_segment(
    link: String,
    path: String,
    before: Seq<char>,
    segment: Seq<char>,
    end: Seq<char>,
    name: Option<Seq<char>>,
)
    requires
        before.len() > 0 ==> before.last() == '/',
        segment.len() > 0,
        !segment.contains('/'),
        forall|i: int| 0 <= i < end.len() ==> end[i] == '/',
    ensures
        path@ == before + segment ==> described(ViewerOpenUrl::HttpUrl { url: link, path }, name).1
            == (if segment.len() < link@.len() {
            Some(segment)
        } else {
            None
        }),
        path@ == before + segment + end ==> described(ViewerOpenUrl::TosDataset(path), name).1 == (
        if segment.len() < path@.len() {
            Some(segment)
        } else {
            None
        }),
{
    lemma_segment_is(before, segment);
    if before.len() > 0 {
        text::law_last_segment_is_found(before.drop_last(), segment, end, '/');
        assert(before =~= before.drop_last() + seq!['/']);
    } else {
        text::law_last_segment_is_found(before, segment, end, '/');
        assert(before + segment + end =~= segment + end);
    }
}

/// Only links to files are named by a file, and so are links that hold one link to a file.
pub proof fn law_path_is_that_of_the_file(url: ViewerOpenUrl, link: String, inner: Vec<ViewerOpenUrl>)
    ensures
        url matches ViewerOpenUrl::FilePath(path) ==> path_of(url) == Some(path@),
        !(url is FilePath) && !(url is WebViewerUrl) ==> path_of(url) is None,
        inner@.len() == 1 ==> path_of(
            (ViewerOpenUrl::WebViewerUrl { url: link, url_parameters: inner }),
        ) == path_of(inner@[0]),
        inner@.len() != 1 ==> path_of(
            (ViewerOpenUrl::WebViewerUrl { url: link, url_parameters: inner }),
        ) is None,
        path_of(url) matches Some(path) ==> file_name_of(url) == file_name(path),
        path_of(url) is None ==> file_name_of(url) is None,
{
}

} // verus!
