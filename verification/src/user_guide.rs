//! The in-app user guide.
//!
//! The pages are embedded into the viewer, so that every viewer shows them the same way: no
//! network, no browser and no deployment address needed.
use vstd::prelude::*;
use vstd::string::*;

use crate::text;

verus! {

/// How many pages the guide has.
pub const PAGE_COUNT: usize = 2;

/// The tab of a page.
pub open spec fn tab_of(page: int) -> Seq<char> {
    if page == 0 {
        "Viewer"@
    } else {
        "Catalog server"@
    }
}

/// The tab of a page.
pub fn page_tab(page: usize) -> (r: &'static str)
    requires
        page < PAGE_COUNT,
    ensures
        r@ == tab_of(page as int),
{
    if page == 0 {
        "Viewer"
    } else {
        "Catalog server"
    }
}

/// The names of the screenshots that the pages refer to.
pub open spec fn image_names() -> Seq<Seq<char>> {
    seq![
        "downloads-sdk-annotated.png"@,
        "viewer-add-menu-annotated.png"@,
        "viewer-open-view-annotated.png"@,
        "viewer-panel-buttons-annotated.png"@,
        "viewer-tos-dialog-annotated.png"@,
        "viewer-welcome-annotated.png"@,
    ]
}

/// The names of the screenshots that the pages refer to.
pub fn images() -> (r: Vec<&'static str>)
    ensures
        text::str_views(r@) == image_names(),
{
    let list: Vec<&'static str> = vec![
        "downloads-sdk-annotated.png",
        "viewer-add-menu-annotated.png",
        "viewer-open-view-annotated.png",
        "viewer-panel-buttons-annotated.png",
        "viewer-tos-dialog-annotated.png",
        "viewer-welcome-annotated.png",
    ];
    assert(text::str_views(list@) =~= image_names());
    list
}

/// The address under which a screenshot is embedded.
pub fn image_uri(name: &str) -> (r: String)
    ensures
        r@ == "bytes://user-guide/images/"@ + name@,
{
    text::cat2("bytes://user-guide/images/", name)
}

/// What refers to an image, and what refers to an embedded one.
pub open spec fn image_link() -> Seq<char> {
    "](images/"@
}

pub open spec fn embedded_link() -> Seq<char> {
    "](bytes://user-guide/images/"@
}

/// The link from one page to another.
pub open spec fn page_link() -> Seq<char> {
    "[01-viewer.md](01-viewer.md)"@
}

/// The text in its place.
pub open spec fn page_words() -> Seq<char> {
    "Viewer 篇"@
}

/// The markdown with image paths rewritten to the embedded bytes and the one cross-document
/// link (useless inside the viewer) turned into plain text.
pub open spec fn processed(markdown: Seq<char>) -> Seq<char> {
    text::replaced(
        text::replaced(markdown, image_link(), embedded_link()),
        page_link(),
        page_words(),
    )
}

pub fn processed_markdown(markdown: &str) -> (r: String)
    ensures
        r@ == processed(markdown@),
{
    proof {
        reveal_strlit("](images/");
        reveal_strlit("[01-viewer.md](01-viewer.md)");
    }
    let with_images: String = text::replace_text(
        markdown,
        "](images/",
        "](bytes://user-guide/images/",
    );
    text::replace_text(with_images.as_str(), "[01-viewer.md](01-viewer.md)", "Viewer 篇")
}

// ---------------------------------------------------------------------------------------
// The window

/// The guide window: a tab per page.
#[derive(Clone, Copy, Debug, PartialEq, Eq, Structural)]
pub struct UserGuideModal {
    pub is_open: bool,
    /// The page that is shown.
    pub selected: usize,
    pub images_registered: bool,
}

impl UserGuideModal {
    pub open spec fn valid(self) -> bool {
        self.selected < PAGE_COUNT
    }

    pub fn new() -> (r: Self)
        ensures
            r.valid(),
            r == (UserGuideModal { is_open: false, selected: 0, images_registered: false }),
    {
        UserGuideModal { is_open: false, selected: 0, images_registered: false }
    }

    /// Open the guide at a page, if that was asked for: at the last one, if there is no such
    /// page. Tells whether the images and the font have to be registered, which is done once.
    pub fn take_request(&mut self, requested: Option<usize>) -> (register: bool)
        requires
            old(self).valid(),
        ensures
            final(self).valid(),
            register == (requested is Some && !old(self).images_registered),
            *final(self) == (match requested {
                Some(page) => UserGuideModal {
                    is_open: true,
                    selected: if page < PAGE_COUNT {
                        page
                    } else {
                        (PAGE_COUNT - 1) as usize
                    },
                    images_registered: true,
                },
                None => *old(self),
            }),
    {
        match requested {
            None => false,
            Some(page) => {
                let register: bool = !self.images_registered;
                self.selected = if page < PAGE_COUNT {
                    page
                } else {
                    PAGE_COUNT - 1
                };
                self.is_open = true;
                self.images_registered = true;
                register
            },
        }
    }

    /// A tab was clicked.
    pub fn select(&mut self, page: usize)
        requires
            page < PAGE_COUNT,
        ensures
            final(self).valid(),
            *final(self) == (UserGuideModal { selected: page, ..*old(self) }),
    {
        self.selected = page;
    }
}

// ---------------------------------------------------------------------------------------
// Laws

/// What a text begins with, after a replacement, was there before it, unless it shares a
/// character with the start of the replacement.
proof fn lemma_start_was_there(s: Seq<char>, pat: Seq<char>, with: Seq<char>, x: Seq<char>)
    requires
        pat.len() > 0,
        with.len() > 0,
        !x.contains(with[0]),
        text::starts_with(text::replaced(s, pat, with), x),
    ensures
        text::starts_with(s, x),
    decreases s.len(),
{
    let out = text::replaced(s, pat, with);
    assert(out.subrange(0, x.len() as int) == x);
    if x.len() == 0 {
        assert(s.subrange(0, 0) =~= x);
    } else if s.len() == 0 {
        assert(out =~= s);
    } else if text::starts_with(s, pat) {
        assert(out[0] == with[0]);
        assert(x[0] == out.subrange(0, x.len() as int)[0]);
        assert(x.contains(x[0]));
    } else {
        let rest = s.skip(1);
        let rest_out = text::replaced(rest, pat, with);
        let tail = x.skip(1);
        assert(out =~= seq![s[0]] + rest_out);
        assert(x[0] == out.subrange(0, x.len() as int)[0]);
        assert(rest_out.subrange(0, tail.len() as int) =~= tail) by {
            assert forall|i: int| 0 <= i < tail.len() implies rest_out[i] == tail[i] by {
                assert(out[i + 1] == rest_out[i]);
                assert(out.subrange(0, x.len() as int)[i + 1] == x[i + 1]);
            }
        }
        assert forall|i: int| 0 <= i < tail.len() implies tail[i] != with[0] by {
            assert(x.contains(x[i + 1]));
        }
        lemma_start_was_there(rest, pat, with, tail);
        assert(rest.subrange(0, tail.len() as int) == tail);
        assert(s.subrange(0, x.len() as int) =~= x) by {
            assert forall|i: int| 0 <= i < x.len() implies s[i] == x[i] by {
                if i > 0 {
                    assert(rest.subrange(0, tail.len() as int)[i - 1] == tail[i - 1]);
                }
            }
        }
    }
}

/// A replacement brings forth no text that was not there, if neither begins with a character
/// of the other, and leaves none of the text that it replaces.
proof fn lemma_replacement_is_clean(s: Seq<char>, pat: Seq<char>, with: Seq<char>, x: Seq<char>)
    requires
        pat.len() > 0,
        with.len() > 0,
        x.len() > 0,
        !x.contains(with[0]),
        !with.contains(x[0]),
        x == pat || !text::occurs_in(s, x),
    ensures
        !text::occurs_in(text::replaced(s, pat, with), x),
    decreases s.len(),
{
    let out = text::replaced(s, pat, with);
    assert forall|at: int| 0 <= at implies !#[trigger] text::occurs_at(out, x, at) by {
        if text::occurs_at(out, x, at) {
            assert(out.subrange(at, at + x.len()) == x);
            assert(x[0] == out.subrange(at, at + x.len())[0]);
            assert(x.contains(x[0]));
            if s.len() == 0 {
                assert(out =~= s);
            } else if text::starts_with(s, pat) {
                let rest = s.skip(pat.len() as int);
                assert(out =~= with + text::replaced(rest, pat, with));
                if at < with.len() {
                    assert(out[at] == with[at]);
                    assert(with.contains(with[at]));
                } else {
                    lemma_part_has_none(s, x, pat.len() as int);
                    lemma_replacement_is_clean(rest, pat, with, x);
                    lemma_occurs_behind(with, text::replaced(rest, pat, with), x, at);
                }
            } else if at == 0 {
                lemma_start_was_there(s, pat, with, x);
                assert(text::occurs_at(s, x, 0));
            } else {
                let rest = s.skip(1);
                assert(out =~= seq![s[0]] + text::replaced(rest, pat, with));
                lemma_part_has_none(s, x, 1);
                lemma_replacement_is_clean(rest, pat, with, x);
                lemma_occurs_behind(seq![s[0]], text::replaced(rest, pat, with), x, at);
            }
        }
    }
}

/// What is not in a text is not in its end.
proof fn lemma_part_has_none(s: Seq<char>, x: Seq<char>, n: int)
    requires
        0 <= n <= s.len(),
    ensures
        text::occurs_in(s.skip(n), x) ==> text::occurs_in(s, x),
{
    if text::occurs_in(s.skip(n), x) {
        let at = choose|at: int| 0 <= at && #[trigger] text::occurs_at(s.skip(n), x, at);
        assert(s.subrange(n + at, n + at + x.len()) =~= s.skip(n).subrange(at, at + x.len()));
        assert(text::occurs_at(s, x, n + at));
    }
}

/// What occurs behind the first of two texts occurs in the second.
proof fn lemma_occurs_behind(a: Seq<char>, b: Seq<char>, x: Seq<char>, at: int)
    requires
        a.len() <= at,
        text::occurs_at(a + b, x, at),
    ensures
        text::occurs_in(b, x),
{
    assert(b.subrange(at - a.len(), at - a.len() + x.len()) =~= (a + b).subrange(
        at,
        at + x.len(),
    ));
    assert(text::occurs_at(b, x, at - a.len()));
}

/// No image path is left that was not rewritten to the embedded bytes, whatever the page.
proof fn lemma_no_image_path(s: Seq<char>)
    ensures
        !text::occurs_in(text::replaced(s, image_link(), embedded_link()), image_link()),
    decreases s.len(),
{
    reveal_strlit("](images/");
    reveal_strlit("](bytes://user-guide/images/");
    let pat = image_link();
    let with = embedded_link();
    let out = text::replaced(s, pat, with);
    assert forall|at: int| 0 <= at implies !#[trigger] text::occurs_at(out, pat, at) by {
        if text::occurs_at(out, pat, at) {
            let piece = out.subrange(at, at + pat.len());
            assert(piece == pat);
            assert(piece[0] == ']' && piece[2] == 'i');
            assert(out[at] == ']' && out[at + 2] == 'i');
            if s.len() == 0 {
                assert(out =~= s);
            } else if text::starts_with(s, pat) {
                let rest = s.skip(pat.len() as int);
                assert(out =~= with + text::replaced(rest, pat, with));
                if at < with.len() {
                    assert(out[at] == with[at]);
                    assert(at == 0);
                    assert(out[2] == with[2]);
                } else {
                    lemma_no_image_path(rest);
                    lemma_occurs_behind(with, text::replaced(rest, pat, with), pat, at);
                }
            } else {
                let rest = s.skip(1);
                let rest_out = text::replaced(rest, pat, with);
                assert(out =~= seq![s[0]] + rest_out);
                if at == 0 {
                    let tail = pat.skip(1);
                    assert(rest_out.subrange(0, tail.len() as int) =~= tail) by {
                        assert forall|i: int| 0 <= i < tail.len() implies rest_out[i] == tail[i] by {
                            assert(out[i + 1] == rest_out[i]);
                            assert(piece[i + 1] == pat[i + 1]);
                        }
                    }
                    lemma_start_was_there(rest, pat, with, tail);
                    assert(rest.subrange(0, tail.len() as int) == tail);
                    assert(s.subrange(0, pat.len() as int) =~= pat) by {
                        assert forall|i: int| 0 <= i < pat.len() implies s[i] == pat[i] by {
                            if i > 0 {
                                assert(rest.subrange(0, tail.len() as int)[i - 1] == tail[i - 1]);
                            }
                        }
                    }
                } else {
                    lemma_no_image_path(rest);
                    lemma_occurs_behind(seq![s[0]], rest_out, pat, at);
                }
            }
        }
    }
}

/// Whatever a page says, nothing in it refers to an image that is not embedded, nor links to
/// the other page, once it is processed.
pub proof fn law_processed_page_stands_alone(markdown: Seq<char>)
    ensures
        !text::occurs_in(processed(markdown), image_link()),
        !text::occurs_in(processed(markdown), page_link()),
{
    reveal_strlit("](images/");
    reveal_strlit("[01-viewer.md](01-viewer.md)");
    reveal_strlit("Viewer 篇");
    let first = text::replaced(markdown, image_link(), embedded_link());
    lemma_no_image_path(markdown);
    lemma_replacement_is_clean(first, page_link(), page_words(), image_link());
    lemma_replacement_is_clean(first, page_link(), page_words(), page_link());
}

/// A page without such links is left as it is. Else the path of an image leads to the embedded
/// one, and all around it is left as it is.
pub proof fn law_only_links_are_processed(markdown: Seq<char>, before: Seq<char>, behind: Seq<char>)
    requires
        !text::occurs_in(markdown, "[01-viewer.md](01-viewer.md)"@),
    ensures
        !text::occurs_in(markdown, "](images/"@) ==> processed(markdown) == markdown,
        ({
            &&& markdown == before + "](images/"@ + behind
            &&& forall|i: int|
                0 <= i < before.len() ==> !#[trigger] text::occurs_at(markdown, "](images/"@, i)
            &&& !text::occurs_in(behind, "](images/"@)
            &&& !text::occurs_in(
                before + "](bytes://user-guide/images/"@ + behind,
                "[01-viewer.md](01-viewer.md)"@,
            )
        }) ==> processed(markdown) == before + "](bytes://user-guide/images/"@ + behind,
{
    reveal_strlit("](images/");
    reveal_strlit("[01-viewer.md](01-viewer.md)");
    let link = "](images/"@;
    let with = "](bytes://user-guide/images/"@;
    let at = before.len() as int;
    text::law_replacing_goes_from_left_to_right(markdown, link, with, at);
    text::law_replacing_goes_from_left_to_right(markdown, page_link(), page_words(), 0);
    text::law_replacing_goes_from_left_to_right(behind, link, with, 0);
    let expected = before + with + behind;
    text::law_replacing_goes_from_left_to_right(expected, page_link(), page_words(), 0);
    if markdown == before + link + behind {
        assert(markdown.subrange(at, at + link.len()) =~= link);
        assert(text::occurs_at(markdown, link, at));
        assert(markdown.take(at) =~= before);
        assert(markdown.skip(at + link.len()) =~= behind);
    }
}

/// The image that a processed page asks for is the one that is embedded under its name.
pub proof fn law_embedded_images_are_found(name: &str, uri: String)
    requires
        call_ensures(image_uri, (name,), uri),
    ensures
        embedded_link() + name@ == "]("@ + uri@,
        uri@.len() > name@.len(),
        uri@.skip(uri@.len() - name@.len()) == name@,
{
    reveal_strlit("](bytes://user-guide/images/");
    reveal_strlit("bytes://user-guide/images/");
    reveal_strlit("](");
    assert("](bytes://user-guide/images/"@ =~= "]("@ + "bytes://user-guide/images/"@);
    assert(embedded_link() + name@ =~= "]("@ + uri@);
    assert(uri@.skip(uri@.len() - name@.len()) =~= name@);
}

} // verus!
