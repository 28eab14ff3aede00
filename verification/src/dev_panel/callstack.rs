//! Callstacks in a few words.
use vstd::prelude::*;
use vstd::string::*;

use crate::text;

verus! {

/// What callstacks are told by: what occurs in them, and what that is about. What is very
/// general comes last.
pub open spec fn patterns() -> Seq<(Seq<char>, Seq<char>)> {
    seq![
        ("App::receive_messages"@, "App::receive_messages"@),
        ("w_store::store::ComponentBucket>::archive"@, "archive"@),
        ("ChunkStore>::insert"@, "ChunkStore"@),
        ("EntityDb"@, "EntityDb"@),
        ("EntityTree"@, "EntityTree"@),
        ("::LogMsg>::deserialize"@, "LogMsg"@),
        ("::TimePoint>::deserialize"@, "TimePoint"@),
        ("ImageCache"@, "ImageCache"@),
        ("gltf"@, "gltf"@),
        ("tokio::sync::broadcast::channel"@, "channel"@),
        ("grpc"@, "grpc"@),
        ("image::image"@, "image"@),
        ("ImageDecodeCache"@, "ImageDecodeCache"@),
        ("epaint::text::text_layout"@, "text_layout"@),
        ("egui_wgpu"@, "egui_wgpu"@),
        ("decode_arrow"@, "decode_arrow"@),
        ("transform_resolution_cache"@, "transform_resolution_cache"@),
        ("wgpu_hal"@, "wgpu_hal"@),
        ("prepare_staging_buffer"@, "prepare_staging_buffer"@),
        ("crossbeam::channel::Sender"@, "crossbeam::channel::Sender"@),
        ("epaint::texture_atlas"@, "egui font texture"@),
        ("alloc::collections::btree"@, "BTree"@),
        ("std::collections::hash::map::HashMap<K,V,S>"@, "HashMap"@),
    ]
}

/// What a callstack is about, going by the first `n` patterns.
pub open spec fn summaries(callstack: Seq<char>, n: int) -> Seq<Seq<char>>
    decreases n,
{
    if n <= 0 {
        Seq::empty()
    } else {
        let before = summaries(callstack, n - 1);
        if text::occurs_in(callstack, patterns()[n - 1].0) {
            before.push(patterns()[n - 1].1)
        } else {
            before
        }
    }
}

fn pattern_list() -> (r: Vec<(&'static str, &'static str)>)
    ensures
        r@.len() == patterns().len(),
        forall|i: int|
            0 <= i < r@.len() ==> (#[trigger] r@[i]).0@ == patterns()[i].0 && r@[i].1@
                == patterns()[i].1,
{
    let list: Vec<(&'static str, &'static str)> = vec![
        ("App::receive_messages", "App::receive_messages"),
        ("w_store::store::ComponentBucket>::archive", "archive"),
        ("ChunkStore>::insert", "ChunkStore"),
        ("EntityDb", "EntityDb"),
        ("EntityTree", "EntityTree"),
        ("::LogMsg>::deserialize", "LogMsg"),
        ("::TimePoint>::deserialize", "TimePoint"),
        ("ImageCache", "ImageCache"),
        ("gltf", "gltf"),
        ("tokio::sync::broadcast::channel", "channel"),
        ("grpc", "grpc"),
        ("image::image", "image"),
        ("ImageDecodeCache", "ImageDecodeCache"),
        ("epaint::text::text_layout", "text_layout"),
        ("egui_wgpu", "egui_wgpu"),
        ("decode_arrow", "decode_arrow"),
        ("transform_resolution_cache", "transform_resolution_cache"),
        ("wgpu_hal", "wgpu_hal"),
        ("prepare_staging_buffer", "prepare_staging_buffer"),
        ("crossbeam::channel::Sender", "crossbeam::channel::Sender"),
        ("epaint::texture_atlas", "egui font texture"),
        ("alloc::collections::btree", "BTree"),
        ("std::collections::hash::map::HashMap<K,V,S>", "HashMap"),
    ];
    list
}

/// A callstack in a few words: what it is about, in the order of the patterns.
pub fn summarize_callstack(callstack: &str) -> (r: String)
    ensures
        r@ == text::joined(summaries(callstack@, patterns().len() as int), ", "@),
{
    let list: Vec<(&'static str, &'static str)> = pattern_list();
    let n: usize = list.len();
    let mut found: Vec<&str> = Vec::new();
    let mut i: usize = 0;
    assert(text::str_views(found@) =~= summaries(callstack@, 0));
    while i < n
        invariant
            i <= n,
            n == list@.len(),
            n == patterns().len(),
            forall|j: int|
                0 <= j < n ==> (#[trigger] list@[j]).0@ == patterns()[j].0 && list@[j].1@
                    == patterns()[j].1,
            text::str_views(found@) == summaries(callstack@, i as int),
        decreases n - i,
    {
        let (pattern, summary) = list[i];
        if text::contains_text(callstack, pattern) {
            let ghost before = found@;
            found.push(summary);
            assert(text::str_views(found@) =~= text::str_views(before).push(summary@));
        }
        i += 1;
    }
    text::join_texts(&found, ", ")
}

/// Whether one of the patterns says this of a callstack.
pub open spec fn tells(callstack: Seq<char>, i: int, summary: Seq<char>) -> bool {
    text::occurs_in(callstack, patterns()[i].0) && patterns()[i].1 == summary
}

/// What a callstack is said to be about is what the patterns in it say, no more and no less.
pub proof fn law_summary_is_complete(callstack: Seq<char>, n: int, summary: Seq<char>)
    requires
        0 <= n <= patterns().len(),
    ensures
        summaries(callstack, n).contains(summary) <==> exists|i: int|
            0 <= i < n && #[trigger] tells(callstack, i, summary),
    decreases n,
{
    if n > 0 {
        law_summary_is_complete(callstack, n - 1, summary);
        let all = summaries(callstack, n);
        let before = summaries(callstack, n - 1);
        if all.contains(summary) {
            let k = choose|k: int| 0 <= k < all.len() && all[k] == summary;
            if k < before.len() {
                assert(before[k] == summary);
                let i = choose|i: int| 0 <= i < n - 1 && #[trigger] tells(callstack, i, summary);
                assert(tells(callstack, i, summary));
            } else {
                assert(tells(callstack, n - 1, summary));
            }
        }
        if exists|i: int| 0 <= i < n && #[trigger] tells(callstack, i, summary) {
            let i = choose|i: int| 0 <= i < n && #[trigger] tells(callstack, i, summary);
            if i < n - 1 {
                let k = choose|k: int| 0 <= k < before.len() && before[k] == summary;
                assert(all[k] == summary);
            } else {
                assert(all[all.len() - 1] == summary);
            }
        }
    }
}

/// What the summaries are told apart by.
spec fn summary_marks() -> Seq<(nat, char, char, char)> {
    seq![
        (21, 'A', 'c', 'v'),
        (7, 'a', 'c', 'h'),
        (10, 'C', 'n', 'S'),
        (8, 'E', 't', 't'),
        (10, 'E', 'i', 'y'),
        (6, 'L', 'g', 'M'),
        (9, 'T', 'e', 'P'),
        (10, 'I', 'g', 'C'),
        (4, 'g', 'l', 't'),
        (7, 'c', 'a', 'n'),
        (4, 'g', 'r', 'p'),
        (5, 'i', 'm', 'a'),
        (16, 'I', 'D', 'o'),
        (11, 't', 't', 'l'),
        (9, 'e', 'i', '_'),
        (12, 'd', 'd', '_'),
        (26, 't', 'm', 'o'),
        (8, 'w', 'p', '_'),
        (22, 'p', '_', 'g'),
        (26, 'c', 'm', 'a'),
        (17, 'e', 'f', 't'),
        (5, 'B', 'T', 'r'),
        (7, 'H', 's', 'h'),
    ]
}

proof fn lemma_summary_marks(i: int)
    requires
        0 <= i < patterns().len(),
    ensures
        summary_marks().len() == patterns().len(),
        text::marks(patterns()[i].1) == summary_marks()[i],
{
    reveal_strlit("App::receive_messages");
    reveal_strlit("archive");
    reveal_strlit("ChunkStore");
    reveal_strlit("EntityDb");
    reveal_strlit("EntityTree");
    reveal_strlit("LogMsg");
    reveal_strlit("TimePoint");
    reveal_strlit("ImageCache");
    reveal_strlit("gltf");
    reveal_strlit("channel");
    reveal_strlit("grpc");
    reveal_strlit("image");
    reveal_strlit("ImageDecodeCache");
    reveal_strlit("text_layout");
    reveal_strlit("egui_wgpu");
    reveal_strlit("decode_arrow");
    reveal_strlit("transform_resolution_cache");
    reveal_strlit("wgpu_hal");
    reveal_strlit("prepare_staging_buffer");
    reveal_strlit("crossbeam::channel::Sender");
    reveal_strlit("egui font texture");
    reveal_strlit("BTree");
    reveal_strlit("HashMap");
}

/// Nothing is said twice of a callstack.
pub proof fn law_nothing_is_said_twice(callstack: Seq<char>, n: int)
    requires
        0 <= n <= patterns().len(),
    ensures
        summaries(callstack, n).no_duplicates(),
    decreases n,
{
    if n > 0 {
        let before = summaries(callstack, n - 1);
        let summary = patterns()[n - 1].1;
        law_nothing_is_said_twice(callstack, n - 1);
        law_summary_is_complete(callstack, n - 1, summary);
        if before.contains(summary) {
            let i = choose|i: int| 0 <= i < n - 1 && #[trigger] tells(callstack, i, summary);
            lemma_summary_marks(i);
            lemma_summary_marks(n - 1);
        }
    }
}

/// What a callstack tells is listed in the order of the patterns: further patterns only add to
/// the end.
pub proof fn law_summary_keeps_the_order(callstack: Seq<char>, m: int, n: int)
    requires
        0 <= m <= n <= patterns().len(),
    ensures
        summaries(callstack, m).len() <= summaries(callstack, n).len(),
        summaries(callstack, n).take(summaries(callstack, m).len() as int) == summaries(
            callstack,
            m,
        ),
    decreases n,
{
    let some = summaries(callstack, m);
    let all = summaries(callstack, n);
    if m < n {
        law_summary_keeps_the_order(callstack, m, n - 1);
        let before = summaries(callstack, n - 1);
        assert(all.take(some.len() as int) =~= before.take(some.len() as int));
    } else {
        assert(all.take(some.len() as int) =~= some);
    }
}

} // verus!
