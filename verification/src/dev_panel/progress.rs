//! How much of something has been loaded.
use vstd::prelude::*;
use vstd::string::*;

use crate::text;

verus! {

/// How much has been loaded, in bytes and in chunks.
#[derive(Clone, Copy, Debug, PartialEq, Eq, Structural)]
pub struct Progress {
    pub loaded_bytes: u64,
    pub total_bytes: u64,
    pub loaded_count: usize,
    pub total_count: usize,
}

/// A chunk: its size, and whether it is loaded.
pub type ChunkFact = (u64, bool);

/// The size of all chunks.
pub open spec fn total_size(chunks: Seq<ChunkFact>) -> nat
    decreases chunks.len(),
{
    if chunks.len() == 0 {
        0
    } else {
        total_size(chunks.drop_last()) + chunks.last().0 as nat
    }
}

/// The size of the chunks that are loaded.
pub open spec fn loaded_size(chunks: Seq<ChunkFact>) -> nat
    decreases chunks.len(),
{
    if chunks.len() == 0 {
        0
    } else {
        loaded_size(chunks.drop_last()) + if chunks.last().1 {
            chunks.last().0 as nat
        } else {
            0
        }
    }
}

/// The number of chunks that are loaded.
pub open spec fn loaded_number(chunks: Seq<ChunkFact>) -> nat
    decreases chunks.len(),
{
    if chunks.len() == 0 {
        0
    } else {
        loaded_number(chunks.drop_last()) + if chunks.last().1 {
            1nat
        } else {
            0
        }
    }
}

impl Progress {
    /// What has been added up is what these chunks come to.
    pub open spec fn sums_up(self, chunks: Seq<ChunkFact>) -> bool {
        &&& self.loaded_bytes == loaded_size(chunks)
        &&& self.total_bytes == total_size(chunks)
        &&& self.loaded_count == loaded_number(chunks)
        &&& self.total_count == chunks.len()
    }

    pub fn new() -> (r: Self)
        ensures
            r.sums_up(Seq::empty()),
    {
        Progress { loaded_bytes: 0, total_bytes: 0, loaded_count: 0, total_count: 0 }
    }

    /// Add a chunk.
    pub fn add(&mut self, size: u64, is_loaded: bool)
        requires
            old(self).total_bytes + size <= u64::MAX,
            old(self).total_count < usize::MAX,
            is_loaded ==> old(self).loaded_bytes + size <= u64::MAX && old(self).loaded_count
                < usize::MAX,
        ensures
            final(self).total_bytes == old(self).total_bytes + size,
            final(self).total_count == old(self).total_count + 1,
            final(self).loaded_bytes == old(self).loaded_bytes + if is_loaded {
                size as int
            } else {
                0
            },
            final(self).loaded_count == old(self).loaded_count + if is_loaded {
                1int
            } else {
                0
            },
    {
        self.total_bytes += size;
        self.total_count += 1;
        if is_loaded {
            self.loaded_bytes += size;
            self.loaded_count += 1;
        }
    }

    /// What some chunks come to.
    pub fn of_chunks(chunks: &Vec<ChunkFact>) -> (r: Self)
        requires
            total_size(chunks@) <= u64::MAX,
        ensures
            r.sums_up(chunks@),
            r.loaded_bytes <= r.total_bytes,
            r.loaded_count <= r.total_count,
    {
        let n: usize = chunks.len();
        let mut sum: Progress = Progress::new();
        let mut i: usize = 0;
        assert(chunks@.take(0) =~= Seq::empty());
        while i < n
            invariant
                i <= n,
                n == chunks@.len(),
                total_size(chunks@) <= u64::MAX,
                sum.sums_up(chunks@.take(i as int)),
                sum.loaded_bytes <= sum.total_bytes,
                sum.loaded_count <= sum.total_count,
            decreases n - i,
        {
            proof {
                assert(chunks@.take(i + 1).drop_last() =~= chunks@.take(i as int));
                lemma_part_is_smaller(chunks@, i + 1);
            }
            let (size, is_loaded) = chunks[i];
            sum.add(size, is_loaded);
            i += 1;
        }
        assert(chunks@.take(n as int) =~= chunks@);
        sum
    }

    /// In words. `loaded` and `total` are the bytes in words, `loaded_chunks` and
    /// `total_chunks` the numbers of chunks, and `percent` the share of the bytes that is
    /// loaded, in percent.
    pub fn value_text(
        &self,
        loaded: &str,
        total: &str,
        percent: &str,
        loaded_chunks: &str,
        total_chunks: &str,
    ) -> (r: String)
        ensures
            r@ == progress_words(
                *self,
                loaded@,
                total@,
                percent@,
                loaded_chunks@,
                total_chunks@,
            ),
    {
        let mut out: String = text::cat4(loaded, " / ", total, "（");
        if self.total_bytes > 0 {
            out.append(percent);
            out.append("%");
        } else {
            out.append("—");
        }
        out.append("，");
        out.append(loaded_chunks);
        out.append(" / ");
        out.append(total_chunks);
        out.append(" 个 chunk）");
        assert(out@ =~= progress_words(
            *self,
            loaded@,
            total@,
            percent@,
            loaded_chunks@,
            total_chunks@,
        ));
        out
    }
}

/// How much has been loaded, in words. Of nothing there is no share.
pub open spec fn progress_words(
    p: Progress,
    loaded: Seq<char>,
    total: Seq<char>,
    percent: Seq<char>,
    loaded_chunks: Seq<char>,
    total_chunks: Seq<char>,
) -> Seq<char> {
    loaded + " / "@ + total + "（"@ + (if p.total_bytes > 0 {
        percent + "%"@
    } else {
        "—"@
    }) + "，"@ + loaded_chunks + " / "@ + total_chunks + " 个 chunk）"@
}

proof fn lemma_part_is_smaller(chunks: Seq<ChunkFact>, n: int)
    requires
        0 <= n <= chunks.len(),
    ensures
        total_size(chunks.take(n)) <= total_size(chunks),
    decreases chunks.len(),
{
    if n < chunks.len() {
        lemma_part_is_smaller(chunks.drop_last(), n);
        assert(chunks.drop_last().take(n) =~= chunks.take(n));
    } else {
        assert(chunks.take(n) =~= chunks);
    }
}

// ---------------------------------------------------------------------------------------
// Laws

/// Taking a chunk out takes out what it comes to.
proof fn lemma_remove(chunks: Seq<ChunkFact>, at: int)
    requires
        0 <= at < chunks.len(),
    ensures
        total_size(chunks) == total_size(chunks.remove(at)) + chunks[at].0,
        loaded_size(chunks) == loaded_size(chunks.remove(at)) + if chunks[at].1 {
            chunks[at].0 as int
        } else {
            0
        },
        loaded_number(chunks) == loaded_number(chunks.remove(at)) + if chunks[at].1 {
            1int
        } else {
            0
        },
    decreases chunks.len(),
{
    if at == chunks.len() - 1 {
        assert(chunks.remove(at) =~= chunks.drop_last());
    } else {
        lemma_remove(chunks.drop_last(), at);
        assert(chunks.remove(at).drop_last() =~= chunks.drop_last().remove(at));
    }
}

/// The order in which chunks are added up makes no difference.
pub proof fn law_progress_is_independent_of_order(a: Seq<ChunkFact>, b: Seq<ChunkFact>)
    requires
        a.to_multiset() == b.to_multiset(),
    ensures
        total_size(a) == total_size(b),
        loaded_size(a) == loaded_size(b),
        loaded_number(a) == loaded_number(b),
        a.len() == b.len(),
    decreases a.len(),
{
    a.to_multiset_ensures();
    b.to_multiset_ensures();
    if a.len() > 0 {
        let last = a.last();
        assert(a.contains(last));
        assert(b.to_multiset().count(last) > 0);
        assert(b.contains(last));
        let at = choose|at: int| 0 <= at < b.len() && b[at] == last;
        let front = a.drop_last();
        let rest = b.remove(at);
        assert(front =~= a.remove(a.len() - 1));
        assert(front.to_multiset() =~= a.to_multiset().remove(last));
        assert(rest.to_multiset() =~= b.to_multiset().remove(last));
        law_progress_is_independent_of_order(front, rest);
        lemma_remove(b, at);
    }
}

/// Never more is loaded than there is.
pub proof fn law_loaded_is_part_of_total(chunks: Seq<ChunkFact>)
    ensures
        loaded_size(chunks) <= total_size(chunks),
        loaded_number(chunks) <= chunks.len(),
    decreases chunks.len(),
{
    if chunks.len() > 0 {
        law_loaded_is_part_of_total(chunks.drop_last());
    }
}

/// Sizes and numbers are added up chunk by chunk, and only chunks that are loaded count as
/// loaded.
pub proof fn law_chunks_are_added_up(a: Seq<ChunkFact>, b: Seq<ChunkFact>, size: u64, loaded: bool)
    ensures
        total_size(a + b) == total_size(a) + total_size(b),
        loaded_size(a + b) == loaded_size(a) + loaded_size(b),
        loaded_number(a + b) == loaded_number(a) + loaded_number(b),
        total_size(seq![(size, loaded)]) == size,
        loaded_size(seq![(size, loaded)]) == (if loaded {
            size as nat
        } else {
            0
        }),
        loaded_number(seq![(size, loaded)]) == (if loaded {
            1nat
        } else {
            0
        }),
    decreases b.len(),
{
    if b.len() > 0 {
        law_chunks_are_added_up(a, b.drop_last(), size, loaded);
        assert((a + b).drop_last() =~= a + b.drop_last());
        assert((a + b).last() == b.last());
    } else {
        assert(a + b =~= a);
    }
    let one = seq![(size, loaded)];
    assert(one.drop_last() =~= Seq::empty());
    assert(one.last() == (size, loaded));
    assert(total_size(Seq::empty()) == 0 && loaded_size(Seq::empty()) == 0 && loaded_number(
        Seq::empty(),
    ) == 0);
}

} // verus!
