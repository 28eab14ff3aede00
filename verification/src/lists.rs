//! Facts about sequences.
use vstd::prelude::*;

verus! {

/// Filtering keeps what passes, nothing else, and no duplicate comes of it.
pub proof fn lemma_filter<A>(s: Seq<A>, pred: spec_fn(A) -> bool)
    ensures
        forall|x: A| #[trigger] s.filter(pred).contains(x) <==> s.contains(x) && pred(x),
        s.no_duplicates() ==> s.filter(pred).no_duplicates(),
    decreases s.len(),
{
    reveal(Seq::filter);
    if s.len() > 0 {
        let front = s.drop_last();
        lemma_filter(front, pred);
        let kept = front.filter(pred);
        assert(s =~= front.push(s.last()));
        assert forall|x: A| #[trigger] s.filter(pred).contains(x) <==> s.contains(x) && pred(x) by {
            if s.contains(x) && x != s.last() {
                let i = choose|i: int| 0 <= i < s.len() && s[i] == x;
                assert(front[i] == x);
                assert(front.contains(x));
            }
            if front.contains(x) {
                let i = choose|i: int| 0 <= i < front.len() && front[i] == x;
                assert(s[i] == x);
            }
            assert(s[s.len() - 1] == s.last());
            if kept.contains(x) {
                let i = choose|i: int| 0 <= i < kept.len() && kept[i] == x;
                assert(s.filter(pred)[i] == x);
            }
            if pred(s.last()) {
                assert(s.filter(pred)[kept.len() as int] == s.last());
            }
            if s.filter(pred).contains(x) {
                let i = choose|i: int| 0 <= i < s.filter(pred).len() && s.filter(pred)[i] == x;
                if i < kept.len() {
                    assert(kept[i] == x);
                    assert(kept.contains(x));
                }
            }
        }
        if s.no_duplicates() {
            assert(front.no_duplicates());
            assert(!front.contains(s.last()));
            assert(!kept.contains(s.last()));
        }
    }
}

} // verus!
