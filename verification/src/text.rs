//! Operations on text, stated over the sequence of characters it holds.
use vstd::prelude::*;
use vstd::string::*;

verus! {

/// `String::push` appends one character.
pub assume_specification[ String::push ](s: &mut String, c: char)
    ensures
        final(s)@ == old(s)@.push(c),
;

/// A text in quotation marks, with what cannot be printed escaped.
pub uninterp spec fn quoted(s: Seq<char>) -> Seq<char>;

/// The `Debug` of `str`: the text in quotation marks, escaped. Which characters it escapes goes
/// by Unicode, and is left unsaid.
#[verifier::external_body]
pub(crate) fn std_quoted(s: &str) -> (r: String)
    ensures
        r@ == quoted(s@),
{
    format!("{s:?}")
}

/// The characters of `s`, by index.
pub fn chars_of(s: &str) -> (v: Vec<char>)
    ensures
        v@ == s@,
{
    let mut v: Vec<char> = Vec::new();
    for c in it: s.chars()
        invariant
            it.seq() == s@,
            v@ == s@.take(it.index()),
    {
        v.push(c);
        assert(s@.take(it.index() + 1) == s@.take(it.index()).push(c));
    }
    assert(s@.take(s@.len() as int) == s@);
    v
}

/// The views of a list of strings.
pub open spec fn views(list: Seq<String>) -> Seq<Seq<char>> {
    Seq::new(list.len(), |i: int| list[i]@)
}

/// The view of an optional string.
pub open spec fn opt_view(s: Option<String>) -> Option<Seq<char>> {
    match s {
        Some(s) => Some(s@),
        None => None,
    }
}

/// Two texts, one behind the other.
pub fn cat2(a: &str, b: &str) -> (r: String)
    ensures
        r@ == a@ + b@,
{
    let mut out: String = a.to_owned();
    out.append(b);
    out
}

/// Three texts, one behind the other.
pub fn cat3(a: &str, b: &str, c: &str) -> (r: String)
    ensures
        r@ == a@ + b@ + c@,
{
    let mut out: String = cat2(a, b);
    out.append(c);
    out
}

/// Four texts, one behind the other.
pub fn cat4(a: &str, b: &str, c: &str, d: &str) -> (r: String)
    ensures
        r@ == a@ + b@ + c@ + d@,
{
    let mut out: String = cat3(a, b, c);
    out.append(d);
    out
}

/// Five texts, one behind the other.
pub fn cat5(a: &str, b: &str, c: &str, d: &str, e: &str) -> (r: String)
    ensures
        r@ == a@ + b@ + c@ + d@ + e@,
{
    let mut out: String = cat4(a, b, c, d);
    out.append(e);
    out
}

/// Whether two texts hold the same characters.
pub fn same_text(a: &str, b: &str) -> (r: bool)
    ensures
        r == (a@ == b@),
{
    let x: Vec<char> = chars_of(a);
    let y: Vec<char> = chars_of(b);
    if x.len() != y.len() {
        return false;
    }
    let mut i: usize = 0;
    while i < x.len()
        invariant
            x@ == a@,
            y@ == b@,
            x@.len() == y@.len(),
            i <= x@.len(),
            forall|j: int| 0 <= j < i ==> x@[j] == y@[j],
        decreases x@.len() - i,
    {
        if x[i] != y[i] {
            return false;
        }
        i += 1;
    }
    assert(a@ =~= b@);
    true
}

// ---------------------------------------------------------------------------------------
// Trimming

/// `s` without the `c`s at its end.
pub open spec fn without_trailing(s: Seq<char>, c: char) -> Seq<char>
    decreases s.len(),
{
    if s.len() > 0 && s.last() == c {
        without_trailing(s.drop_last(), c)
    } else {
        s
    }
}

/// `without_trailing` keeps a prefix that does not end in `c`, and drops nothing else.
pub proof fn lemma_without_trailing(s: Seq<char>, c: char)
    ensures
        without_trailing(s, c).len() <= s.len(),
        without_trailing(s, c) == s.take(without_trailing(s, c).len() as int),
        without_trailing(s, c).len() > 0 ==> without_trailing(s, c).last() != c,
        forall|i: int| without_trailing(s, c).len() <= i < s.len() ==> s[i] == c,
    decreases s.len(),
{
    if s.len() > 0 && s.last() == c {
        lemma_without_trailing(s.drop_last(), c);
        assert(s.drop_last().take(without_trailing(s, c).len() as int) == s.take(
            without_trailing(s, c).len() as int,
        ));
        assert forall|i: int| without_trailing(s, c).len() <= i < s.len() implies s[i] == c by {
            if i < s.len() - 1 {
                assert(s.drop_last()[i] == c);
            }
        }
    } else {
        assert(s.take(s.len() as int) == s);
    }
}

/// `s` without the `c`s at its end.
pub fn trim_end_char(s: &str, c: char) -> (r: &str)
    ensures
        r@ == without_trailing(s@, c),
{
    let v: Vec<char> = chars_of(s);
    let mut n: usize = v.len();
    assert(s@.take(n as int) == s@);
    while n > 0 && v[n - 1] == c
        invariant
            v@ == s@,
            n <= v@.len(),
            without_trailing(s@.take(n as int), c) == without_trailing(s@, c),
        decreases n,
    {
        assert(s@.take(n as int).drop_last() == s@.take(n - 1));
        n -= 1;
    }
    s.substring_char(0, n)
}

/// Whether `c` has the Unicode property `White_Space`.
pub open spec fn is_whitespace(c: char) -> bool {
    ||| '\u{9}' <= c <= '\u{d}'
    ||| c == ' '
    ||| c == '\u{85}'
    ||| c == '\u{a0}'
    ||| c == '\u{1680}'
    ||| '\u{2000}' <= c <= '\u{200a}'
    ||| c == '\u{2028}'
    ||| c == '\u{2029}'
    ||| c == '\u{202f}'
    ||| c == '\u{205f}'
    ||| c == '\u{3000}'
}

pub fn char_is_whitespace(c: char) -> (r: bool)
    ensures
        r == is_whitespace(c),
{
    ('\u{9}' <= c && c <= '\u{d}') || c == ' ' || c == '\u{85}' || c == '\u{a0}' || c == '\u{1680}'
        || ('\u{2000}' <= c && c <= '\u{200a}') || c == '\u{2028}' || c == '\u{2029}' || c
        == '\u{202f}' || c == '\u{205f}' || c == '\u{3000}'
}

/// `s` without the white space at its end.
pub open spec fn trimmed_end(s: Seq<char>) -> Seq<char>
    decreases s.len(),
{
    if s.len() > 0 && is_whitespace(s.last()) {
        trimmed_end(s.drop_last())
    } else {
        s
    }
}

/// `s` without the white space at its start.
pub open spec fn trimmed_start(s: Seq<char>) -> Seq<char>
    decreases s.len(),
{
    if s.len() > 0 && is_whitespace(s[0]) {
        trimmed_start(s.skip(1))
    } else {
        s
    }
}

/// `s` without the white space at both ends.
pub open spec fn trimmed(s: Seq<char>) -> Seq<char> {
    trimmed_end(trimmed_start(s))
}

/// `t` is `s` without the whitespace around it: what `s` holds besides is whitespace, and `t`
/// neither begins nor ends with any.
pub open spec fn is_core_of(t: Seq<char>, s: Seq<char>) -> bool {
    exists|lo: int, hi: int| #[trigger] is_core_at(t, s, lo, hi)
}

/// The same, from `lo` to `hi`.
pub open spec fn is_core_at(t: Seq<char>, s: Seq<char>, lo: int, hi: int) -> bool {
    &&& 0 <= lo <= hi <= s.len()
    &&& t == s.subrange(lo, hi)
    &&& forall|i: int| 0 <= i < lo ==> is_whitespace(#[trigger] s[i])
    &&& forall|i: int| hi <= i < s.len() ==> is_whitespace(#[trigger] s[i])
    &&& t.len() > 0 ==> !is_whitespace(t[0]) && !is_whitespace(t.last())
}

/// Trimming takes away the whitespace around a text, all of it, and nothing else.
pub proof fn law_trimming_leaves_the_core(s: Seq<char>)
    ensures
        is_core_of(trimmed(s), s),
        forall|t: Seq<char>| #[trigger] is_core_of(t, s) ==> t == trimmed(s),
{
    lemma_trimmed_start(s);
    let start = trimmed_start(s);
    lemma_trimmed_end(start);
    let t = trimmed(s);
    let lo = s.len() - start.len();
    let hi = lo + t.len();
    assert(t == s.subrange(lo, hi));
    assert forall|i: int| hi <= i < s.len() implies is_whitespace(#[trigger] s[i]) by {
        assert(start[i - lo] == s[i]);
    }
    if t.len() > 0 {
        assert(t[0] == start[0]);
    }
    assert(is_core_at(t, s, lo, hi));
    assert forall|other: Seq<char>| #[trigger] is_core_of(other, s) implies other == t by {
        let (l, h) = choose|l: int, h: int| #[trigger] is_core_at(other, s, l, h);
        if t.len() > 0 {
            assert(t[0] == s[lo] && t.last() == s[hi - 1]);
        }
        if other.len() > 0 {
            assert(other[0] == s[l] && other.last() == s[h - 1]);
        }
        assert(other =~= t);
    }
}

/// Whitespace around a text that neither begins nor ends with any is what trimming takes away.
pub proof fn lemma_trimmed_is(before: Seq<char>, core: Seq<char>, behind: Seq<char>)
    requires
        forall|i: int| 0 <= i < before.len() ==> is_whitespace(#[trigger] before[i]),
        forall|i: int| 0 <= i < behind.len() ==> is_whitespace(#[trigger] behind[i]),
        core.len() > 0 ==> !is_whitespace(core[0]) && !is_whitespace(core.last()),
    ensures
        trimmed(before + core + behind) == core,
{
    let s = before + core + behind;
    let lo = before.len() as int;
    let hi = lo + core.len();
    assert(s.subrange(lo, hi) =~= core);
    assert forall|i: int| 0 <= i < lo implies is_whitespace(#[trigger] s[i]) by {
        assert(s[i] == before[i]);
    }
    assert forall|i: int| hi <= i < s.len() implies is_whitespace(#[trigger] s[i]) by {
        assert(s[i] == behind[i - hi]);
    }
    assert(is_core_at(core, s, lo, hi));
    assert(is_core_of(core, s));
    law_trimming_leaves_the_core(s);
}

proof fn lemma_trimmed_start(s: Seq<char>)
    ensures
        trimmed_start(s).len() <= s.len(),
        trimmed_start(s) == s.skip(s.len() - trimmed_start(s).len()),
        trimmed_start(s).len() > 0 ==> !is_whitespace(trimmed_start(s)[0]),
        forall|i: int|
            0 <= i < s.len() - trimmed_start(s).len() ==> is_whitespace(#[trigger] s[i]),
    decreases s.len(),
{
    if s.len() > 0 && is_whitespace(s[0]) {
        let rest = s.skip(1);
        lemma_trimmed_start(rest);
        assert(trimmed_start(s) =~= s.skip(s.len() - trimmed_start(s).len()));
        assert forall|i: int| 0 <= i < s.len() - trimmed_start(s).len() implies is_whitespace(
            #[trigger] s[i],
        ) by {
            if i > 0 {
                assert(rest[i - 1] == s[i]);
            }
        }
    } else {
        assert(s.skip(0) =~= s);
    }
}

proof fn lemma_trimmed_end(s: Seq<char>)
    ensures
        trimmed_end(s).len() <= s.len(),
        trimmed_end(s) == s.take(trimmed_end(s).len() as int),
        trimmed_end(s).len() > 0 ==> !is_whitespace(trimmed_end(s).last()),
        forall|i: int| trimmed_end(s).len() <= i < s.len() ==> is_whitespace(#[trigger] s[i]),
    decreases s.len(),
{
    if s.len() > 0 && is_whitespace(s.last()) {
        let rest = s.drop_last();
        lemma_trimmed_end(rest);
        assert(trimmed_end(s) =~= s.take(trimmed_end(s).len() as int));
        assert forall|i: int| trimmed_end(s).len() <= i < s.len() implies is_whitespace(
            #[trigger] s[i],
        ) by {
            if i < s.len() - 1 {
                assert(rest[i] == s[i]);
            }
        }
    } else {
        assert(s.take(s.len() as int) =~= s);
    }
}

/// `s` without the white space at both ends.
pub fn trim(s: &str) -> (r: &str)
    ensures
        r@ == trimmed(s@),
{
    let v: Vec<char> = chars_of(s);
    let mut lo: usize = 0;
    assert(s@.skip(0) == s@);
    while lo < v.len() && char_is_whitespace(v[lo])
        invariant
            v@ == s@,
            lo <= v@.len(),
            trimmed_start(s@.skip(lo as int)) == trimmed_start(s@),
        decreases v@.len() - lo,
    {
        assert(s@.skip(lo as int).skip(1) == s@.skip(lo + 1));
        lo += 1;
    }
    assert(trimmed_start(s@) == s@.skip(lo as int));
    let mut hi: usize = v.len();
    assert(s@.subrange(lo as int, hi as int) == s@.skip(lo as int));
    while hi > lo && char_is_whitespace(v[hi - 1])
        invariant
            v@ == s@,
            lo <= hi <= v@.len(),
            trimmed_start(s@) == s@.skip(lo as int),
            trimmed_end(s@.subrange(lo as int, hi as int)) == trimmed(s@),
        decreases hi,
    {
        assert(s@.subrange(lo as int, hi as int).drop_last() == s@.subrange(lo as int, hi - 1));
        hi -= 1;
    }
    s.substring_char(lo, hi)
}

// ---------------------------------------------------------------------------------------
// Splitting at a character

/// What follows the last `c` in `s`: all of `s` where there is none.
pub open spec fn after_last(s: Seq<char>, c: char) -> Seq<char>
    decreases s.len(),
{
    if s.len() == 0 || s.last() == c {
        Seq::empty()
    } else {
        after_last(s.drop_last(), c).push(s.last())
    }
}

/// `after_last` is the longest suffix that does not hold `c`.
pub proof fn lemma_after_last(s: Seq<char>, c: char)
    ensures
        after_last(s, c).len() <= s.len(),
        after_last(s, c) == s.skip(s.len() - after_last(s, c).len()),
        !after_last(s, c).contains(c),
        after_last(s, c).len() < s.len() ==> s[s.len() - after_last(s, c).len() - 1] == c,
        s.contains(c) <==> after_last(s, c).len() < s.len(),
    decreases s.len(),
{
    if s.len() == 0 {
        assert(s.skip(0) == Seq::<char>::empty());
    } else if s.last() == c {
        assert(s.skip(s.len() as int) == Seq::<char>::empty());
        assert(s[s.len() - 1] == c);
    } else {
        let t = s.drop_last();
        lemma_after_last(t, c);
        let r = after_last(t, c);
        assert(after_last(s, c) == s.skip(s.len() - r.len() - 1));
        assert forall|i: int| 0 <= i < after_last(s, c).len() implies after_last(s, c)[i] != c by {
            if i < r.len() {
                assert(r.contains(r[i]));
            }
        }
        if s.contains(c) {
            let k = choose|k: int| 0 <= k < s.len() && s[k] == c;
            assert(t[k] == c);
            assert(t.contains(c));
        }
    }
}

/// However many `c`s a text ends in, what stands between the last `c` before them and them is
/// found.
pub proof fn law_last_segment_is_found(
    before: Seq<char>,
    name: Seq<char>,
    end: Seq<char>,
    c: char,
)
    requires
        name.len() > 0,
        !name.contains(c),
        forall|i: int| 0 <= i < end.len() ==> end[i] == c,
    ensures
        after_last(without_trailing(name + end, c), c) == name,
        after_last(without_trailing(before + seq![c] + name + end, c), c) == name,
        without_trailing(name + end, c) == name,
        without_trailing(before + seq![c] + name + end, c) == before + seq![c] + name,
{
    assert(name.last() != c) by {
        assert(name.contains(name.last()));
    }
    lemma_trailing_is(name, end, c);
    lemma_trailing_is(before + seq![c] + name, end, c);
    lemma_after_last(name, c);
    lemma_last_is(before, name, c);
}

/// The `c`s at the end are dropped, however many there are.
pub proof fn lemma_trailing_is(s: Seq<char>, end: Seq<char>, c: char)
    requires
        s.len() > 0,
        s.last() != c,
        forall|i: int| 0 <= i < end.len() ==> end[i] == c,
    ensures
        without_trailing(s + end, c) == s,
    decreases end.len(),
{
    if end.len() == 0 {
        assert(s + end =~= s);
    } else {
        assert((s + end).drop_last() =~= s + end.drop_last());
        lemma_trailing_is(s, end.drop_last(), c);
    }
}

/// What follows the last `c` is found wherever it stands.
pub proof fn lemma_last_is(before: Seq<char>, name: Seq<char>, c: char)
    requires
        !name.contains(c),
    ensures
        after_last(before + seq![c] + name, c) == name,
        before_last(before + seq![c] + name, c) == before,
    decreases name.len(),
{
    let s = before + seq![c] + name;
    if name.len() == 0 {
        assert(s.last() == c);
        assert(after_last(s, c) =~= name);
    } else {
        assert(name.contains(name.last()));
        assert(s.drop_last() =~= before + seq![c] + name.drop_last());
        assert forall|i: int| 0 <= i < name.drop_last().len() implies name.drop_last()[i] != c by {
            assert(name.contains(name[i]));
        }
        lemma_last_is(before, name.drop_last(), c);
        assert(after_last(s, c) =~= name);
    }
    assert(before_last(s, c) =~= before);
}

/// What follows the last `c` in `s`: all of `s` where there is none.
pub fn last_segment(s: &str, c: char) -> (r: &str)
    ensures
        r@ == after_last(s@, c),
{
    let v: Vec<char> = chars_of(s);
    let mut n: usize = v.len();
    proof {
        lemma_after_last(s@, c);
    }
    while n > 0 && v[n - 1] != c
        invariant
            v@ == s@,
            n <= v@.len(),
            forall|i: int| n <= i < v@.len() ==> v@[i] != c,
        decreases n,
    {
        n -= 1;
    }
    proof {
        let k = s@.len() - after_last(s@, c).len();
        if n < k {
            assert(s@[k - 1] == c);
        }
        if n > k {
            assert(after_last(s@, c)[n - 1 - k] == c);
            assert(after_last(s@, c).contains(c));
        }
    }
    s.substring_char(n, s.unicode_len())
}

/// The text before the last `c` in `s`; meaningful where `s` holds a `c`.
pub open spec fn before_last(s: Seq<char>, c: char) -> Seq<char> {
    s.take(s.len() - after_last(s, c).len() - 1)
}

/// The two parts of `s` around its last `c`, if it holds one.
pub fn rsplit_once<'a>(s: &'a str, c: char) -> (r: Option<(&'a str, &'a str)>)
    ensures
        r is Some <==> s@.contains(c),
        r matches Some(p) ==> p.0@ == before_last(s@, c) && p.1@ == after_last(s@, c),
{
    proof {
        lemma_after_last(s@, c);
    }
    let tail: &str = last_segment(s, c);
    let n: usize = s.unicode_len();
    let k: usize = tail.unicode_len();
    if k == n {
        None
    } else {
        Some((s.substring_char(0, n - k - 1), tail))
    }
}

// ---------------------------------------------------------------------------------------
// Patterns

/// `pat` stands in `s` from index `i` on.
pub open spec fn occurs_at(s: Seq<char>, pat: Seq<char>, i: int) -> bool {
    0 <= i && i + pat.len() <= s.len() && s.subrange(i, i + pat.len()) == pat
}

/// `pat` stands somewhere in `s`.
pub open spec fn occurs_in(s: Seq<char>, pat: Seq<char>) -> bool {
    exists|i: int| occurs_at(s, pat, i)
}

fn matches_at(v: &Vec<char>, pat: &Vec<char>, i: usize) -> (r: bool)
    ensures
        r == occurs_at(v@, pat@, i as int),
{
    let n: usize = v.len();
    if i > n || pat.len() > n - i {
        return false;
    }
    let mut j: usize = 0;
    while j < pat.len()
        invariant
            n == v@.len(),
            i + pat@.len() <= n,
            j <= pat@.len(),
            forall|k: int| 0 <= k < j ==> v@[i + k] == pat@[k],
        decreases pat@.len() - j,
    {
        if v[i + j] != pat[j] {
            proof {
                assert(v@.subrange(i as int, i + pat@.len())[j as int] != pat@[j as int]);
            }
            return false;
        }
        j += 1;
    }
    assert(v@.subrange(i as int, i + pat@.len()) =~= pat@);
    true
}

/// Whether `pat` stands somewhere in `s`.
pub fn contains_text(s: &str, pat: &str) -> (r: bool)
    ensures
        r == occurs_in(s@, pat@),
{
    let v: Vec<char> = chars_of(s);
    let p: Vec<char> = chars_of(pat);
    let mut i: usize = 0;
    while i < v.len()
        invariant
            v@ == s@,
            p@ == pat@,
            i <= v@.len(),
            forall|k: int| 0 <= k < i ==> !occurs_at(s@, pat@, k),
        decreases v@.len() - i,
    {
        if matches_at(&v, &p, i) {
            return true;
        }
        i += 1;
    }
    let at_end: bool = matches_at(&v, &p, i);
    proof {
        if occurs_in(s@, pat@) {
            let k = choose|k: int| occurs_at(s@, pat@, k);
            assert(k == i);
        }
    }
    at_end
}

/// `s` starts with `pat`.
pub open spec fn starts_with(s: Seq<char>, pat: Seq<char>) -> bool {
    occurs_at(s, pat, 0)
}

/// `s` without `pat` at its start, if it starts so.
pub fn strip_prefix<'a>(s: &'a str, pat: &str) -> (r: Option<&'a str>)
    ensures
        r is Some <==> starts_with(s@, pat@),
        r matches Some(t) ==> t@ == s@.skip(pat@.len() as int),
{
    let v: Vec<char> = chars_of(s);
    let p: Vec<char> = chars_of(pat);
    if matches_at(&v, &p, 0) {
        Some(s.substring_char(p.len(), v.len()))
    } else {
        None
    }
}

/// The text before the first `pat` in `s`: all of `s` where there is none.
pub open spec fn before_first(s: Seq<char>, pat: Seq<char>) -> Seq<char>
    decreases s.len(),
{
    if s.len() == 0 || starts_with(s, pat) {
        Seq::empty()
    } else {
        seq![s[0]] + before_first(s.skip(1), pat)
    }
}

/// The text before the first `pat` in `s`.
pub fn first_part<'a>(s: &'a str, pat: &str) -> (r: &'a str)
    ensures
        r@ == before_first(s@, pat@),
{
    let v: Vec<char> = chars_of(s);
    let p: Vec<char> = chars_of(pat);
    let mut i: usize = 0;
    assert(s@.skip(0) == s@);
    assert(s@.take(0) + before_first(s@, pat@) == before_first(s@, pat@));
    while i < v.len()
        invariant
            v@ == s@,
            p@ == pat@,
            i <= v@.len(),
            before_first(s@, pat@) == s@.take(i as int) + before_first(s@.skip(i as int), pat@),
        decreases v@.len() - i,
    {
        assert(starts_with(s@.skip(i as int), pat@) == occurs_at(s@, pat@, i as int)) by {
            if i + pat@.len() <= s@.len() {
                assert(s@.skip(i as int).subrange(0, pat@.len() as int) == s@.subrange(
                    i as int,
                    i + pat@.len(),
                ));
            }
        }
        if matches_at(&v, &p, i) {
            assert(before_first(s@, pat@) == s@.take(i as int));
            return s.substring_char(0, i);
        }
        assert(s@.skip(i as int).skip(1) == s@.skip(i + 1));
        assert(s@.take(i as int) + (seq![s@[i as int]] + before_first(s@.skip(i + 1), pat@))
            == s@.take(i + 1) + before_first(s@.skip(i + 1), pat@));
        i += 1;
    }
    assert(before_first(s@, pat@) == s@);
    s
}

/// `s` with each `pat`, taken from the left without overlap, replaced by `with`.
pub open spec fn replaced(s: Seq<char>, pat: Seq<char>, with: Seq<char>) -> Seq<char>
    decreases s.len(),
{
    if pat.len() == 0 || s.len() == 0 {
        s
    } else if starts_with(s, pat) {
        with + replaced(s.skip(pat.len() as int), pat, with)
    } else {
        seq![s[0]] + replaced(s.skip(1), pat, with)
    }
}

/// `s` with each `pat`, taken from the left without overlap, replaced by `with`.
pub fn replace_text(s: &str, pat: &str, with: &str) -> (r: String)
    requires
        pat@.len() > 0,
    ensures
        r@ == replaced(s@, pat@, with@),
{
    let v: Vec<char> = chars_of(s);
    let p: Vec<char> = chars_of(pat);
    let mut out: String = String::new();
    let mut i: usize = 0;
    assert(s@.skip(0) == s@);
    assert(out@ + replaced(s@, pat@, with@) == replaced(s@, pat@, with@));
    while i < v.len()
        invariant
            v@ == s@,
            p@ == pat@,
            pat@.len() > 0,
            i <= v@.len(),
            replaced(s@, pat@, with@) == out@ + replaced(s@.skip(i as int), pat@, with@),
        decreases v@.len() - i,
    {
        let ghost before = out@;
        assert(starts_with(s@.skip(i as int), pat@) == occurs_at(s@, pat@, i as int)) by {
            if i + pat@.len() <= s@.len() {
                assert(s@.skip(i as int).subrange(0, pat@.len() as int) == s@.subrange(
                    i as int,
                    i + pat@.len(),
                ));
            }
        }
        if matches_at(&v, &p, i) {
            out.append(with);
            assert(s@.skip(i as int).skip(pat@.len() as int) == s@.skip(i + pat@.len()));
            assert(before + (with@ + replaced(s@.skip(i + pat@.len()), pat@, with@)) == out@
                + replaced(s@.skip(i + pat@.len()), pat@, with@));
            i += p.len();
        } else {
            out.push(v[i]);
            assert(s@.skip(i as int).skip(1) == s@.skip(i + 1));
            assert(before + (seq![s@[i as int]] + replaced(s@.skip(i + 1), pat@, with@)) == out@
                + replaced(s@.skip(i + 1), pat@, with@));
            i += 1;
        }
    }
    assert(replaced(s@.skip(i as int), pat@, with@).len() == 0);
    assert(out@ == replaced(s@, pat@, with@));
    out
}

// ---------------------------------------------------------------------------------------
// Telling texts apart

/// The length of a text, and the characters at its start, after a third and half way: few texts
/// have the same.
pub open spec fn marks(s: Seq<char>) -> (nat, char, char, char) {
    (s.len(), s[0], s[s.len() as int / 3], s[s.len() as int / 2])
}

// ---------------------------------------------------------------------------------------
// Joining

/// The texts of `list` one after another, with `sep` between each two.
pub open spec fn joined(list: Seq<Seq<char>>, sep: Seq<char>) -> Seq<char>
    decreases list.len(),
{
    if list.len() == 0 {
        Seq::empty()
    } else if list.len() == 1 {
        list[0]
    } else {
        joined(list.drop_last(), sep) + sep + list.last()
    }
}

/// The views of a list of borrowed texts.
pub open spec fn str_views(list: Seq<&str>) -> Seq<Seq<char>> {
    Seq::new(list.len(), |i: int| list[i]@)
}

/// The texts of `list` one after another, with `sep` between each two.
pub fn join_texts(list: &Vec<&str>, sep: &str) -> (r: String)
    ensures
        r@ == joined(str_views(list@), sep@),
{
    let mut out: String = String::new();
    let mut i: usize = 0;
    let ghost all = str_views(list@);
    while i < list.len()
        invariant
            all == str_views(list@),
            i <= list@.len(),
            out@ == joined(all.take(i as int), sep@),
        decreases list@.len() - i,
    {
        assert(all.take(i + 1).drop_last() == all.take(i as int));
        assert(all.take(i + 1).last() == list@[i as int]@);
        if i > 0 {
            out.append(sep);
        } else {
            assert(Seq::<char>::empty() + list@[0]@ == list@[0]@);
        }
        out.append(list[i]);
        i += 1;
    }
    assert(all.take(all.len() as int) == all);
    out
}

// ---------------------------------------------------------------------------------------
// Numbers

/// The digit that stands for `d`, for `d` below ten.
pub open spec fn digit(d: nat) -> char {
    (d + '0' as nat) as char
}

/// The decimal digits of `n`.
pub open spec fn decimal(n: nat) -> Seq<char>
    decreases n,
{
    if n < 10 {
        seq![digit(n)]
    } else {
        decimal(n / 10).push(digit(n % 10))
    }
}

fn digit_char(d: u64) -> (c: char)
    requires
        d < 10,
    ensures
        c == digit(d as nat),
{
    ((d as u8) + 48u8) as char
}

/// Append the decimal digits of `n` to `out`.
pub fn push_decimal(out: &mut String, n: u64)
    ensures
        final(out)@ == old(out)@ + decimal(n as nat),
    decreases n,
{
    if n >= 10 {
        push_decimal(out, n / 10);
    }
    out.push(digit_char(n % 10));
    assert(out@ == old(out)@ + decimal(n as nat));
}

/// The decimal digits of `n`.
pub fn decimal_text(n: u64) -> (r: String)
    ensures
        r@ == decimal(n as nat),
{
    let mut out: String = String::new();
    push_decimal(&mut out, n);
    assert(out@ == decimal(n as nat));
    out
}

/// `c` is an ASCII digit.
pub open spec fn is_digit(c: char) -> bool {
    '0' <= c <= '9'
}

/// The number that a text of digits spells.
pub open spec fn digits_value(s: Seq<char>) -> nat
    decreases s.len(),
{
    if s.len() == 0 {
        0
    } else {
        digits_value(s.drop_last()) * 10 + (s.last() as nat - '0' as nat) as nat
    }
}

/// The digits of a number spell it again.
pub proof fn lemma_decimal_spells(n: nat)
    ensures
        decimal(n).len() > 0,
        forall|i: int| 0 <= i < decimal(n).len() ==> is_digit(#[trigger] decimal(n)[i]),
        digits_value(decimal(n)) == n,
    decreases n,
{
    reveal_with_fuel(digits_value, 2);
    if n < 10 {
        assert(decimal(n).drop_last() == Seq::<char>::empty());
    } else {
        lemma_decimal_spells(n / 10);
        assert(decimal(n).drop_last() == decimal(n / 10));
    }
}

/// `s` spells a whole number: an optional `+`, then at least one digit and nothing else.
pub open spec fn spells_number(s: Seq<char>) -> bool {
    let d = number_digits(s);
    d.len() > 0 && forall|i: int| 0 <= i < d.len() ==> is_digit(#[trigger] d[i])
}

/// `s` without a leading `+`.
pub open spec fn number_digits(s: Seq<char>) -> Seq<char> {
    if s.len() > 0 && s[0] == '+' {
        s.skip(1)
    } else {
        s
    }
}

/// The number that `s` spells, if it spells one that fits a `usize`.
pub fn parse_usize(s: &str) -> (r: Option<usize>)
    ensures
        r is Some <==> spells_number(s@) && digits_value(number_digits(s@)) <= usize::MAX,
        r matches Some(n) ==> n == digits_value(number_digits(s@)),
{
    let v: Vec<char> = chars_of(s);
    let start: usize = if v.len() > 0 && v[0] == '+' {
        1
    } else {
        0
    };
    let ghost d = number_digits(s@);
    assert(d == s@.skip(start as int));
    if v.len() == start {
        return None;
    }
    let mut i: usize = start;
    let mut n: usize = 0;
    let mut fits: bool = true;
    while i < v.len()
        invariant
            v@ == s@,
            start <= i <= v@.len(),
            d == s@.skip(start as int),
            d == number_digits(s@),
            forall|j: int| 0 <= j < i - start ==> is_digit(#[trigger] d[j]),
            fits ==> n == digits_value(d.take(i - start)),
            !fits ==> digits_value(d.take(i - start)) > usize::MAX,
        decreases v@.len() - i,
    {
        let c: char = v[i];
        assert(c == d[i - start]);
        if !('0' <= c && c <= '9') {
            return None;
        }
        assert(d.take(i - start + 1).drop_last() == d.take(i - start));
        assert(digits_value(d.take(i - start + 1)) == digits_value(d.take(i - start)) * 10 + (c as nat
            - '0' as nat));
        let x: usize = (c as u32 - 48u32) as usize;
        if fits {
            match n.checked_mul(10) {
                Some(m) => match m.checked_add(x) {
                    Some(k) => {
                        n = k;
                    },
                    None => {
                        fits = false;
                    },
                },
                None => {
                    fits = false;
                },
            }
        }
        i += 1;
    }
    assert(d.take(d.len() as int) == d);
    if fits {
        Some(n)
    } else {
        None
    }
}

// ---------------------------------------------------------------------------------------
// Laws

/// What stands before the first occurrence of a pattern is a part of the text from its start,
/// the pattern follows it, and it occurs nowhere earlier; all of the text if it occurs nowhere.
pub proof fn law_first_part_ends_at_the_pattern(s: Seq<char>, pat: Seq<char>)
    ensures
        before_first(s, pat).len() <= s.len(),
        before_first(s, pat) == s.take(before_first(s, pat).len() as int),
        pat.len() > 0 ==> forall|i: int|
            0 <= i < before_first(s, pat).len() ==> !#[trigger] occurs_at(s, pat, i),
        before_first(s, pat).len() < s.len() ==> occurs_at(
            s,
            pat,
            before_first(s, pat).len() as int,
        ),
    decreases s.len(),
{
    if s.len() > 0 && !starts_with(s, pat) {
        let rest = s.skip(1);
        law_first_part_ends_at_the_pattern(rest, pat);
        let n = before_first(rest, pat).len() as int;
        assert(before_first(s, pat) =~= s.take(n + 1));
        lemma_occurs_in_rest(s, pat, 1);
        assert forall|i: int| 0 <= i < n + 1 && pat.len() > 0 implies !#[trigger] occurs_at(
            s,
            pat,
            i,
        ) by {
            if i > 0 {
                assert(!occurs_at(rest, pat, i - 1));
            }
        }
        if n + 1 < s.len() {
            assert(occurs_at(rest, pat, n));
        }
    } else {
        assert(s.take(0) =~= Seq::<char>::empty());
    }
}

/// What stands between two other texts occurs in the whole.
pub proof fn lemma_occurs_between(
    before: Seq<char>,
    pat: Seq<char>,
    behind: Seq<char>,
    s: Seq<char>,
)
    requires
        s =~= before + pat + behind,
    ensures
        occurs_in(s, pat),
{
    let at = before.len() as int;
    assert(s.subrange(at, at + pat.len()) =~= pat);
    assert(occurs_at(s, pat, at));
}

proof fn lemma_occurs_in_rest(s: Seq<char>, pat: Seq<char>, k: int)
    requires
        0 <= k <= s.len(),
    ensures
        forall|i: int|
            0 <= i ==> (#[trigger] occurs_at(s.skip(k), pat, i) <==> occurs_at(s, pat, i + k)),
        forall|i: int|
            i >= k ==> (#[trigger] occurs_at(s, pat, i) <==> occurs_at(s.skip(k), pat, i - k)),
{
    let rest = s.skip(k);
    assert forall|i: int| 0 <= i implies (#[trigger] occurs_at(rest, pat, i) <==> occurs_at(
        s,
        pat,
        i + k,
    )) by {
        if i + pat.len() <= rest.len() {
            assert(rest.subrange(i, i + pat.len()) =~= s.subrange(i + k, i + k + pat.len()));
        }
    }
    assert forall|i: int| i >= k implies (#[trigger] occurs_at(s, pat, i) <==> occurs_at(
        rest,
        pat,
        i - k,
    )) by {
        assert(occurs_at(rest, pat, i - k) <==> occurs_at(s, pat, i - k + k));
    }
}

/// Replacing puts the new text in the place of the first occurrence, leaves what stands before
/// it, and goes on behind it. A text without an occurrence stays as it is.
pub proof fn law_replacing_goes_from_left_to_right(
    s: Seq<char>,
    pat: Seq<char>,
    with: Seq<char>,
    at: int,
)
    requires
        pat.len() > 0,
    ensures
        !occurs_in(s, pat) ==> replaced(s, pat, with) == s,
        occurs_at(s, pat, at) && (forall|i: int| 0 <= i < at ==> !#[trigger] occurs_at(s, pat, i))
            ==> replaced(s, pat, with) == s.take(at) + with + replaced(
            s.skip(at + pat.len()),
            pat,
            with,
        ),
    decreases s.len(),
{
    if s.len() > 0 {
        let rest = s.skip(1);
        lemma_occurs_in_rest(s, pat, 1);
        if starts_with(s, pat) {
            if occurs_at(s, pat, at) && (forall|i: int|
                0 <= i < at ==> !#[trigger] occurs_at(s, pat, i)) {
                assert(at == 0);
                assert(s.take(0) + with =~= with);
            }
        } else {
            law_replacing_goes_from_left_to_right(rest, pat, with, at - 1);
            if !occurs_in(s, pat) {
                if occurs_in(rest, pat) {
                    let i = choose|i: int| occurs_at(rest, pat, i);
                    assert(occurs_at(s, pat, i + 1));
                }
                assert(seq![s[0]] + rest =~= s);
            }
            if occurs_at(s, pat, at) && (forall|i: int|
                0 <= i < at ==> !#[trigger] occurs_at(s, pat, i)) {
                assert(at > 0);
                assert forall|i: int| 0 <= i < at - 1 implies !#[trigger] occurs_at(
                    rest,
                    pat,
                    i,
                ) by {
                    assert(!occurs_at(s, pat, i + 1));
                }
                assert(rest.skip(at - 1 + pat.len()) =~= s.skip(at + pat.len()));
                let tail = replaced(s.skip(at + pat.len()), pat, with);
                assert(seq![s[0]] + (rest.take(at - 1) + with + tail) =~= s.take(at) + with + tail);
            }
        }
    }
}

/// Texts are joined one after the other, with the separator wherever two of them meet and
/// nowhere else.
pub proof fn law_joining_separates_each_two(
    a: Seq<Seq<char>>,
    b: Seq<Seq<char>>,
    x: Seq<char>,
    sep: Seq<char>,
)
    ensures
        joined(seq![x], sep) == x,
        a.len() > 0 && b.len() > 0 ==> joined(a + b, sep) == joined(a, sep) + sep + joined(b, sep),
    decreases b.len(),
{
    if a.len() > 0 && b.len() > 0 {
        let all = a + b;
        assert(all.drop_last() =~= a + b.drop_last());
        if b.len() == 1 {
            assert(a + b.drop_last() =~= a);
        } else {
            law_joining_separates_each_two(a, b.drop_last(), x, sep);
            assert(joined(a, sep) + sep + joined(b.drop_last(), sep) + sep + b.last() =~= joined(
                a,
                sep,
            ) + sep + (joined(b.drop_last(), sep) + sep + b.last()));
        }
    }
}

/// Digits count by their place: each one ten times what the next one does.
pub proof fn law_digits_count_by_their_place(s: Seq<char>, c: char)
    requires
        is_digit(c),
    ensures
        digits_value(s.push(c)) == 10 * digits_value(s) + (c as nat - '0' as nat),
        digits_value(Seq::empty()) == 0,
{
    assert(s.push(c).drop_last() =~= s);
}

/// No number but zero starts with the digit zero, and different numbers have different digits.
pub proof fn law_numbers_are_spelled_in_one_way(m: nat, n: nat)
    ensures
        n > 0 ==> decimal(n)[0] != '0',
        decimal(0) == seq!['0'],
        decimal(m) == decimal(n) ==> m == n,
    decreases n,
{
    lemma_decimal_spells(m);
    lemma_decimal_spells(n);
    if n >= 10 {
        law_numbers_are_spelled_in_one_way(m, n / 10);
        lemma_decimal_spells(n / 10);
        assert(decimal(n)[0] == decimal(n / 10)[0]);
    }
    assert(digit(0) == '0');
}

/// What stands for a list of texts stands for all of them, in their order.
pub proof fn law_views_are_those_of_the_texts(list: Seq<String>, i: int)
    ensures
        views(list).len() == list.len(),
        0 <= i < list.len() ==> views(list)[i] == list[i]@,
        0 <= i < list.len() ==> opt_view(Some(list[i])) == Some(list[i]@),
        opt_view(None) is None,
{
}

} // verus!
