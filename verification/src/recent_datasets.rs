//! Remembers which remote datasets (TOS / Hugging Face) were opened, across viewer restarts.
//!
//! Converted data lives only in RAM, so restarting the viewer starts blank. This list,
//! persisted with the rest of the app state, lets the welcome screen show what was opened
//! before and re-open it with one click. Only non-secret metadata is stored: never access
//! keys or tokens.
use vstd::prelude::*;
use vstd::string::*;

use crate::i18n;
use crate::i18n::Language;
use crate::text;

verus! {

/// Which remote backend a recent dataset lives on.
#[derive(Clone, Copy, Debug, PartialEq, Eq, Structural)]
pub enum RecentKind {
    Tos,
    Hf,
}

/// One remembered remote dataset. No credentials, ever.
#[derive(Debug)]
pub struct RecentDataset {
    /// `tos://bucket/prefix/` or `hf://org/name`; doubles as the identity for deduplication.
    pub url: String,
    pub kind: RecentKind,
    /// TOS only: the bucket's region, so re-opening lands on the right endpoint.
    pub region: String,
    /// Episodes/files in the dataset, once a stream reported it.
    pub item_count: Option<usize>,
    /// Unix seconds of the last time this dataset was opened.
    pub last_opened_unix: i64,
    /// Was this dataset still open when the viewer last saved its state?
    ///
    /// Stamped on every state save; drives session restore on the next launch
    /// (a dataset the user closed before quitting must not come back).
    pub open_at_exit: bool,
}

impl Clone for RecentDataset {
    fn clone(&self) -> (r: Self)
        ensures
            r == *self,
    {
        RecentDataset {
            url: self.url.clone(),
            kind: self.kind,
            region: self.region.clone(),
            item_count: self.item_count,
            last_opened_unix: self.last_opened_unix,
            open_at_exit: self.open_at_exit,
        }
    }
}

/// The last meaningful path segment of `url`, or all of it where there is none.
pub open spec fn short_name(url: Seq<char>) -> Seq<char> {
    let segment = text::after_last(text::without_trailing(url, '/'), '/');
    if segment.len() > 0 {
        segment
    } else {
        url
    }
}

impl RecentDataset {
    /// Short display name: the last meaningful path segment of the URL.
    pub fn display_name(&self) -> (r: &str)
        ensures
            r@ == short_name(self.url@),
    {
        let segment: &str = text::last_segment(text::trim_end_char(self.url.as_str(), '/'), '/');
        if segment.is_empty() {
            self.url.as_str()
        } else {
            segment
        }
    }
}

/// Cap: enough to be useful, small enough to stay glanceable.
pub const MAX_RECENT: usize = 10;

/// The index of the first entry with this URL; the length of the list where there is none.
pub open spec fn position(list: Seq<RecentDataset>, url: Seq<char>) -> int
    decreases list.len(),
{
    if list.len() == 0 || list[0].url@ == url {
        0
    } else {
        1 + position(list.skip(1), url)
    }
}

/// The list without its first entry with this URL.
pub open spec fn forgotten(list: Seq<RecentDataset>, url: Seq<char>) -> Seq<RecentDataset> {
    if position(list, url) < list.len() {
        list.remove(position(list, url))
    } else {
        list
    }
}

/// `entry` with the item count that the list already learned, unless it knows its own.
pub open spec fn with_learned_count(
    list: Seq<RecentDataset>,
    entry: RecentDataset,
) -> RecentDataset {
    let at = position(list, entry.url@);
    if entry.item_count is None && at < list.len() {
        RecentDataset { item_count: list[at].item_count, ..entry }
    } else {
        entry
    }
}

/// The first `n` entries of `list`, or all where there are fewer.
pub open spec fn at_most(list: Seq<RecentDataset>, n: int) -> Seq<RecentDataset> {
    if list.len() <= n {
        list
    } else {
        list.take(n)
    }
}

/// The list after `entry` was opened: `entry` first, the others behind it in their order,
/// the oldest dropped beyond the cap.
pub open spec fn remembered(list: Seq<RecentDataset>, entry: RecentDataset) -> Seq<RecentDataset> {
    at_most(
        seq![with_learned_count(list, entry)] + forgotten(list, entry.url@),
        MAX_RECENT as int,
    )
}

proof fn lemma_position(list: Seq<RecentDataset>, url: Seq<char>)
    ensures
        0 <= position(list, url) <= list.len(),
        position(list, url) < list.len() ==> list[position(list, url)].url@ == url,
        forall|i: int| 0 <= i < position(list, url) ==> (#[trigger] list[i]).url@ != url,
    decreases list.len(),
{
    if list.len() > 0 && list[0].url@ != url {
        lemma_position(list.skip(1), url);
        assert forall|i: int| 0 <= i < position(list, url) implies (#[trigger] list[i]).url@
            != url by {
            if i > 0 {
                assert(list.skip(1)[i - 1] == list[i]);
            }
        }
    }
}

proof fn lemma_position_is(list: Seq<RecentDataset>, url: Seq<char>, at: int)
    requires
        0 <= at <= list.len(),
        at < list.len() ==> list[at].url@ == url,
        forall|i: int| 0 <= i < at ==> (#[trigger] list[i]).url@ != url,
    ensures
        position(list, url) == at,
{
    lemma_position(list, url);
}

fn find_url(list: &Vec<RecentDataset>, url: &String) -> (r: usize)
    ensures
        r == position(list@, url@),
{
    let mut i: usize = 0;
    while i < list.len()
        invariant
            i <= list@.len(),
            forall|j: int| 0 <= j < i ==> (#[trigger] list@[j]).url@ != url@,
        decreases list@.len() - i,
    {
        if list[i].url == *url {
            proof {
                lemma_position_is(list@, url@, i as int);
            }
            return i;
        }
        i += 1;
    }
    proof {
        lemma_position_is(list@, url@, i as int);
    }
    i
}

/// Insert or refresh an entry (dedup by URL), most recent first.
pub fn remember(list: &mut Vec<RecentDataset>, entry: RecentDataset)
    ensures
        final(list)@ == remembered(old(list)@, entry),
{
    let at: usize = find_url(list, &entry.url);
    let mut entry: RecentDataset = entry;
    if at < list.len() {
        // Keep previously learned metadata unless the new entry knows better.
        let existing: RecentDataset = list.remove(at);
        if entry.item_count.is_none() {
            entry.item_count = existing.item_count;
        }
    }
    list.insert(0, entry);
    assert(list@ == seq![entry] + forgotten(old(list)@, entry.url@));
    list.truncate(MAX_RECENT);
}

// ---------------------------------------------------------------------------------------
// Time labels

/// The seconds between two times, as far as they fit an `i64`.
pub open spec fn elapsed_secs(last_opened_unix: i64, now_unix: i64) -> int {
    let d = now_unix - last_opened_unix;
    if d > i64::MAX {
        i64::MAX as int
    } else if d < i64::MIN {
        i64::MIN as int
    } else {
        d
    }
}

/// How long ago `secs` seconds are, in words.
pub open spec fn elapsed_label(lang: Language, secs: int) -> Seq<char> {
    if secs < 60 {
        i18n::translated(lang, "just now"@, "刚刚"@)
    } else if secs < 60 * 60 {
        text::decimal((secs / 60) as nat) + i18n::translated(lang, " min ago"@, " 分钟前"@)
    } else if secs < 24 * 60 * 60 {
        text::decimal((secs / 3600) as nat) + i18n::translated(lang, " h ago"@, " 小时前"@)
    } else if secs < 2 * 24 * 60 * 60 {
        i18n::translated(lang, "yesterday"@, "昨天"@)
    } else {
        text::decimal((secs / 86400) as nat) + i18n::translated(lang, " days ago"@, " 天前"@)
    }
}

/// "just now" / "5 min ago" / "3 h ago" / "2 days ago", for the welcome screen row.
///
/// A clock that went backwards reads as "just now".
pub fn relative_time_label(lang: Language, last_opened_unix: i64, now_unix: i64) -> (r: String)
    ensures
        r@ == elapsed_label(lang, elapsed_secs(last_opened_unix, now_unix)),
{
    let secs: i64 = match now_unix.checked_sub(last_opened_unix) {
        Some(secs) => secs,
        None => if now_unix < last_opened_unix {
            i64::MIN
        } else {
            i64::MAX
        },
    };
    if secs < 60 {
        i18n::tr(lang, "just now", "刚刚").to_owned()
    } else if secs < 60 * 60 {
        counted((secs / 60) as u64, i18n::tr(lang, " min ago", " 分钟前"))
    } else if secs < 24 * 60 * 60 {
        counted((secs / 3600) as u64, i18n::tr(lang, " h ago", " 小时前"))
    } else if secs < 2 * 24 * 60 * 60 {
        i18n::tr(lang, "yesterday", "昨天").to_owned()
    } else {
        counted((secs / 86400) as u64, i18n::tr(lang, " days ago", " 天前"))
    }
}

/// A number and the words that follow it.
pub fn counted(n: u64, words: &str) -> (r: String)
    ensures
        r@ == text::decimal(n as nat) + words@,
{
    let mut out: String = String::new();
    text::push_decimal(&mut out, n);
    out.append(words);
    assert(Seq::<char>::empty() + text::decimal(n as nat) == text::decimal(n as nat));
    out
}

/// The whole unix seconds of a time in nanoseconds since the epoch, rounded towards it.
pub fn now_unix(nanos_since_epoch: i64) -> (r: i64)
    ensures
        r == (if nanos_since_epoch >= 0 {
            nanos_since_epoch as int / 1_000_000_000
        } else {
            -(-nanos_since_epoch / 1_000_000_000)
        }),
{
    nanos_since_epoch / 1_000_000_000
}

// ---------------------------------------------------------------------------------------
// Laws

/// No two entries share a URL.
pub open spec fn distinct_urls(list: Seq<RecentDataset>) -> bool {
    forall|i: int, j: int|
        0 <= i < j < list.len() ==> (#[trigger] list[i]).url@ != (#[trigger] list[j]).url@
}

/// A dataset that was just opened leads the list, and the list stays within its cap.
pub proof fn law_remember_leads_and_caps(list: Seq<RecentDataset>, entry: RecentDataset)
    ensures
        0 < remembered(list, entry).len() <= MAX_RECENT,
        remembered(list, entry)[0].url == entry.url,
        remembered(list, entry)[0].last_opened_unix == entry.last_opened_unix,
{
}

/// Remembering keeps the list free of duplicates.
pub proof fn law_remember_dedups(list: Seq<RecentDataset>, entry: RecentDataset)
    requires
        distinct_urls(list),
    ensures
        distinct_urls(remembered(list, entry)),
{
    let url = entry.url@;
    lemma_position(list, url);
    let at = position(list, url);
    let rest = forgotten(list, url);
    assert forall|i: int| 0 <= i < rest.len() implies (#[trigger] rest[i]).url@ != url by {
        if at < list.len() {
            if i < at {
                assert(rest[i] == list[i]);
            } else {
                assert(rest[i] == list[i + 1]);
            }
        }
    }
    assert forall|i: int, j: int| 0 <= i < j < rest.len() implies (#[trigger] rest[i]).url@ != (
    #[trigger] rest[j]).url@ by {
        if at < list.len() {
            let a = if i < at {
                i
            } else {
                i + 1
            };
            let b = if j < at {
                j
            } else {
                j + 1
            };
            assert(rest[i] == list[a] && rest[j] == list[b]);
        }
    }
    let all = seq![with_learned_count(list, entry)] + rest;
    assert forall|i: int, j: int| 0 <= i < j < all.len() implies (#[trigger] all[i]).url@ != (
    #[trigger] all[j]).url@ by {
        assert(all[j] == rest[j - 1]);
        if i > 0 {
            assert(all[i] == rest[i - 1]);
        }
    }
}

/// The item count learned in an earlier open survives a re-open that does not know it, and
/// gives way to one that does.
pub proof fn law_learned_count_survives(list: Seq<RecentDataset>, entry: RecentDataset)
    ensures
        entry.item_count is Some ==> remembered(list, entry)[0].item_count == entry.item_count,
        forall|i: int|
            0 <= i < list.len() && (#[trigger] list[i]).url@ == entry.url@ && distinct_urls(list)
                && entry.item_count is None ==> remembered(list, entry)[0].item_count
                == list[i].item_count,
{
    lemma_position(list, entry.url@);
    assert forall|i: int|
        0 <= i < list.len() && (#[trigger] list[i]).url@ == entry.url@ && distinct_urls(list)
            && entry.item_count is None implies remembered(list, entry)[0].item_count
        == list[i].item_count by {
        let at = position(list, entry.url@);
        if at < i {
            assert(list[at].url@ != list[i].url@);
        }
    }
}

/// Opening the same dataset again changes nothing more.
pub proof fn law_remember_is_idempotent(list: Seq<RecentDataset>, entry: RecentDataset)
    ensures
        remembered(remembered(list, entry), entry) == remembered(list, entry),
{
    let once = remembered(list, entry);
    assert(position(once, entry.url@) == 0);
    let rest = once.remove(0);
    assert(once == seq![once[0]] + rest);
    assert(with_learned_count(once, entry) == once[0]);
}

/// The other entries stay as they are, in their order: behind the new first entry comes the
/// old list without this URL, cut at the cap.
pub proof fn law_remember_keeps_the_others(list: Seq<RecentDataset>, entry: RecentDataset)
    ensures
        remembered(list, entry).skip(1) == at_most(
            forgotten(list, entry.url@),
            MAX_RECENT - 1,
        ),
{
    let rest = forgotten(list, entry.url@);
    let all = seq![with_learned_count(list, entry)] + rest;
    assert(all.skip(1) == rest);
    if all.len() > MAX_RECENT {
        assert(all.take(MAX_RECENT as int).skip(1) == rest.take(MAX_RECENT - 1));
    }
}

/// A display name is never empty unless the URL is, and holds a slash only where the URL
/// holds nothing else.
pub proof fn law_display_name_is_one_segment(url: Seq<char>)
    ensures
        short_name(url).len() == 0 ==> url.len() == 0,
        short_name(url).contains('/') ==> forall|i: int| 0 <= i < url.len() ==> url[i] == '/',
{
    let t = text::without_trailing(url, '/');
    text::lemma_without_trailing(url, '/');
    text::lemma_after_last(t, '/');
    if text::after_last(t, '/').len() == 0 {
        if t.len() > 0 {
            assert(t[t.len() - 1] == '/');
        }
    }
}

/// The entry that leads the list after a dataset was opened is the one that was opened, in
/// everything but the number of items.
pub proof fn law_opened_entry_is_taken_over(list: Seq<RecentDataset>, entry: RecentDataset)
    ensures
        remembered(list, entry).len() > 0,
        remembered(list, entry)[0].url == entry.url,
        remembered(list, entry)[0].kind == entry.kind,
        remembered(list, entry)[0].region == entry.region,
        remembered(list, entry)[0].last_opened_unix == entry.last_opened_unix,
        remembered(list, entry)[0].open_at_exit == entry.open_at_exit,
{
}

/// Where every entry comes to stand: the opened one first, those that were above it one place
/// further down, those below it where they were, and of them no more than there is room for.
pub proof fn law_where_entries_come_to_stand(
    list: Seq<RecentDataset>,
    entry: RecentDataset,
    at: int,
    k: int,
)
    requires
        0 <= at <= list.len(),
        at < list.len() ==> list[at].url@ == entry.url@,
        forall|i: int| 0 <= i < at ==> (#[trigger] list[i]).url@ != entry.url@,
    ensures
        ({
            let count = if at < list.len() {
                list.len()
            } else {
                list.len() + 1
            };
            let after = remembered(list, entry);
            &&& after.len() == (if count < 10 {
                count
            } else {
                10
            })
            &&& 1 <= k < after.len() && k <= at ==> after[k] == list[k - 1]
            &&& 1 <= k < after.len() && k > at ==> after[k] == list[k]
            &&& after[0].item_count == (if entry.item_count is None && at < list.len() {
                list[at].item_count
            } else {
                entry.item_count
            })
        }),
{
    lemma_position_is(list, entry.url@, at);
}

/// How long ago a dataset was opened is said in whole minutes, hours or days: the most that
/// have passed.
pub proof fn law_elapsed_time_is_said_in_whole_units(secs: int, k: int)
    ensures
        secs < 60 ==> elapsed_label(Language::English, secs) == "just now"@ && elapsed_label(
            Language::Chinese,
            secs,
        ) == "刚刚"@,
        1 <= k < 60 && 60 * k <= secs < 60 * (k + 1) ==> elapsed_label(Language::English, secs)
            == text::decimal(k as nat) + " min ago"@ && elapsed_label(Language::Chinese, secs)
            == text::decimal(k as nat) + " 分钟前"@,
        1 <= k < 24 && 3600 * k <= secs < 3600 * (k + 1) ==> elapsed_label(Language::English, secs)
            == text::decimal(k as nat) + " h ago"@ && elapsed_label(Language::Chinese, secs)
            == text::decimal(k as nat) + " 小时前"@,
        86400 <= secs < 172800 ==> elapsed_label(Language::English, secs) == "yesterday"@
            && elapsed_label(Language::Chinese, secs) == "昨天"@,
        2 <= k && 86400 * k <= secs < 86400 * (k + 1) ==> elapsed_label(Language::English, secs)
            == text::decimal(k as nat) + " days ago"@ && elapsed_label(Language::Chinese, secs)
            == text::decimal(k as nat) + " 天前"@,
{
}

/// The time between two times is their difference, however far apart they are, up to what an
/// `i64` holds.
pub proof fn law_elapsed_time_is_the_difference(last_opened_unix: i64, now_unix: i64)
    ensures
        i64::MIN <= now_unix - last_opened_unix <= i64::MAX ==> elapsed_secs(
            last_opened_unix,
            now_unix,
        ) + last_opened_unix == now_unix,
        now_unix - last_opened_unix > i64::MAX ==> elapsed_secs(last_opened_unix, now_unix)
            == i64::MAX,
        now_unix - last_opened_unix < i64::MIN ==> elapsed_secs(last_opened_unix, now_unix)
            == i64::MIN,
{
}

/// The name of a dataset is what stands behind the last slash of its URL that is not at its
/// end.
pub proof fn law_display_name_is_the_last_segment(
    before: Seq<char>,
    name: Seq<char>,
    slashes: Seq<char>,
)
    requires
        name.len() > 0,
        !name.contains('/'),
        forall|i: int| 0 <= i < slashes.len() ==> slashes[i] == '/',
    ensures
        short_name(name + slashes) == name,
        short_name(before + seq!['/'] + name + slashes) == name,
{
    text::law_last_segment_is_found(before, name, slashes, '/');
}

/// The clock is read in whole seconds, and a part of a second is left out: before the epoch as
/// well as behind it.
pub proof fn law_clock_is_read_in_whole_seconds(nanos: i64, seconds: i64)
    requires
        call_ensures(now_unix, (nanos,), seconds),
    ensures
        nanos >= 0 ==> 1_000_000_000 * seconds <= nanos < 1_000_000_000 * (seconds + 1),
        nanos <= 0 ==> 1_000_000_000 * (seconds - 1) < nanos <= 1_000_000_000 * seconds,
{
}

} // verus!
