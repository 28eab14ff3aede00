//! The card of an application: its recordings.
use itertools::Itertools;
use vstd::prelude::*;
use vstd::string::*;

use crate::i18n;
use crate::i18n::{tr, Language};
use crate::store_id::StoreId;
use crate::text;

verus! {

/// How much room there is.
#[derive(Clone, Copy, Debug, PartialEq, Eq, Structural)]
pub enum UiLayout {
    Inline,
    List,
    Tooltip,
    SelectionPanel,
}

/// A recording, and when it was started, in nanoseconds since the epoch, if that is known.
#[derive(Debug)]
pub struct StartedRecording {
    pub store_id: StoreId,
    pub started: Option<i64>,
}

/// Earlier: what has no start comes before what has one.
pub open spec fn starts_before(a: Option<i64>, b: Option<i64>) -> bool {
    match (a, b) {
        (None, Some(_)) => true,
        (Some(x), Some(y)) => x < y,
        _ => false,
    }
}

/// In the order of their start and, where that is the same, of their number.
pub open spec fn is_ordered(list: Seq<(Option<i64>, usize)>) -> bool {
    forall|i: int, j: int|
        0 <= i < j < list.len() ==> starts_before((#[trigger] list[i]).0, (#[trigger] list[j]).0)
            || (list[i].0 == list[j].0 && list[i].1 < list[j].1)
}

/// `Itertools::sorted_by_key` by the start of a recording. It sorts a `Vec` with `sort_by_key`
/// of std, which is stable, and an `Option` orders `None` first: numbers that went up in the
/// list go up among those with the same start.
#[verifier::external_body]
fn itertools_sorted_by_start(list: Vec<(Option<i64>, usize)>) -> (r: Vec<(Option<i64>, usize)>)
    requires
        forall|i: int, j: int| 0 <= i < j < list@.len() ==> (#[trigger] list@[i]).1 < (
        #[trigger] list@[j]).1,
    ensures
        r@.to_multiset() == list@.to_multiset(),
        is_ordered(r@),
{
    list.into_iter().sorted_by_key(|row| row.0).collect()
}

/// Whether `order` names the recordings of an application, each once, in the order of their
/// start and, where that is the same, of the list.
pub open spec fn is_app_order(list: Seq<StartedRecording>, app_id: Seq<char>, order: Seq<usize>) -> bool {
    &&& order.no_duplicates()
    &&& forall|k: usize| #[trigger]
        order.contains(k) <==> k < list.len() && list[k as int].store_id.application_id@ == app_id
    &&& forall|i: int, j: int|
        0 <= i < j < order.len() ==> starts_before(
            list[(#[trigger] order[i]) as int].started,
            list[(#[trigger] order[j]) as int].started,
        ) || (list[order[i] as int].started == list[order[j] as int].started && order[i] < order[j])
}

/// Find all recordings with this app id, in the order of their start.
pub fn recordings_of_app(list: &Vec<StartedRecording>, app_id: &String) -> (r: Vec<usize>)
    ensures
        is_app_order(list@, app_id@, r@),
{
    let n: usize = list.len();
    let mut rows: Vec<(Option<i64>, usize)> = Vec::new();
    let mut i: usize = 0;
    while i < n
        invariant
            i <= n,
            n == list@.len(),
            forall|a: int, b: int| 0 <= a < b < rows@.len() ==> (#[trigger] rows@[a]).1 < (
            #[trigger] rows@[b]).1,
            forall|a: int|
                0 <= a < rows@.len() ==> {
                    let row = #[trigger] rows@[a];
                    &&& row.1 < i
                    &&& list@[row.1 as int].store_id.application_id@ == app_id@
                    &&& row.0 == list@[row.1 as int].started
                },
            forall|k: int|
                0 <= k < i && (#[trigger] list@[k]).store_id.application_id@ == app_id@
                    ==> rows@.contains((list@[k].started, k as usize)),
        decreases n - i,
    {
        let ghost before = rows@;
        if list[i].store_id.application_id == *app_id {
            rows.push((list[i].started, i));
            proof {
                assert forall|k: int|
                    0 <= k < i + 1 && (#[trigger] list@[k]).store_id.application_id@
                        == app_id@ implies rows@.contains((list@[k].started, k as usize)) by {
                    if k < i {
                        let at = choose|at: int|
                            0 <= at < before.len() && before[at] == (list@[k].started, k as usize);
                        assert(rows@[at] == (list@[k].started, k as usize));
                    } else {
                        assert(rows@[before.len() as int] == (list@[k].started, k as usize));
                    }
                }
            }
        }
        i += 1;
    }
    let ghost found = rows@;
    let sorted: Vec<(Option<i64>, usize)> = itertools_sorted_by_start(rows);
    proof {
        lemma_same_members(found, sorted@);
    }
    let m: usize = sorted.len();
    let mut out: Vec<usize> = Vec::new();
    let mut j: usize = 0;
    while j < m
        invariant
            j <= m,
            m == sorted@.len(),
            out@.len() == j,
            forall|a: int| 0 <= a < j ==> #[trigger] out@[a] == sorted@[a].1,
        decreases m - j,
    {
        out.push(sorted[j].1);
        j += 1;
    }
    proof {
        lemma_app_order(list@, app_id@, found, sorted@, out@);
    }
    out
}

proof fn lemma_same_members(a: Seq<(Option<i64>, usize)>, b: Seq<(Option<i64>, usize)>)
    requires
        b.to_multiset() == a.to_multiset(),
    ensures
        forall|x: (Option<i64>, usize)| a.contains(x) <==> #[trigger] b.contains(x),
{
    a.to_multiset_ensures();
    b.to_multiset_ensures();
    assert forall|x: (Option<i64>, usize)| a.contains(x) <==> #[trigger] b.contains(x) by {
        assert(a.contains(x) <==> a.to_multiset().count(x) > 0);
        assert(b.contains(x) <==> b.to_multiset().count(x) > 0);
    }
}

proof fn lemma_app_order(
    list: Seq<StartedRecording>,
    app_id: Seq<char>,
    found: Seq<(Option<i64>, usize)>,
    sorted: Seq<(Option<i64>, usize)>,
    order: Seq<usize>,
)
    requires
        forall|a: int|
            0 <= a < found.len() ==> {
                let row = #[trigger] found[a];
                &&& row.1 < list.len()
                &&& list[row.1 as int].store_id.application_id@ == app_id
                &&& row.0 == list[row.1 as int].started
            },
        forall|k: int|
            0 <= k < list.len() && (#[trigger] list[k]).store_id.application_id@ == app_id
                ==> found.contains((list[k].started, k as usize)),
        forall|x: (Option<i64>, usize)| found.contains(x) <==> #[trigger] sorted.contains(x),
        is_ordered(sorted),
        order.len() == sorted.len(),
        forall|a: int| 0 <= a < order.len() ==> #[trigger] order[a] == sorted[a].1,
        list.len() <= usize::MAX,
    ensures
        is_app_order(list, app_id, order),
{
    assert forall|a: int| 0 <= a < sorted.len() implies {
        let row = #[trigger] sorted[a];
        &&& row.1 < list.len()
        &&& list[row.1 as int].store_id.application_id@ == app_id
        &&& row.0 == list[row.1 as int].started
    } by {
        let row = sorted[a];
        assert(sorted.contains(row));
        assert(found.contains(row));
        let at = choose|at: int| 0 <= at < found.len() && found[at] == row;
        assert(found[at].1 == row.1);
    }
    assert forall|k: usize| #[trigger]
        order.contains(k) <==> k < list.len() && list[k as int].store_id.application_id@ == app_id by {
        if order.contains(k) {
            let at = choose|at: int| 0 <= at < order.len() && order[at] == k;
            assert(sorted[at].1 == k);
        }
        if k < list.len() && list[k as int].store_id.application_id@ == app_id {
            let row = (list[k as int].started, k);
            assert(found.contains(row));
            assert(sorted.contains(row));
            let at = choose|at: int| 0 <= at < sorted.len() && sorted[at] == row;
            assert(order[at] == k);
        }
    }
    assert forall|i: int, j: int| 0 <= i < j < order.len() implies starts_before(
        list[(#[trigger] order[i]) as int].started,
        list[(#[trigger] order[j]) as int].started,
    ) || (list[order[i] as int].started == list[order[j] as int].started && order[i] < order[j]) by {
        assert(sorted[i].1 == order[i] && sorted[j].1 == order[j]);
    }
    assert forall|i: int, j: int| 0 <= i < order.len() && 0 <= j < order.len() && i
        != j implies order[i] != order[j] by {
        if i < j {
            assert(sorted[i].1 == order[i] && sorted[j].1 == order[j]);
        } else {
            assert(sorted[j].1 == order[j] && sorted[i].1 == order[i]);
        }
    }
}

/// Which recordings an application has, and in what order, is settled by the list: there is
/// only one order.
pub proof fn law_app_order_is_unique(
    list: Seq<StartedRecording>,
    app_id: Seq<char>,
    a: Seq<usize>,
    b: Seq<usize>,
)
    requires
        is_app_order(list, app_id, a),
        is_app_order(list, app_id, b),
    ensures
        a == b,
    decreases a.len(),
{
    lemma_order_prefix(list, app_id, a, b, a.len() as int);
    lemma_order_prefix(list, app_id, b, a, b.len() as int);
    assert(a =~= b);
}

/// As far as one order goes, the other goes the same way.
proof fn lemma_order_prefix(
    list: Seq<StartedRecording>,
    app_id: Seq<char>,
    a: Seq<usize>,
    b: Seq<usize>,
    n: int,
)
    requires
        is_app_order(list, app_id, a),
        is_app_order(list, app_id, b),
        0 <= n <= a.len(),
    ensures
        n <= b.len(),
        forall|i: int| 0 <= i < n ==> a[i] == b[i],
    decreases n,
{
    if n > 0 {
        lemma_order_prefix(list, app_id, a, b, n - 1);
        let k = a[n - 1];
        assert(a.contains(k));
        assert(b.contains(k));
        let at = choose|at: int| 0 <= at < b.len() && b[at] == k;
        if at < n - 1 {
            assert(a[at] == b[at]);
            assert(a[at] == a[n - 1]);
            assert(false);
        }
        if at > n - 1 {
            let other = b[n - 1];
            assert(b.contains(other));
            assert(a.contains(other));
            let back = choose|back: int| 0 <= back < a.len() && a[back] == other;
            if back < n - 1 {
                assert(b[back] == a[back]);
                assert(b[back] == b[n - 1]);
                assert(false);
            }
            assert(back != n - 1);
            // `other` comes before `k` in `b` and behind it in `a`.
            assert(b[n - 1] == other && b[at] == k);
            assert(a[n - 1] == k && a[back] == other);
            assert(false);
        }
    }
}

// ---------------------------------------------------------------------------------------
// The card

/// The id of an application, as its card shows it.
pub fn app_id_label(app_id: &String, active_app_id: &Option<String>, lang: Language) -> (r: String)
    ensures
        r@ == app_id@ + (if active_app_id is Some && active_app_id->0@ == app_id@ {
            i18n::translated(lang, " (active)"@, "（当前活跃）"@)
        } else {
            Seq::empty()
        }),
{
    let mut out: String = app_id.clone();
    if let Some(active) = active_app_id {
        if *active == *app_id {
            out.append(tr(lang, " (active)", "（当前活跃）"));
            return out;
        }
    }
    assert(out@ =~= app_id@ + Seq::empty());
    out
}

/// What the card says of the recordings of an application.
#[derive(Debug)]
pub enum AppRecordings {
    /// Too little space for anything.
    Nothing,
    Summary(String),
    /// A heading, and a row for each of the recordings, in this order.
    List(&'static str, Vec<usize>),
}

/// What the card says of the recordings of an application. `count_text` is their number in
/// words.
pub fn app_recordings(
    list: &Vec<StartedRecording>,
    app_id: &String,
    layout: UiLayout,
    count_text: &str,
    lang: Language,
) -> (r: AppRecordings)
    ensures
        exists|order: Seq<usize>|
            is_app_order(list@, app_id@, order) && #[trigger] says_of_recordings(
                r,
                order,
                layout,
                count_text@,
                lang,
            ),
{
    let order: Vec<usize> = recordings_of_app(list, app_id);
    let ghost seen = order@;
    let r: AppRecordings = match layout {
        UiLayout::Inline | UiLayout::List => AppRecordings::Nothing,
        UiLayout::Tooltip => AppRecordings::Summary(
            if order.len() == 1 {
                tr(
                    lang,
                    "There is 1 loaded recording for this app.",
                    "该应用已加载 1 个录制文件。",
                ).to_owned()
            } else {
                text::cat3("该应用已加载 ", count_text, " 个录制文件。")
            },
        ),
        UiLayout::SelectionPanel => if order.len() == 0 {
            AppRecordings::Nothing
        } else {
            AppRecordings::List(
                tr(lang, "Loaded recordings for this app", "该应用已加载的录制文件"),
                order,
            )
        },
    };
    assert(says_of_recordings(r, seen, layout, count_text@, lang));
    r
}

/// What is said of recordings in this order.
pub open spec fn says_of_recordings(
    r: AppRecordings,
    order: Seq<usize>,
    layout: UiLayout,
    count_text: Seq<char>,
    lang: Language,
) -> bool {
    match layout {
        UiLayout::Inline | UiLayout::List => r == AppRecordings::Nothing,
        UiLayout::Tooltip => r matches AppRecordings::Summary(words) && words@ == (if order.len()
            == 1 {
            i18n::translated(
                lang,
                "There is 1 loaded recording for this app."@,
                "该应用已加载 1 个录制文件。"@,
            )
        } else {
            "该应用已加载 "@ + count_text + " 个录制文件。"@
        }),
        UiLayout::SelectionPanel => if order.len() == 0 {
            r == AppRecordings::Nothing
        } else {
            r matches AppRecordings::List(heading, rows) && heading@ == i18n::translated(
                lang,
                "Loaded recordings for this app"@,
                "该应用已加载的录制文件"@,
            ) && rows@ == order
        },
    }
}

/// The recordings of an application are listed once each, and none of another one is; those
/// whose start is unknown come first, then the others by their start, and those that started
/// together in the order that they have.
pub proof fn law_recordings_stand_by_their_start(
    list: Seq<StartedRecording>,
    app_id: Seq<char>,
    order: Seq<usize>,
    i: int,
    j: int,
    k: usize,
)
    requires
        is_app_order(list, app_id, order),
        0 <= i < j < order.len(),
    ensures
        order[i] != order[j],
        order[i] < list.len() && list[order[i] as int].store_id.application_id@ == app_id,
        k < list.len() && list[k as int].store_id.application_id@ == app_id ==> exists|at: int|
            0 <= at < order.len() && order[at] == k,
        list[order[j] as int].started is None ==> list[order[i] as int].started is None,
        list[order[i] as int].started is Some ==> list[order[i] as int].started->0
            <= list[order[j] as int].started->0,
        list[order[i] as int].started == list[order[j] as int].started ==> order[i] < order[j],
{
    assert(order.contains(order[i]));
    if k < list.len() && list[k as int].store_id.application_id@ == app_id {
        assert(order.contains(k));
    }
}

/// Where there is little room nothing is said; a tooltip gives the number; the panel lists the
/// recordings, if there are any.
pub proof fn law_room_decides_what_is_said(
    r: AppRecordings,
    order: Seq<usize>,
    layout: UiLayout,
    count_text: Seq<char>,
    lang: Language,
)
    requires
        says_of_recordings(r, order, layout, count_text, lang),
    ensures
        r is Nothing <==> layout is Inline || layout is List || (layout is SelectionPanel
            && order.len() == 0),
        r is Summary <==> layout is Tooltip,
        r matches AppRecordings::List(heading, rows) ==> rows@ == order,
        order.len() != 1 ==> (r matches AppRecordings::Summary(words) ==> text::occurs_in(
            words@,
            count_text,
        )),
{
    if let AppRecordings::Summary(words) = r {
        if order.len() != 1 {
            text::lemma_occurs_between("该应用已加载 "@, count_text, " 个录制文件。"@, words@);
        }
    }
}

} // verus!
