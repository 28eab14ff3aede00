//! How long ago something was.
use vstd::prelude::*;
use vstd::string::*;

use crate::i18n;
use crate::i18n::{tr, Language};
use crate::text;

verus! {

/// A number of units, ago. English pluralizes the unit ("2 minutes ago"); Chinese does not
/// ("2 分钟前").
pub open spec fn units_ago(lang: Language, n: nat, english: Seq<char>, chinese: Seq<char>) -> Seq<
    char,
> {
    match lang {
        Language::English => if n == 1 {
            "1 "@ + english + " ago"@
        } else {
            text::decimal(n) + " "@ + english + "s ago"@
        },
        Language::Chinese => text::decimal(n) + " "@ + chinese + "前"@,
    }
}

/// A duration in a short, readable format. What is over 7 days ago is given as the time it
/// was.
pub open spec fn short_age(lang: Language, seconds: nat, timestamp: Seq<char>) -> Seq<char> {
    if seconds < 10 {
        i18n::translated(lang, "just now"@, "刚刚"@)
    } else if seconds < 60 {
        i18n::translated(lang, "less than a minute ago"@, "不到一分钟前"@)
    } else if seconds < 3600 {
        units_ago(lang, seconds / 60, "minute"@, "分钟"@)
    } else if seconds < 24 * 3600 {
        units_ago(lang, seconds / 3600, "hour"@, "小时"@)
    } else if seconds < 7 * 24 * 3600 {
        units_ago(lang, seconds / 86400, "day"@, "天"@)
    } else {
        timestamp
    }
}

fn ago(lang: Language, n: u64, english: &str, chinese: &str) -> (r: String)
    ensures
        r@ == units_ago(lang, n as nat, english@, chinese@),
{
    match lang {
        Language::English => if n == 1 {
            text::cat3("1 ", english, " ago")
        } else {
            text::cat4(text::decimal_text(n).as_str(), " ", english, "s ago")
        },
        Language::Chinese => text::cat4(text::decimal_text(n).as_str(), " ", chinese, "前"),
    }
}

/// Formats a duration in a short, readable format, e.g. ("1 hour ago" or "2 minutes ago").
///
/// `seconds` is how long ago it is, and `timestamp` is the time it was, which is given for
/// what is over 7 days ago.
pub fn format_duration_short(lang: Language, seconds: u64, timestamp: &String) -> (r: String)
    ensures
        r@ == short_age(lang, seconds as nat, timestamp@),
{
    if seconds < 10 {
        tr(lang, "just now", "刚刚").to_owned()
    } else if seconds < 60 {
        tr(lang, "less than a minute ago", "不到一分钟前").to_owned()
    } else if seconds < 3600 {
        ago(lang, seconds / 60, "minute", "分钟")
    } else if seconds < 24 * 3600 {
        ago(lang, seconds / 3600, "hour", "小时")
    } else if seconds < 7 * 24 * 3600 {
        ago(lang, seconds / 86400, "day", "天")
    } else {
        timestamp.clone()
    }
}

/// When to show it again, in seconds, so that it doesn't say "just now" forever.
pub open spec fn refresh_after(seconds: nat) -> nat {
    if seconds < 60 {
        1
    } else if seconds < 3600 {
        60
    } else {
        3600
    }
}

/// A time, as it is shown: how long ago it is, and when to show it again.
pub fn short_duration(lang: Language, seconds: u64, timestamp: &String) -> (r: (String, u64))
    ensures
        r.0@ == short_age(lang, seconds as nat, timestamp@),
        r.1 == refresh_after(seconds as nat),
{
    let repaint_in_sec: u64 = if seconds < 60 {
        1
    } else if seconds < 3600 {
        60
    } else {
        3600
    };
    (format_duration_short(lang, seconds, timestamp), repaint_in_sec)
}

/// What is shown is never out of date by more than one unit of what it is given in: within the
/// time until it is shown again, minutes, hours and days go up by one at most.
pub proof fn law_refresh_keeps_up(seconds: nat, later: nat)
    requires
        seconds <= later <= seconds + refresh_after(seconds),
    ensures
        60 <= seconds < 3600 ==> later / 60 <= seconds / 60 + 1,
        3600 <= seconds ==> later / 3600 <= seconds / 3600 + 1,
        86400 <= seconds ==> later / 86400 <= seconds / 86400 + 1,
{
}

/// How long ago something was is said in whole minutes, hours or days, the most that have
/// passed, in the singular where it is one of them. What is a week old or more is given by its
/// time.
pub proof fn law_age_is_said_in_whole_units(seconds: nat, k: nat, timestamp: Seq<char>)
    ensures
        seconds < 10 ==> short_age(Language::English, seconds, timestamp) == "just now"@
            && short_age(Language::Chinese, seconds, timestamp) == "刚刚"@,
        10 <= seconds < 60 ==> short_age(Language::English, seconds, timestamp)
            == "less than a minute ago"@ && short_age(Language::Chinese, seconds, timestamp)
            == "不到一分钟前"@,
        1 <= k < 60 && 60 * k <= seconds < 60 * (k + 1) ==> {
            &&& short_age(Language::English, seconds, timestamp) == (if k == 1 {
                "1 "@ + "minute"@ + " ago"@
            } else {
                text::decimal(k) + " "@ + "minute"@ + "s ago"@
            })
            &&& short_age(Language::Chinese, seconds, timestamp) == text::decimal(k) + " "@
                + "分钟"@ + "前"@
        },
        1 <= k < 24 && 3600 * k <= seconds < 3600 * (k + 1) ==> {
            &&& short_age(Language::English, seconds, timestamp) == (if k == 1 {
                "1 "@ + "hour"@ + " ago"@
            } else {
                text::decimal(k) + " "@ + "hour"@ + "s ago"@
            })
            &&& short_age(Language::Chinese, seconds, timestamp) == text::decimal(k) + " "@
                + "小时"@ + "前"@
        },
        1 <= k < 7 && 86400 * k <= seconds < 86400 * (k + 1) ==> {
            &&& short_age(Language::English, seconds, timestamp) == (if k == 1 {
                "1 "@ + "day"@ + " ago"@
            } else {
                text::decimal(k) + " "@ + "day"@ + "s ago"@
            })
            &&& short_age(Language::Chinese, seconds, timestamp) == text::decimal(k) + " "@
                + "天"@ + "前"@
        },
        seconds >= 604800 ==> short_age(Language::English, seconds, timestamp) == timestamp
            && short_age(Language::Chinese, seconds, timestamp) == timestamp,
{
}

/// It is shown again no more often than needed: every second in the first minute, every minute
/// in the first hour, and every hour from then on.
pub proof fn law_refresh_is_no_more_often_than_needed(seconds: nat)
    ensures
        seconds < 60 ==> refresh_after(seconds) == 1,
        60 <= seconds < 3600 ==> refresh_after(seconds) == 60,
        3600 <= seconds ==> refresh_after(seconds) == 3600,
{
}

} // verus!
