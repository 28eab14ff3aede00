use viewer_logic::i18n::Language;
use viewer_logic::recent_datasets::{
    counted, now_unix, relative_time_label, remember, RecentDataset, RecentKind, MAX_RECENT,
};

fn entry(url: &str, when: i64) -> RecentDataset {
    RecentDataset {
        url: url.to_owned(),
        kind: RecentKind::Tos,
        region: String::new(),
        item_count: None,
        last_opened_unix: when,
        open_at_exit: false,
    }
}

#[test]
fn remember_dedups_and_keeps_metadata() {
    let mut list = Vec::new();
    remember(&mut list, entry("tos://b/a/", 1));
    let mut with_count = entry("tos://b/a/", 2);
    with_count.item_count = Some(47);
    remember(&mut list, with_count);
    // Re-open without a count: the learned count survives.
    remember(&mut list, entry("tos://b/a/", 3));

    assert_eq!(list.len(), 1);
    assert_eq!(list[0].last_opened_unix, 3);
    assert_eq!(list[0].item_count, Some(47));
}

#[test]
fn remember_caps_and_orders_most_recent_first() {
    let mut list = Vec::new();
    for i in 0..20 {
        remember(&mut list, entry(&format!("tos://b/{i}/"), i));
    }
    assert_eq!(list.len(), MAX_RECENT);
    assert_eq!(list[0].url, "tos://b/19/");
}

#[test]
fn display_name_is_last_segment() {
    assert_eq!(entry("tos://bucket/data/set-1/", 0).display_name(), "set-1");
    assert_eq!(entry("hf://org/name", 0).display_name(), "name");
}

#[test]
fn relative_time_labels() {
    let label = |last, now| relative_time_label(Language::Chinese, last, now);
    assert_eq!(label(100, 130), "刚刚");
    assert_eq!(label(0, 5 * 60), "5 分钟前");
    assert_eq!(label(0, 3 * 60 * 60), "3 小时前");
    assert_eq!(label(0, 30 * 60 * 60), "昨天");
    assert_eq!(label(0, 3 * 24 * 60 * 60), "3 天前");
    // A clock that went backwards must not underflow.
    assert_eq!(label(100, 50), "刚刚");
}

#[test]
fn relative_time_labels_in_english() {
    let label = |last, now| relative_time_label(Language::English, last, now);
    assert_eq!(label(0, 59), "just now");
    assert_eq!(label(0, 5 * 60), "5 min ago");
    assert_eq!(label(0, 3 * 60 * 60), "3 h ago");
    assert_eq!(label(0, 24 * 60 * 60), "yesterday");
    assert_eq!(label(0, 2 * 24 * 60 * 60), "2 days ago");
}

#[test]
fn relative_time_saturates() {
    assert_eq!(
        relative_time_label(Language::Chinese, i64::MIN, i64::MAX),
        "106751991167300 天前"
    );
    assert_eq!(relative_time_label(Language::Chinese, i64::MAX, i64::MIN), "刚刚");
}

#[test]
fn a_known_count_replaces_the_learned_one() {
    let mut list = Vec::new();
    let mut first = entry("tos://b/a/", 1);
    first.item_count = Some(3);
    remember(&mut list, first);
    let mut second = entry("tos://b/a/", 2);
    second.item_count = Some(9);
    remember(&mut list, second);
    assert_eq!(list[0].item_count, Some(9));
}

#[test]
fn the_others_keep_their_order() {
    let mut list = Vec::new();
    for name in ["a", "b", "c"] {
        remember(&mut list, entry(name, 0));
    }
    remember(&mut list, entry("a", 1));
    let urls: Vec<&str> = list.iter().map(|r| r.url.as_str()).collect();
    assert_eq!(urls, vec!["a", "c", "b"]);
    // Once more changes nothing.
    let before = format!("{list:?}");
    remember(&mut list, entry("a", 1));
    assert_eq!(format!("{list:?}"), before);
}

#[test]
fn the_oldest_is_dropped() {
    let mut list = Vec::new();
    for i in 0..11 {
        remember(&mut list, entry(&format!("u{i}"), i));
    }
    assert_eq!(list.len(), 10);
    assert_eq!(list[9].url, "u1");
}

#[test]
fn a_url_of_slashes_is_its_own_name() {
    assert_eq!(entry("///", 0).display_name(), "///");
    assert_eq!(entry("", 0).display_name(), "");
    assert_eq!(entry("plain", 0).display_name(), "plain");
    assert_eq!(entry("a//", 0).display_name(), "a");
}

#[test]
fn numbers_come_before_their_words() {
    assert_eq!(counted(0, " 个"), "0 个");
    assert_eq!(counted(18446744073709551615, "!"), "18446744073709551615!");
}

#[test]
fn unix_seconds_are_whole() {
    assert_eq!(now_unix(1_999_999_999), 1);
    assert_eq!(now_unix(-1_999_999_999), -1);
    assert_eq!(now_unix(0), 0);
}

#[test]
fn a_clone_of_a_recent_dataset_is_equal() {
    let mut r = entry("tos://b/a/", 5);
    r.region = "cn-beijing".to_owned();
    r.kind = RecentKind::Hf;
    r.item_count = Some(2);
    r.open_at_exit = true;
    assert_eq!(format!("{:?}", r.clone()), format!("{:?}", r));
}
