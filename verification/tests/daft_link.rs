use viewer_logic::daft_link::{
    base_url, dataset_name_from_tos_url, diagnose_url, encode_query_value, set_base_url, Console,
};
use viewer_logic::platform::Platform;

#[test]
fn dataset_name_is_the_last_path_segment() {
    assert_eq!(
        dataset_name_from_tos_url("tos://bucket/datasets/demo_v2/"),
        Some("demo_v2")
    );
    assert_eq!(
        dataset_name_from_tos_url("tos://bucket/demo_v2"),
        Some("demo_v2")
    );
    assert_eq!(dataset_name_from_tos_url("tos://bucket/"), None);
    assert_eq!(dataset_name_from_tos_url("tos://bucket"), None);
    assert_eq!(dataset_name_from_tos_url("hf://org/name"), None);
}

#[test]
fn query_values_are_percent_encoded() {
    assert_eq!(encode_query_value("demo_v2"), "demo_v2");
    assert_eq!(encode_query_value("a b&c"), "a%20b%26c");
}

/// Natively there is never a console address, which is what hides the buttons.
#[test]
fn native_has_no_console_address() {
    let mut console = Console::new(Platform::Native);
    set_base_url(&mut console, "https://example.com/curation");
    assert_eq!(base_url(&console), None);
    assert_eq!(
        diagnose_url(&console, "tos://bucket/datasets/demo/", Some("cn-beijing")),
        None
    );
}

#[test]
fn other_bytes_are_percent_encoded() {
    assert_eq!(encode_query_value("-._~"), "-._~");
    assert_eq!(encode_query_value("AZaz09"), "AZaz09");
    assert_eq!(encode_query_value("é/%"), "%C3%A9%2F%25");
    assert_eq!(encode_query_value("数"), "%E6%95%B0");
    assert_eq!(encode_query_value(""), "");
}

#[test]
fn the_web_has_a_console_on_its_own_domain() {
    let console = Console::new(Platform::Web);
    assert_eq!(base_url(&console).as_deref(), Some("/curation"));
    assert_eq!(
        diagnose_url(&console, "tos://bucket/datasets/demo/", Some("cn-beijing")).as_deref(),
        Some("/curation?dataset=tos%3A%2F%2Fbucket%2Fdatasets%2Fdemo%2F&region=cn-beijing")
    );
    assert_eq!(
        diagnose_url(&console, "tos://bucket/demo", None).as_deref(),
        Some("/curation?dataset=tos%3A%2F%2Fbucket%2Fdemo")
    );
    assert_eq!(
        diagnose_url(&console, "tos://bucket/demo", Some("")).as_deref(),
        Some("/curation?dataset=tos%3A%2F%2Fbucket%2Fdemo")
    );
    assert_eq!(diagnose_url(&console, "tos://bucket/", None), None);
}

#[test]
fn a_configured_address_is_trimmed() {
    let mut console = Console::new(Platform::Web);
    set_base_url(&mut console, "  https://example.com/console//\n");
    assert_eq!(base_url(&console).as_deref(), Some("https://example.com/console"));
    // An empty address goes back to that of the domain.
    set_base_url(&mut console, " / ");
    assert_eq!(base_url(&console).as_deref(), Some("/curation"));
}

#[test]
fn a_dataset_without_a_bucket_has_no_name() {
    assert_eq!(dataset_name_from_tos_url("tos:///name"), None);
    assert_eq!(dataset_name_from_tos_url("tos://"), None);
    assert_eq!(dataset_name_from_tos_url("tos://b//x"), Some("x"));
}
