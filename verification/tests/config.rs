use viewer_logic::daft_link::{base_url, Console};
use viewer_logic::data_source::TosLocation;
use viewer_logic::native_config::{local_config_path, read_warning};
use viewer_logic::platform::Platform;
use viewer_logic::viewer_config::{
    env_override, env_override_count, get, request, resolve_web, store_is_on, ConfigEnv,
    ConfigResponse, ConfigState, HttpStatus, ViewerConfig,
};

const DEFAULT_ARTIFACTS_URL: &str = "tos://physical-ai-rerun-test/rrd-artifacts/";

fn default_config() -> ViewerConfig {
    ViewerConfig::new(DEFAULT_ARTIFACTS_URL.to_owned())
}

fn default_store() -> Option<TosLocation> {
    Some(TosLocation {
        bucket: "physical-ai-rerun-test".to_owned(),
        prefix: "rrd-artifacts/".to_owned(),
    })
}

fn no_env() -> ConfigEnv {
    ConfigEnv {
        tos_endpoint: None,
        tos_region: None,
        tos_access_key: None,
        tos_secret_key: None,
        hf_token: None,
        hf_endpoint: None,
        tos_rrd_artifacts_url: None,
        tos_rrd_artifacts_region: None,
        rrd_artifacts_prefetch: None,
    }
}

#[test]
fn artifacts_store_defaults_on_but_needs_credentials() {
    // An absent key resolves to the default bucket…
    let mut config = default_config();
    assert_eq!(config.tos_rrd_artifacts_url, DEFAULT_ARTIFACTS_URL);
    // …but without TOS credentials there is no artifacts target.
    assert!(config.rrd_artifacts(&default_store(), true).is_none());

    config.tos_access_key = "ak".to_owned();
    config.tos_secret_key = "sk".to_owned();
    let artifacts = config.rrd_artifacts(&default_store(), true).unwrap();
    assert_eq!(artifacts.location.bucket, "physical-ai-rerun-test");
    assert!(artifacts.write_back);
}

#[test]
fn artifacts_store_off_switch_wins_over_credentials() {
    let config = ViewerConfig {
        tos_access_key: "ak".to_owned(),
        tos_secret_key: "sk".to_owned(),
        tos_rrd_artifacts_url: "off".to_owned(),
        ..default_config()
    };
    assert!(config.rrd_artifacts(&default_store(), false).is_none());
}

#[test]
fn credentials_need_both_keys() {
    let mut config = ViewerConfig {
        tos_access_key: "ak".to_owned(),
        ..default_config()
    };
    assert!(!config.has_tos_credentials());
    config.tos_secret_key = "sk".to_owned();
    assert!(config.has_tos_credentials());
}

#[test]
fn artifacts_carry_the_settings() {
    let config = ViewerConfig {
        tos_endpoint: "https://tos.example.com".to_owned(),
        tos_region: "cn-beijing".to_owned(),
        tos_access_key: "ak".to_owned(),
        tos_secret_key: "sk".to_owned(),
        rrd_artifacts_prefetch: 4,
        ..default_config()
    };
    let artifacts = config.rrd_artifacts(&default_store(), false).unwrap();
    assert_eq!(artifacts.credentials.endpoint, "https://tos.example.com");
    assert_eq!(artifacts.credentials.region, "cn-beijing");
    assert_eq!(artifacts.credentials.access_key, "ak");
    assert_eq!(artifacts.credentials.secret_key, "sk");
    assert_eq!(artifacts.location.prefix, "rrd-artifacts/");
    assert_eq!(artifacts.prefetch_items, 4);
    assert!(!artifacts.write_back);
    // An address that names no place gives no target.
    assert!(config.rrd_artifacts(&None, false).is_none());
}

#[test]
fn an_empty_address_turns_the_store_off() {
    assert!(!store_is_on(&String::new()));
    assert!(!store_is_on(&"off".to_owned()));
    assert!(store_is_on(&"OFF".to_owned()));
    assert!(store_is_on(&DEFAULT_ARTIFACTS_URL.to_owned()));
}

#[test]
fn the_environment_overrides_what_it_sets() {
    assert_eq!(env_override("file".to_owned(), &Some("env".to_owned())), "env");
    assert_eq!(env_override("file".to_owned(), &Some(String::new())), "file");
    assert_eq!(env_override("file".to_owned(), &None), "file");
    assert_eq!(env_override_count(3, &Some(" 12\n".to_owned())), 12);
    assert_eq!(env_override_count(3, &Some("+7".to_owned())), 7);
    assert_eq!(env_override_count(3, &Some("-7".to_owned())), 3);
    assert_eq!(env_override_count(3, &Some("many".to_owned())), 3);
    assert_eq!(env_override_count(3, &Some("99999999999999999999999".to_owned())), 3);
    assert_eq!(env_override_count(3, &None), 3);
}

#[test]
fn the_environment_overrides_each_setting() {
    let env = ConfigEnv {
        tos_endpoint: Some("E".to_owned()),
        tos_region: Some("R".to_owned()),
        tos_access_key: Some("A".to_owned()),
        tos_secret_key: Some("S".to_owned()),
        hf_token: Some("H".to_owned()),
        tos_rrd_artifacts_url: Some("off".to_owned()),
        rrd_artifacts_prefetch: Some("5".to_owned()),
        ..no_env()
    };
    let config = default_config().with_env(&env);
    assert_eq!(config.tos_endpoint, "E");
    assert_eq!(config.tos_region, "R");
    assert_eq!(config.tos_access_key, "A");
    assert_eq!(config.tos_secret_key, "S");
    assert_eq!(config.hf_token, "H");
    assert_eq!(config.tos_rrd_artifacts_url, "off");
    assert_eq!(config.rrd_artifacts_prefetch, 5);
    assert_eq!(config.daft_url, "");
    // Applying it again changes nothing, and an empty environment never does.
    let before = format!("{config:?}");
    let again = config.with_env(&env);
    assert_eq!(format!("{again:?}"), before);
    assert_eq!(format!("{:?}", again.with_env(&no_env())), before);
}

#[test]
fn the_served_settings_are_taken() {
    let served = ViewerConfig { hf_token: "hf_x".to_owned(), ..default_config() };
    let ok = HttpStatus { status: 200, status_text: "OK".to_owned() };
    let (config, warning) =
        resolve_web(ConfigResponse::Response(ok, Ok(served)), "default".to_owned());
    assert_eq!(config.hf_token, "hf_x");
    assert_eq!(config.tos_rrd_artifacts_url, DEFAULT_ARTIFACTS_URL);
    assert_eq!(warning, None);
}

#[test]
fn broken_settings_give_the_defaults() {
    let ok = HttpStatus { status: 200, status_text: "OK".to_owned() };
    let (config, warning) = resolve_web(
        ConfigResponse::Response(ok, Err("bad json".to_owned())),
        "default".to_owned(),
    );
    assert_eq!(config.tos_rrd_artifacts_url, "default");
    assert_eq!(config.tos_endpoint, "");
    assert_eq!(
        warning.as_deref(),
        Some("Failed to parse viewer defaults: bad json\nFile: tos-config.json")
    );
}

#[test]
fn refused_settings_give_the_defaults() {
    let refused = HttpStatus { status: 401, status_text: "Unauthorized".to_owned() };
    let (config, warning) = resolve_web(
        ConfigResponse::Response(refused, Ok(ViewerConfig::new("served".to_owned()))),
        "default".to_owned(),
    );
    assert_eq!(config.tos_rrd_artifacts_url, "default");
    assert_eq!(
        warning.as_deref(),
        Some("Failed to load viewer defaults: HTTP 401 Unauthorized\nFile: tos-config.json")
    );
    let (config, warning) =
        resolve_web(ConfigResponse::NoResponse("offline".to_owned()), "default".to_owned());
    assert_eq!(config.tos_rrd_artifacts_url, "default");
    assert_eq!(
        warning.as_deref(),
        Some("Failed to load viewer defaults: offline\nFile: tos-config.json")
    );
}

#[test]
fn settings_are_requested_once() {
    let mut state = ConfigState::new();
    assert!(get(&state).is_none());
    assert!(request(&mut state));
    assert!(!request(&mut state));
    assert!(get(&state).is_none());

    let mut console = Console::new(Platform::Web);
    let parsed = ViewerConfig { daft_url: "https://c/".to_owned(), ..default_config() };
    state.resolve(parsed, &mut console);
    assert_eq!(get(&state).unwrap().daft_url, "https://c/");
    assert_eq!(base_url(&console).as_deref(), Some("https://c"));
    assert!(!request(&mut state));
}

#[test]
fn the_config_file_is_looked_for_in_order() {
    let path = local_config_path(Some("/x.json".to_owned()), Some("/home/a".to_owned()), None);
    let path = path.unwrap();
    assert_eq!(path.base, "/x.json");
    assert!(path.below.is_empty());

    let path = local_config_path(None, Some("/home/a".to_owned()), Some("C:".to_owned())).unwrap();
    assert_eq!(path.base, "/home/a");
    assert_eq!(path.below, vec![".rerun".to_owned(), "config.json".to_owned()]);

    let path = local_config_path(None, None, Some("C:".to_owned())).unwrap();
    assert_eq!(path.base, "C:");
    assert!(local_config_path(None, None, None).is_none());
}

#[test]
fn a_missing_config_file_is_no_warning() {
    assert_eq!(read_warning(true, "not found", "/x"), None);
    assert_eq!(
        read_warning(false, "denied", "/x").as_deref(),
        Some("Failed to read local viewer config: denied\nFile path: /x")
    );
}
