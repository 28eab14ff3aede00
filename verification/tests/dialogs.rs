use viewer_logic::data_source::{LogDataSource, TosLocation};
use viewer_logic::dialogs::delete_artifacts;
use viewer_logic::dialogs::delete_artifacts::{DeleteAnswer, DeleteArtifactsModal, DeleteOutcome};
use viewer_logic::dialogs::open_hf;
use viewer_logic::dialogs::open_hf::{HfDatasetInput, OpenHfModal};
use viewer_logic::dialogs::open_tos;
use viewer_logic::dialogs::open_tos::{
    artifact_endpoint_base, tos_region_label, tos_regions, NoteKind, OpenTosModal, TosDialogInputs,
    URL_ERROR_DELAY_NANOS,
};
use viewer_logic::dialogs::server_config::{
    fetch_outcome, hf_fetch_warning, place_of_store, tos_fetch_warning, ServerHfConfig,
    ServerTosConfig,
};
use viewer_logic::effects::ArtifactDeletionRequest;
use viewer_logic::i18n::Language;
use viewer_logic::platform::Platform;
use viewer_logic::recent_datasets::{RecentDataset, RecentKind};
use viewer_logic::session_restore::{
    restore_message, sources_to_restore, ConfigWait, RestoreCandidate, SessionRestore,
    StartupFacts, CONFIG_WAIT_NANOS,
};
use viewer_logic::viewer_config::{ConfigEnv, ConfigResponse, HttpStatus, ViewerConfig};

const ZH: Language = Language::Chinese;
const EN: Language = Language::English;

fn place(bucket: &str) -> Option<TosLocation> {
    Some(TosLocation { bucket: bucket.to_owned(), prefix: "p/".to_owned() })
}

fn deployment() -> ServerTosConfig {
    ServerTosConfig {
        tos_endpoint: "https://tos-cn-beijing.volces.com".to_owned(),
        tos_access_key: "AK".to_owned(),
        tos_secret_key: "SK".to_owned(),
        tos_rrd_artifacts_url: "tos://store/p/".to_owned(),
        tos_rrd_artifacts_region: String::new(),
        rrd_artifacts_prefetch: 3,
    }
}

fn inputs() -> TosDialogInputs {
    TosDialogInputs {
        platform: Platform::Web,
        location: place("data"),
        resolved_endpoint: "https://tos-cn-shanghai.volces.com".to_owned(),
        artifacts_location: place("store"),
        url_focused: false,
        now: 0,
    }
}

fn modal() -> OpenTosModal {
    let mut m = OpenTosModal::new();
    m.open();
    m.url = "tos://data/p/".to_owned();
    m.region = "cn-shanghai".to_owned();
    m.server_config = Some(Ok(deployment()));
    m
}

#[test]
fn settings_are_fetched_once() {
    let mut m = OpenTosModal::new();
    assert!(!m.is_open);
    assert!(m.open());
    assert!(m.is_open && m.just_opened);
    m.drawn();
    assert!(!m.just_opened);
    m.close();
    assert!(!m.is_open);
    assert!(!m.open_prefilled(&"tos://b/x/".to_owned(), &"cn-hongkong".to_owned()));
    assert_eq!((m.url.as_str(), m.region.as_str()), ("tos://b/x/", "cn-hongkong"));
    m.open_prefilled(&"tos://b/y/".to_owned(), &String::new());
    assert_eq!((m.url.as_str(), m.region.as_str()), ("tos://b/y/", "cn-hongkong"));
}

#[test]
fn the_region_defaults_to_that_of_the_endpoint() {
    let mut m = OpenTosModal::new();
    m.fill_region(&"cn-beijing".to_owned());
    assert_eq!(m.region, "");
    m.server_config = Some(Ok(deployment()));
    m.fill_region(&"cn-beijing".to_owned());
    assert_eq!(m.region, "cn-beijing");
    m.fill_region(&"cn-hongkong".to_owned());
    assert_eq!(m.region, "cn-beijing");
}

#[test]
fn regions_have_labels() {
    assert_eq!(tos_regions().len(), 6);
    assert_eq!(tos_region_label(&"cn-beijing".to_owned(), ZH), "华北2（北京）");
    assert_eq!(tos_region_label(&"cn-beijing".to_owned(), EN), "cn-beijing (Beijing)");
    assert_eq!(tos_region_label(&"mars-1".to_owned(), EN), "mars-1");
}

#[test]
fn a_complete_dialog_can_be_submitted() {
    let m = modal();
    let c = m.effective_config();
    let d = m.contents(&c, &inputs(), EN);
    assert!(d.can_open);
    assert_eq!(d.note_kind, NoteKind::Label);
    assert_eq!(d.region_label, "cn-shanghai (Shanghai)");
    assert!(!d.key_fields && !d.internal_endpoint);
    assert_eq!(d.config_warning, None);
    assert_eq!(d.upload_to.unwrap().bucket, "store");
    assert!(m.is_submitted(&c, &inputs(), false, true));
    assert!(m.is_submitted(&c, &inputs(), true, false));
    assert!(!m.is_submitted(&c, &inputs(), false, false));
}

#[test]
fn the_dialog_says_what_is_missing() {
    let mut m = modal();
    let note = |m: &OpenTosModal| m.contents(&m.effective_config(), &inputs(), EN).note;
    m.region = "  ".to_owned();
    assert_eq!(note(&m), "Region is required.");
    let d = m.contents(&m.effective_config(), &inputs(), EN);
    assert_eq!(d.region_label, "Select a region");
    assert!(!d.can_open);
    m.region = "cn-beijing".to_owned();
    m.use_custom_credentials = true;
    assert_eq!(note(&m), "Enter the access key and secret key.");
    m.use_custom_credentials = false;
    m.server_config = Some(Ok(ServerTosConfig::default()));
    assert!(note(&m).starts_with("This deployment has no TOS credentials"));
    m.server_config = None;
    assert_eq!(note(&m), "Loading the deployment's TOS settings…");
    m.server_config = Some(Err("HTTP 401 Unauthorized".to_owned()));
    let d = m.contents(&m.effective_config(), &inputs(), EN);
    assert_eq!(
        d.config_warning.as_deref(),
        Some(
            "Failed to load the deployment's TOS settings (endpoint, credentials): HTTP 401 Unauthorized\nFile: config.json — datasets cannot be opened until this is fixed."
        )
    );
    // Enter does nothing where the dataset cannot be opened.
    assert!(!m.is_submitted(&m.effective_config(), &inputs(), false, true));
}

#[test]
fn a_bad_url_is_an_error_once_the_user_pauses() {
    let mut m = modal();
    let c = m.effective_config();
    let at = |now, url_focused| TosDialogInputs { location: None, now, url_focused, ..inputs() };
    assert_eq!(m.contents(&c, &at(0, true), EN).note_kind, NoteKind::Error);
    m.url_drawn(true, 100);
    m.url_drawn(false, 900);
    assert_eq!(m.url_last_edited, Some(100));
    assert_eq!(m.contents(&c, &at(200, true), EN).note_kind, NoteKind::Hint);
    assert_eq!(m.contents(&c, &at(200, false), EN).note_kind, NoteKind::Error);
    let later = 100 + URL_ERROR_DELAY_NANOS;
    assert_eq!(m.contents(&c, &at(later, true), EN).note_kind, NoteKind::Error);
    assert_eq!(m.contents(&c, &at(later - 1, true), EN).note_kind, NoteKind::Hint);
    assert!(m.contents(&c, &at(0, true), EN).note.starts_with("The URL should look like"));
    m.url = String::new();
    assert_eq!(m.contents(&c, &at(0, true), EN).note_kind, NoteKind::Label);
}

#[test]
fn browsers_are_warned_of_internal_endpoints() {
    let m = modal();
    let c = m.effective_config();
    let mut i = inputs();
    i.resolved_endpoint = "https://tos-cn-beijing.ivolces.com".to_owned();
    assert!(m.contents(&c, &i, EN).internal_endpoint);
    i.platform = Platform::Native;
    assert!(!m.contents(&c, &i, EN).internal_endpoint);
}

#[test]
fn a_dataset_is_opened_with_its_keys() {
    let mut m = modal();
    let c = m.effective_config();
    let endpoint = "https://tos-x.volces.com".to_owned();
    let source = m.source(&c, &inputs(), &endpoint).unwrap();
    assert_eq!(source.location.bucket, "data");
    assert_eq!(source.credentials.endpoint, "https://tos-cn-shanghai.volces.com");
    assert_eq!(source.credentials.access_key, "AK");
    let artifacts = source.rrd_artifacts.unwrap();
    assert_eq!(artifacts.location.bucket, "store");
    assert_eq!(artifacts.credentials.endpoint, endpoint);
    assert!(artifacts.write_back);
    assert_eq!(artifacts.prefetch_items, 3);

    // The user's own keys, without blanks; the copies keep the deployment's.
    m.use_custom_credentials = true;
    m.access_key = " mine ".to_owned();
    m.secret_key = "secret\n".to_owned();
    m.artifact_upload_disabled = true;
    let source = m.source(&c, &inputs(), &endpoint).unwrap();
    assert_eq!(source.credentials.access_key, "mine");
    assert_eq!(source.credentials.secret_key, "secret");
    let artifacts = source.rrd_artifacts.unwrap();
    assert_eq!(artifacts.credentials.access_key, "AK");
    assert!(!artifacts.write_back);

    let none = ServerTosConfig { tos_access_key: String::new(), ..deployment() };
    let artifacts = m.source(&none, &inputs(), &endpoint).unwrap().rrd_artifacts.unwrap();
    assert_eq!(artifacts.credentials.access_key, "mine");
    let off = ServerTosConfig { tos_rrd_artifacts_url: "off".to_owned(), ..deployment() };
    assert!(m.source(&off, &inputs(), &endpoint).unwrap().rrd_artifacts.is_none());
    let nowhere = TosDialogInputs { location: None, ..inputs() };
    assert!(m.source(&c, &nowhere, &endpoint).is_none());
}

#[test]
fn the_copies_have_an_endpoint_of_their_own() {
    let resolved = "https://resolved".to_owned();
    assert_eq!(
        artifact_endpoint_base(&deployment(), &resolved),
        "https://tos-cn-beijing.volces.com"
    );
    assert_eq!(artifact_endpoint_base(&ServerTosConfig::default(), &resolved), "https://resolved");
    assert!(place_of_store(&ServerTosConfig::default(), &place("x")).is_none());
    assert!(place_of_store(&deployment(), &place("x")).is_some());
}

#[test]
fn dialogs_have_texts() {
    assert_eq!(open_tos::dialog_texts(ZH).title, "从火山引擎 TOS 打开");
    assert_eq!(open_hf::dialog_texts(EN).title, "Open from Hugging Face");
    assert_eq!(delete_artifacts::dialog_texts(ZH).0, "删除 rrd 制品？");
}

fn env() -> ConfigEnv {
    ConfigEnv {
        tos_endpoint: Some("E".to_owned()),
        tos_region: None,
        tos_access_key: Some(String::new()),
        tos_secret_key: None,
        hf_token: Some("hf_env".to_owned()),
        hf_endpoint: Some("https://mirror".to_owned()),
        tos_rrd_artifacts_url: None,
        tos_rrd_artifacts_region: Some("cn-hongkong".to_owned()),
        rrd_artifacts_prefetch: Some("8".to_owned()),
    }
}

#[test]
fn the_environment_overrides_the_settings_of_the_dialogs() {
    let c = deployment().with_env(&env());
    assert_eq!(c.tos_endpoint, "E");
    assert_eq!(c.tos_access_key, "AK");
    assert_eq!(c.tos_rrd_artifacts_region, "cn-hongkong");
    assert_eq!(c.rrd_artifacts_prefetch, 8);
    assert!(c.has_credentials());
    assert!(!ServerTosConfig::default().has_credentials());
    let c = ServerHfConfig { tos: deployment(), ..ServerHfConfig::default() }.with_env(&env());
    assert_eq!(c.hf_token, "hf_env");
    assert_eq!(c.hf_endpoint, "https://mirror");
    assert_eq!(c.tos.tos_secret_key, "SK");
}

#[test]
fn a_failed_fetch_is_explained() {
    let status = |status, text: &str| HttpStatus { status, status_text: text.to_owned() };
    assert_eq!(fetch_outcome(ConfigResponse::Response(status(200, "OK"), Ok(7))), Ok(7));
    assert_eq!(
        fetch_outcome::<i32>(ConfigResponse::Response(status(200, "OK"), Err("eof".to_owned()))),
        Err("invalid JSON: eof".to_owned())
    );
    assert_eq!(
        fetch_outcome(ConfigResponse::Response(status(404, "Not Found"), Ok(7))),
        Err("HTTP 404 Not Found".to_owned())
    );
    assert_eq!(
        fetch_outcome::<i32>(ConfigResponse::NoResponse("offline".to_owned())),
        Err("offline".to_owned())
    );
    assert_eq!(
        tos_fetch_warning("e", EN),
        "Failed to load server TOS defaults: e\nFile: config.json"
    );
    assert_eq!(hf_fetch_warning("e", ZH), "加载服务器端默认配置失败：e\n文件：config.json");
}

fn hf_input(file_path: Option<&str>) -> Option<HfDatasetInput> {
    Some(HfDatasetInput {
        repo: "org/name".to_owned(),
        file_path: file_path.map(|p| p.to_owned()),
    })
}

#[test]
fn a_hugging_face_dataset_is_opened() {
    let mut m = OpenHfModal::new();
    assert!(m.open());
    assert!(!m.open_prefilled(&"org/name".to_owned()));
    assert_eq!(m.dataset, "org/name");
    m.drawn();
    assert!(!m.just_opened);
    m.server_config = Some(Ok(ServerHfConfig {
        hf_token: "hf_x".to_owned(),
        hf_endpoint: String::new(),
        tos: deployment(),
    }));
    let c = m.effective_config();
    let d = m.contents(&c, &hf_input(None), &place("store"));
    assert!(d.can_open && !d.note_is_error && !d.token_field);
    assert_eq!(
        d.note,
        "将流式读取 hf://org/name；各集（episode）会立即出现，点击某一集可以优先加载它。"
    );
    let d = m.contents(&c, &hf_input(Some("a.mcap")), &place("store"));
    assert_eq!(d.note, "将从 hf://org/name 加载单个文件 a.mcap。");
    let d = m.contents(&c, &None, &place("store"));
    assert!(!d.can_open && d.note_is_error);

    let source = m.source(&c, hf_input(Some("a.mcap")), &place("store"), &"E".to_owned()).unwrap();
    assert_eq!(source.repo, "org/name");
    assert_eq!(source.file_path.as_deref(), Some("a.mcap"));
    assert_eq!(source.token, "hf_x");
    let artifacts = source.rrd_artifacts.unwrap();
    assert_eq!(artifacts.credentials.access_key, "AK");
    assert_eq!(artifacts.credentials.endpoint, "E");
    m.use_custom_token = true;
    m.token = " own ".to_owned();
    let source = m.source(&c, hf_input(None), &None, &"E".to_owned()).unwrap();
    assert_eq!(source.token, "own");
    assert!(source.rrd_artifacts.is_none());
    assert!(m.source(&c, None, &None, &"E".to_owned()).is_none());
    assert!(m.is_submitted(&hf_input(None), false, true));
    assert!(!m.is_submitted(&None, false, true));
    m.close();
    assert!(!m.is_open);
}

#[test]
fn an_empty_hugging_face_dialog_asks_for_a_dataset() {
    let mut m = OpenHfModal::new();
    let d = m.contents(&m.effective_config(), &None, &None);
    assert_eq!(d.note, "请输入一个 Hugging Face 数据集。");
    assert!(!d.note_is_error);
    m.server_config = Some(Err("HTTP 500".to_owned()));
    let d = m.contents(&m.effective_config(), &None, &None);
    assert_eq!(
        d.config_warning.as_deref(),
        Some(
            "加载服务器端默认配置（HF token、制品库凭证）失败：HTTP 500\n文件：config.json — 各集将改为本地转换，而不是从制品库加载。"
        )
    );
}

fn deletion(episode: Option<usize>) -> ArtifactDeletionRequest {
    ArtifactDeletionRequest {
        application_id: "app".to_owned(),
        dataset_url: "tos://b/d/".to_owned(),
        episode,
        target_url: "tos://b/x/".to_owned(),
    }
}

#[test]
fn deletions_are_confirmed() {
    let mut m = DeleteArtifactsModal::new();
    assert!(m.question(0, EN).is_none());
    m.pick_up(None);
    assert!(!m.is_open);
    m.pick_up(Some(deletion(Some(1))));
    assert!(m.is_open);
    let (words, target) = m.question(5, EN).unwrap();
    assert_eq!(words, "这会从制品库中删除这一集转换出的 rrd：");
    assert_eq!(target, "tos://b/x/");
    assert!(matches!(m.answer(DeleteAnswer::Cancel, true, EN), DeleteOutcome::Nothing));
    assert!(!m.is_open && m.request.is_none());

    m.pick_up(Some(deletion(None)));
    assert_eq!(
        m.question(5, EN).unwrap().0,
        "This deletes ALL converted rrds of this dataset (5 known) from the artifacts store:"
    );
    match m.answer(DeleteAnswer::Delete, true, EN) {
        DeleteOutcome::Delete(request) => assert_eq!(request.dataset_url, "tos://b/d/"),
        other => panic!("{other:?}"),
    }
    m.pick_up(Some(deletion(None)));
    match m.answer(DeleteAnswer::Delete, false, EN) {
        DeleteOutcome::Warn(words) => assert_eq!(
            words,
            "Cannot delete rrd artifacts: the dataset's stream is no longer active\nDataset: tos://b/d/"
        ),
        other => panic!("{other:?}"),
    }
    assert!(matches!(m.answer(DeleteAnswer::Delete, true, EN), DeleteOutcome::Nothing));
}

fn recent(url: &str, kind: RecentKind, open_at_exit: bool) -> RecentDataset {
    RecentDataset {
        url: url.to_owned(),
        kind,
        region: String::new(),
        item_count: None,
        last_opened_unix: 0,
        open_at_exit,
    }
}

const STARTUP: StartupFacts =
    StartupFacts { persist_state: true, has_recordings: false, has_sources: false };

#[test]
fn a_session_is_restored_once() {
    let open = vec![recent("tos://b/d/", RecentKind::Tos, true)];
    let mut s = SessionRestore::new();
    assert!(s.needs_config(STARTUP, &open));
    assert_eq!(s.await_config(false, 100), ConfigWait::Wait);
    assert!(s.needs_config(STARTUP, &open));
    assert_eq!(s.await_config(false, 99 + CONFIG_WAIT_NANOS), ConfigWait::Wait);
    assert_eq!(s.await_config(true, 99 + CONFIG_WAIT_NANOS), ConfigWait::Ready);
    assert!(!s.needs_config(STARTUP, &open));

    let mut s = SessionRestore::new();
    assert_eq!(s.await_config(false, 100), ConfigWait::Wait);
    assert_eq!(s.await_config(false, 100 + CONFIG_WAIT_NANOS), ConfigWait::GiveUp);
    assert!(!s.needs_config(STARTUP, &open));
}

#[test]
fn other_data_comes_before_an_old_session() {
    let open = vec![recent("tos://b/d/", RecentKind::Tos, true)];
    let closed = vec![recent("tos://b/d/", RecentKind::Tos, false)];
    for facts in [
        StartupFacts { persist_state: false, ..STARTUP },
        StartupFacts { has_recordings: true, ..STARTUP },
        StartupFacts { has_sources: true, ..STARTUP },
    ] {
        let mut s = SessionRestore::new();
        assert!(!s.needs_config(facts, &open));
        // The matter is closed.
        assert!(!s.needs_config(STARTUP, &open));
    }
    assert!(!SessionRestore::new().needs_config(STARTUP, &closed));
}

fn candidate(recent: RecentDataset) -> RestoreCandidate {
    RestoreCandidate {
        recent,
        tos_location: place("b"),
        tos_endpoint: "https://tos".to_owned(),
        hf: hf_input(None),
    }
}

#[test]
fn what_was_open_is_restored() {
    let candidates = vec![
        candidate(recent("tos://b/1/", RecentKind::Tos, true)),
        candidate(recent("tos://b/2/", RecentKind::Tos, false)),
        candidate(recent("hf://org/name", RecentKind::Hf, true)),
        RestoreCandidate {
            hf: None,
            ..candidate(recent("hf://???", RecentKind::Hf, true))
        },
    ];
    let mut config = ViewerConfig::new("tos://store/p/".to_owned());
    config.hf_token = "hf_x".to_owned();
    let sources = sources_to_restore(&candidates, &config, &place("store"));
    assert_eq!(sources.len(), 1);
    match &sources[0] {
        LogDataSource::HfDataset(s) => {
            assert_eq!(s.token, "hf_x");
            assert!(s.rrd_artifacts.is_none());
        }
        other => panic!("{other:?}"),
    }
    config.tos_access_key = "AK".to_owned();
    config.tos_secret_key = "SK".to_owned();
    let sources = sources_to_restore(&candidates, &config, &place("store"));
    assert_eq!(sources.len(), 2);
    match &sources[0] {
        LogDataSource::TosDataset(s) => {
            assert_eq!(s.credentials.endpoint, "https://tos");
            assert_eq!(s.credentials.secret_key, "SK");
            assert!(s.rrd_artifacts.as_ref().unwrap().write_back);
        }
        other => panic!("{other:?}"),
    }
}

#[test]
fn restoring_is_announced() {
    let mut config = ViewerConfig::new("tos://store/p/".to_owned());
    let tos = candidate(recent("tos://b/1/", RecentKind::Tos, true));
    assert_eq!(
        restore_message(&tos, &config),
        Some(
            "Not re-opening tos://b/1/ from the last session — no stored credentials; \
             open it from the welcome screen instead."
                .to_owned()
        )
    );
    let hf = candidate(recent("hf://org/name", RecentKind::Hf, true));
    assert_eq!(
        restore_message(&hf, &config),
        Some("Restoring dataset from the previous session: hf://org/name".to_owned())
    );
    config.tos_access_key = "AK".to_owned();
    config.tos_secret_key = "SK".to_owned();
    assert_eq!(
        restore_message(&tos, &config),
        Some("Restoring dataset from the previous session: tos://b/1/".to_owned())
    );
    let closed = candidate(recent("tos://b/1/", RecentKind::Tos, false));
    assert_eq!(restore_message(&closed, &config), None);
    assert_eq!(restore_message(&RestoreCandidate { tos_location: None, ..tos }, &config), None);
    assert_eq!(restore_message(&RestoreCandidate { hf: None, ..hf }, &config), None);
}
