//! Dialog for opening a `LeRobot` dataset stored on Hugging Face.
use vstd::prelude::*;
use vstd::string::*;

use crate::data_source;
use crate::data_source::{HfDatasetSource, TosLocation};
use crate::dialogs::server_config;
use crate::dialogs::server_config::ServerHfConfig;
use crate::i18n;
use crate::i18n::{tr, Language};
use crate::text;

verus! {

/// The dialog.
#[derive(Debug)]
pub struct OpenHfModal {
    pub is_open: bool,
    /// Whether it was opened since it was last drawn: the dataset field then takes the focus.
    pub just_opened: bool,
    pub dataset: String,
    /// Use the token of the dialog instead of the server-side default token.
    pub use_custom_token: bool,
    pub token: String,
    /// Converted rrds are uploaded unless this is set.
    pub artifact_upload_disabled: bool,
    /// The deployment's settings, once they are there, or why they could not be had.
    pub server_config: Option<Result<ServerHfConfig, String>>,
    pub server_config_requested: bool,
}

/// What the dataset field names: a repository and, if it names a single file of it, the path
/// of that file.
#[derive(Debug)]
pub struct HfDatasetInput {
    pub repo: String,
    pub file_path: Option<String>,
}

impl OpenHfModal {
    pub fn new() -> (r: Self)
        ensures
            !r.is_open,
            !r.just_opened,
            r.dataset@.len() == 0,
            !r.use_custom_token,
            r.token@.len() == 0,
            !r.artifact_upload_disabled,
            r.server_config is None,
            !r.server_config_requested,
    {
        OpenHfModal {
            is_open: false,
            just_opened: false,
            dataset: String::new(),
            use_custom_token: false,
            token: String::new(),
            artifact_upload_disabled: false,
            server_config: None,
            server_config_requested: false,
        }
    }

    /// Open the dialog. Tells whether the deployment's settings are to be fetched, which is
    /// done once per app run.
    pub fn open(&mut self) -> (fetch: bool)
        ensures
            fetch == !old(self).server_config_requested,
            *final(self) == (OpenHfModal {
                is_open: true,
                just_opened: true,
                server_config_requested: true,
                ..*old(self)
            }),
    {
        let fetch: bool = !self.server_config_requested;
        self.is_open = true;
        self.just_opened = true;
        self.server_config_requested = true;
        fetch
    }

    /// Open with the dataset field pre-filled (e.g. from the welcome screen's "recently
    /// opened" list). The token is never pre-filled from outside.
    pub fn open_prefilled(&mut self, dataset: &String) -> (fetch: bool)
        ensures
            fetch == !old(self).server_config_requested,
            *final(self) == (OpenHfModal {
                is_open: true,
                just_opened: true,
                server_config_requested: true,
                dataset: *dataset,
                ..*old(self)
            }),
    {
        self.dataset = dataset.clone();
        self.open()
    }

    /// The dialog was drawn.
    pub fn drawn(&mut self)
        ensures
            *final(self) == (OpenHfModal { just_opened: false, ..*old(self) }),
    {
        self.just_opened = false;
    }

    /// The dialog is closed.
    pub fn close(&mut self)
        ensures
            *final(self) == (OpenHfModal { is_open: false, ..*old(self) }),
    {
        self.is_open = false;
    }

    /// The settings to go by: those of the deployment, or empty ones.
    pub fn effective_config(&self) -> (r: ServerHfConfig)
        ensures
            match self.server_config {
                Some(Ok(config)) => r == config,
                _ => r.hf_token@.len() == 0 && r.hf_endpoint@.len() == 0
                    && server_config::is_empty_tos(r.tos),
            },
    {
        match &self.server_config {
            Some(Ok(config)) => config.clone(),
            _ => ServerHfConfig::default(),
        }
    }
}

// ---------------------------------------------------------------------------------------
// Contents

/// The line that says what is missing, or what will happen.
pub open spec fn note_words(m: OpenHfModal, parsed: Option<HfDatasetInput>) -> Seq<char> {
    match parsed {
        Some(input) => match input.file_path {
            Some(path) => "将从 hf://"@ + input.repo@ + " 加载单个文件 "@ + path@ + "。"@,
            None => "将流式读取 hf://"@ + input.repo@
                + "；各集（episode）会立即出现，点击某一集可以优先加载它。"@,
        },
        None => if m.dataset@.len() > 0 {
            "格式应为 org/name、hf://org/name 或 huggingface.co/datasets/… URL"@
        } else {
            "请输入一个 Hugging Face 数据集。"@
        },
    }
}

/// What is said of settings that could not be had.
pub open spec fn config_warning(m: OpenHfModal) -> Option<Seq<char>> {
    match m.server_config {
        Some(Err(err)) => Some(
            "加载服务器端默认配置（HF token、制品库凭证）失败："@ + err@
                + "\n文件：config.json — 各集将改为本地转换，而不是从制品库加载。"@,
        ),
        _ => None,
    }
}

/// The token that a dataset is opened with.
pub open spec fn sent_token(m: OpenHfModal, c: ServerHfConfig) -> Seq<char> {
    if m.use_custom_token {
        text::trimmed(m.token@)
    } else {
        c.hf_token@
    }
}

/// What the dialog shows.
#[derive(Debug)]
pub struct HfDialog {
    /// Whether there is a field for a token.
    pub token_field: bool,
    pub config_warning: Option<String>,
    /// The place that converted copies are uploaded to, if that is on offer. Without
    /// credentials nothing is uploaded, but the checkbox still tells what is meant.
    pub upload_to: Option<TosLocation>,
    /// Whether the note is an error.
    pub note_is_error: bool,
    pub note: String,
    pub can_open: bool,
}

impl OpenHfModal {
    /// What the dialog shows. `parsed` is what the dataset field names, `artifacts_location`
    /// what the deployment's address for converted copies names.
    pub fn contents(
        &self,
        c: &ServerHfConfig,
        parsed: &Option<HfDatasetInput>,
        artifacts_location: &Option<TosLocation>,
    ) -> (r: HfDialog)
        ensures
            r.token_field == self.use_custom_token,
            text::opt_view(r.config_warning) == config_warning(*self),
            r.upload_to == server_config::store_place(c.tos, *artifacts_location),
            r.note_is_error == (self.dataset@.len() > 0 && parsed is None),
            r.note@ == note_words(*self, *parsed),
            r.can_open == parsed is Some,
    {
        let named: bool = !self.dataset.as_str().is_empty();
        HfDialog {
            token_field: self.use_custom_token,
            config_warning: match &self.server_config {
                Some(Err(err)) => Some(
                    text::cat3(
                        "加载服务器端默认配置（HF token、制品库凭证）失败：",
                        err.as_str(),
                        "\n文件：config.json — 各集将改为本地转换，而不是从制品库加载。",
                    ),
                ),
                _ => None,
            },
            upload_to: server_config::place_of_store(&c.tos, artifacts_location),
            note_is_error: named && parsed.is_none(),
            note: match parsed {
                Some(input) => match &input.file_path {
                    Some(path) => text::cat5(
                        "将从 hf://",
                        input.repo.as_str(),
                        " 加载单个文件 ",
                        path.as_str(),
                        "。",
                    ),
                    None => text::cat3(
                        "将流式读取 hf://",
                        input.repo.as_str(),
                        "；各集（episode）会立即出现，点击某一集可以优先加载它。",
                    ),
                },
                None => if named {
                    "格式应为 org/name、hf://org/name 或 huggingface.co/datasets/… URL".to_owned()
                } else {
                    "请输入一个 Hugging Face 数据集。".to_owned()
                },
            },
            can_open: parsed.is_some(),
        }
    }

    /// Whether the user asked to open the dataset: with the button, or with the Enter key
    /// where that is possible. The dialog then closes.
    pub fn is_submitted(&self, parsed: &Option<HfDatasetInput>, clicked: bool, enter: bool) -> (r:
        bool)
        ensures
            r == (clicked || (enter && parsed is Some)),
    {
        clicked || (enter && parsed.is_some())
    }

    /// The dataset to open. `store_endpoint` is the endpoint of the region of converted
    /// copies.
    pub fn source(
        &self,
        c: &ServerHfConfig,
        parsed: Option<HfDatasetInput>,
        artifacts_location: &Option<TosLocation>,
        store_endpoint: &String,
    ) -> (r: Option<HfDatasetSource>)
        ensures
            r is Some <==> parsed is Some,
            r matches Some(source) ==> {
                &&& source.repo == parsed->0.repo
                &&& source.file_path == parsed->0.file_path
                &&& source.token@ == sent_token(*self, *c)
                &&& data_source::opt_artifacts(source.rrd_artifacts) == server_config::hf_artifacts(
                    *c,
                    *artifacts_location,
                    store_endpoint@,
                    !self.artifact_upload_disabled,
                )
            },
    {
        match parsed {
            None => None,
            Some(input) => Some(
                HfDatasetSource {
                    repo: input.repo,
                    file_path: input.file_path,
                    token: if self.use_custom_token {
                        text::trim(self.token.as_str()).to_owned()
                    } else {
                        c.hf_token.clone()
                    },
                    rrd_artifacts: c.rrd_artifacts(
                        artifacts_location,
                        store_endpoint,
                        !self.artifact_upload_disabled,
                    ),
                },
            ),
        }
    }
}

/// The fixed texts of the dialog.
#[derive(Clone, Copy, Debug)]
pub struct HfDialogTexts {
    pub title: &'static str,
    pub intro: &'static str,
    pub dataset: &'static str,
    pub dataset_hint: &'static str,
    pub custom_token: &'static str,
    pub upload: &'static str,
    pub open: &'static str,
    pub cancel: &'static str,
}

pub fn dialog_texts(lang: Language) -> (r: HfDialogTexts)
    ensures
        r.title@ == i18n::translated(lang, "Open from Hugging Face"@, "从 Hugging Face 打开"@),
        r.intro@ == i18n::translated(
            lang,
            "Stream a LeRobot dataset from Hugging Face."@,
            "从 Hugging Face 流式读取 LeRobot 数据集。"@,
        ),
        r.dataset@ == i18n::translated(lang, "Dataset:"@, "数据集："@),
        r.dataset_hint@ == i18n::translated(
            lang,
            "org/name, hf://org/name, or the dataset page URL"@,
            "org/name、hf://org/name 或数据集页面 URL"@,
        ),
        r.custom_token@ == i18n::translated(lang, "Use non-default token"@, "使用自带 token"@),
        r.upload@ == "把转换出的 rrd 上传到制品库"@,
        r.open@ == "打开"@,
        r.cancel@ == "取消"@,
{
    HfDialogTexts {
        title: tr(lang, "Open from Hugging Face", "从 Hugging Face 打开"),
        intro: tr(
            lang,
            "Stream a LeRobot dataset from Hugging Face.",
            "从 Hugging Face 流式读取 LeRobot 数据集。",
        ),
        dataset: tr(lang, "Dataset:", "数据集："),
        dataset_hint: tr(
            lang,
            "org/name, hf://org/name, or the dataset page URL",
            "org/name、hf://org/name 或数据集页面 URL",
        ),
        custom_token: tr(lang, "Use non-default token", "使用自带 token"),
        upload: "把转换出的 rrd 上传到制品库",
        open: "打开",
        cancel: "取消",
    }
}

/// With a token of their own the user opens a dataset without that of the deployment, and
/// the other way around: which one is used depends on the checkbox alone.
pub proof fn law_tokens_are_not_mixed(
    m: OpenHfModal,
    other: OpenHfModal,
    c: ServerHfConfig,
    other_c: ServerHfConfig,
)
    requires
        m.use_custom_token == other.use_custom_token,
    ensures
        m.use_custom_token && m.token == other.token ==> sent_token(m, c) == sent_token(
            other,
            other_c,
        ),
        !m.use_custom_token && c.hf_token == other_c.hf_token ==> sent_token(m, c) == sent_token(
            other,
            other_c,
        ),
{
}

/// What is opened is the repository that the field names, or the single file of it, with the
/// token of the deployment or, if the user wants to use their own, with that of the dialog
/// without the whitespace around it.
pub proof fn law_dataset_is_opened_with_the_chosen_token(
    source: HfDatasetSource,
    m: OpenHfModal,
    c: ServerHfConfig,
    input: HfDatasetInput,
    artifacts_location: Option<TosLocation>,
    store_endpoint: String,
)
    requires
        call_ensures(
            OpenHfModal::source,
            (&m, &c, Some(input), &artifacts_location, &store_endpoint),
            Some(source),
        ),
    ensures
        source.repo@ == input.repo@,
        text::opt_view(source.file_path) == text::opt_view(input.file_path),
        m.use_custom_token ==> text::is_core_of(source.token@, m.token@),
        !m.use_custom_token ==> source.token@ == c.hf_token@,
{
    text::law_trimming_leaves_the_core(m.token@);
}

/// Converted copies go to the place that the deployment names, with its keys, unless it has
/// none, names no place or turned the store off. They are uploaded unless the user does not
/// want that.
pub proof fn law_copies_go_to_the_deployments_place(
    source: HfDatasetSource,
    m: OpenHfModal,
    c: ServerHfConfig,
    input: HfDatasetInput,
    artifacts_location: Option<TosLocation>,
    store_endpoint: String,
)
    requires
        call_ensures(
            OpenHfModal::source,
            (&m, &c, Some(input), &artifacts_location, &store_endpoint),
            Some(source),
        ),
    ensures
        source.rrd_artifacts is Some <==> {
            &&& artifacts_location is Some
            &&& c.tos.tos_rrd_artifacts_url@.len() > 0
            &&& c.tos.tos_rrd_artifacts_url@ != "off"@
            &&& c.tos.tos_access_key@.len() > 0
            &&& c.tos.tos_secret_key@.len() > 0
        },
        source.rrd_artifacts matches Some(copies) ==> {
            &&& copies.location.bucket@ == artifacts_location->0.bucket@
            &&& copies.location.prefix@ == artifacts_location->0.prefix@
            &&& copies.credentials.endpoint@ == store_endpoint@
            &&& copies.credentials.region@.len() == 0
            &&& copies.credentials.access_key@ == c.tos.tos_access_key@
            &&& copies.credentials.secret_key@ == c.tos.tos_secret_key@
            &&& copies.write_back == !m.artifact_upload_disabled
            &&& copies.prefetch_items == c.tos.rrd_artifacts_prefetch
        },
{
}

/// The line below the fields names the repository, and the file if it is a single one.
pub proof fn law_note_names_what_is_opened(m: OpenHfModal, input: HfDatasetInput)
    ensures
        text::occurs_in(note_words(m, Some(input)), input.repo@),
        input.file_path matches Some(path) ==> text::occurs_in(note_words(m, Some(input)), path@),
{
    let words = note_words(m, Some(input));
    match input.file_path {
        Some(path) => {
            let at = "将从 hf://"@.len() as int;
            let second = at + input.repo@.len() + " 加载单个文件 "@.len();
            assert(words.subrange(at, at + input.repo@.len()) =~= input.repo@);
            assert(text::occurs_at(words, input.repo@, at));
            assert(words.subrange(second, second + path@.len()) =~= path@);
            assert(text::occurs_at(words, path@, second));
        },
        None => {
            let at = "将流式读取 hf://"@.len() as int;
            assert(words.subrange(at, at + input.repo@.len()) =~= input.repo@);
            assert(text::occurs_at(words, input.repo@, at));
        },
    }
}

} // verus!
