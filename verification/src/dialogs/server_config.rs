//! The connection settings that the deployment serves to the dialogs.
use vstd::prelude::*;
use vstd::string::*;

use crate::data_source;
use crate::data_source::{ArtifactsView, RrdArtifactsConfig, TosCredentials, TosLocation};
use crate::i18n;
use crate::i18n::Language;
use crate::text;
use crate::viewer_config;
use crate::viewer_config::{ConfigEnv, ConfigResponse};

verus! {

/// The deployment's TOS connection settings, served at `/config.json`.
///
/// Endpoint and credentials come from here by default; the user can opt into entering their
/// own keys in the dialog instead (e.g. for a bucket the deployment's credentials can't
/// read).
#[derive(Debug)]
pub struct ServerTosConfig {
    pub tos_endpoint: String,
    pub tos_access_key: String,
    pub tos_secret_key: String,
    /// Where converted rrds are stored; `""`/`"off"` disables the artifacts store.
    pub tos_rrd_artifacts_url: String,
    /// The artifacts bucket's region; empty = the deployment's own region.
    pub tos_rrd_artifacts_region: String,
    /// How many artifacts to prefetch at once; `0` = automatic.
    pub rrd_artifacts_prefetch: usize,
}

impl Clone for ServerTosConfig {
    fn clone(&self) -> (r: Self)
        ensures
            r == *self,
    {
        ServerTosConfig {
            tos_endpoint: self.tos_endpoint.clone(),
            tos_access_key: self.tos_access_key.clone(),
            tos_secret_key: self.tos_secret_key.clone(),
            tos_rrd_artifacts_url: self.tos_rrd_artifacts_url.clone(),
            tos_rrd_artifacts_region: self.tos_rrd_artifacts_region.clone(),
            rrd_artifacts_prefetch: self.rrd_artifacts_prefetch,
        }
    }
}

/// Nothing is set.
pub open spec fn is_empty_tos(c: ServerTosConfig) -> bool {
    &&& c.tos_endpoint@.len() == 0
    &&& c.tos_access_key@.len() == 0
    &&& c.tos_secret_key@.len() == 0
    &&& c.tos_rrd_artifacts_url@.len() == 0
    &&& c.tos_rrd_artifacts_region@.len() == 0
    &&& c.rrd_artifacts_prefetch == 0
}

impl Default for ServerTosConfig {
    fn default() -> (r: Self)
        ensures
            is_empty_tos(r),
    {
        ServerTosConfig {
            tos_endpoint: String::new(),
            tos_access_key: String::new(),
            tos_secret_key: String::new(),
            tos_rrd_artifacts_url: String::new(),
            tos_rrd_artifacts_region: String::new(),
            rrd_artifacts_prefetch: 0,
        }
    }
}

impl ServerTosConfig {
    pub open spec fn holds_keys(self) -> bool {
        viewer_config::are_keys(self.tos_access_key@, self.tos_secret_key@)
    }

    pub fn has_credentials(&self) -> (r: bool)
        ensures
            r == self.holds_keys(),
    {
        !self.tos_access_key.as_str().is_empty() && !self.tos_secret_key.as_str().is_empty()
    }

    /// The settings of a native viewer: those of its file, with the environment's overrides.
    pub fn with_env(self, env: &ConfigEnv) -> (r: Self)
        ensures
            r.tos_endpoint@ == viewer_config::overridden(
                self.tos_endpoint@,
                text::opt_view(env.tos_endpoint),
            ),
            r.tos_access_key@ == viewer_config::overridden(
                self.tos_access_key@,
                text::opt_view(env.tos_access_key),
            ),
            r.tos_secret_key@ == viewer_config::overridden(
                self.tos_secret_key@,
                text::opt_view(env.tos_secret_key),
            ),
            r.tos_rrd_artifacts_url@ == viewer_config::overridden(
                self.tos_rrd_artifacts_url@,
                text::opt_view(env.tos_rrd_artifacts_url),
            ),
            r.tos_rrd_artifacts_region@ == viewer_config::overridden(
                self.tos_rrd_artifacts_region@,
                text::opt_view(env.tos_rrd_artifacts_region),
            ),
            r.rrd_artifacts_prefetch == viewer_config::overridden_count(
                self.rrd_artifacts_prefetch,
                text::opt_view(env.rrd_artifacts_prefetch),
            ),
    {
        ServerTosConfig {
            tos_endpoint: viewer_config::env_override(self.tos_endpoint, &env.tos_endpoint),
            tos_access_key: viewer_config::env_override(self.tos_access_key, &env.tos_access_key),
            tos_secret_key: viewer_config::env_override(self.tos_secret_key, &env.tos_secret_key),
            tos_rrd_artifacts_url: viewer_config::env_override(
                self.tos_rrd_artifacts_url,
                &env.tos_rrd_artifacts_url,
            ),
            tos_rrd_artifacts_region: viewer_config::env_override(
                self.tos_rrd_artifacts_region,
                &env.tos_rrd_artifacts_region,
            ),
            rrd_artifacts_prefetch: viewer_config::env_override_count(
                self.rrd_artifacts_prefetch,
                &env.rrd_artifacts_prefetch,
            ),
        }
    }
}

/// Server-side Hugging Face defaults, served by the deployment at `/config.json`.
///
/// The deployment can hold a default token; it is used unless the user opts into providing
/// their own. The token is never shown in the dialog. The rrd artifacts store lives in a TOS
/// bucket regardless of the dataset's source, so its settings are needed, too.
#[derive(Debug)]
pub struct ServerHfConfig {
    pub hf_token: String,
    /// Hub base-URL override (e.g. a mirror); empty = the official huggingface.co.
    pub hf_endpoint: String,
    pub tos: ServerTosConfig,
}

impl Clone for ServerHfConfig {
    fn clone(&self) -> (r: Self)
        ensures
            r == *self,
    {
        ServerHfConfig {
            hf_token: self.hf_token.clone(),
            hf_endpoint: self.hf_endpoint.clone(),
            tos: self.tos.clone(),
        }
    }
}

impl Default for ServerHfConfig {
    fn default() -> (r: Self)
        ensures
            r.hf_token@.len() == 0,
            r.hf_endpoint@.len() == 0,
            is_empty_tos(r.tos),
    {
        ServerHfConfig {
            hf_token: String::new(),
            hf_endpoint: String::new(),
            tos: ServerTosConfig::default(),
        }
    }
}

/// The place of converted copies that the settings name: none if they turn the store off.
/// `parsed` is what the address names, if it names a place.
pub open spec fn store_place(c: ServerTosConfig, parsed: Option<TosLocation>) -> Option<
    TosLocation,
> {
    if viewer_config::turns_store_off(c.tos_rrd_artifacts_url@) {
        None
    } else {
        parsed
    }
}

/// The place of converted copies that the settings name.
pub fn place_of_store(c: &ServerTosConfig, parsed: &Option<TosLocation>) -> (r: Option<TosLocation>)
    ensures
        r == store_place(*c, *parsed),
{
    if !viewer_config::store_is_on(&c.tos_rrd_artifacts_url) {
        return None;
    }
    match parsed {
        Some(location) => Some(location.clone()),
        None => None,
    }
}

/// The resolved rrd-artifacts target of a dataset on Hugging Face.
pub open spec fn hf_artifacts(
    c: ServerHfConfig,
    parsed: Option<TosLocation>,
    store_endpoint: Seq<char>,
    write_back: bool,
) -> Option<ArtifactsView> {
    let place = store_place(c.tos, parsed);
    if place is None || !c.tos.holds_keys() {
        None
    } else {
        Some(
            (
                (place->0.bucket@, place->0.prefix@),
                (
                    store_endpoint,
                    Seq::<char>::empty(),
                    c.tos.tos_access_key@,
                    c.tos.tos_secret_key@,
                ),
                write_back,
                c.tos.rrd_artifacts_prefetch,
            ),
        )
    }
}

impl ServerHfConfig {
    /// The resolved rrd-artifacts target: `None` when disabled or without TOS credentials.
    ///
    /// `parsed` is what the address of the store names; `store_endpoint` is the endpoint of
    /// its region.
    pub fn rrd_artifacts(
        &self,
        parsed: &Option<TosLocation>,
        store_endpoint: &String,
        write_back: bool,
    ) -> (r: Option<RrdArtifactsConfig>)
        ensures
            data_source::opt_artifacts(r) == hf_artifacts(
                *self,
                *parsed,
                store_endpoint@,
                write_back,
            ),
    {
        match place_of_store(&self.tos, parsed) {
            None => None,
            Some(location) => {
                if !self.tos.has_credentials() {
                    return None;  // No credentials for the artifacts bucket: silently skip.
                }
                Some(
                    RrdArtifactsConfig {
                        location,
                        credentials: TosCredentials {
                            endpoint: store_endpoint.clone(),
                            region: String::new(),
                            access_key: self.tos.tos_access_key.clone(),
                            secret_key: self.tos.tos_secret_key.clone(),
                        },
                        write_back,
                        prefetch_items: self.tos.rrd_artifacts_prefetch,
                    },
                )
            },
        }
    }

    /// The settings of a native viewer: those of its file, with the environment's overrides.
    pub fn with_env(self, env: &ConfigEnv) -> (r: Self)
        ensures
            r.hf_token@ == viewer_config::overridden(self.hf_token@, text::opt_view(env.hf_token)),
            r.hf_endpoint@ == viewer_config::overridden(
                self.hf_endpoint@,
                text::opt_view(env.hf_endpoint),
            ),
            r.tos.tos_endpoint@ == viewer_config::overridden(
                self.tos.tos_endpoint@,
                text::opt_view(env.tos_endpoint),
            ),
            r.tos.tos_access_key@ == viewer_config::overridden(
                self.tos.tos_access_key@,
                text::opt_view(env.tos_access_key),
            ),
            r.tos.tos_secret_key@ == viewer_config::overridden(
                self.tos.tos_secret_key@,
                text::opt_view(env.tos_secret_key),
            ),
            r.tos.tos_rrd_artifacts_url@ == viewer_config::overridden(
                self.tos.tos_rrd_artifacts_url@,
                text::opt_view(env.tos_rrd_artifacts_url),
            ),
            r.tos.tos_rrd_artifacts_region@ == viewer_config::overridden(
                self.tos.tos_rrd_artifacts_region@,
                text::opt_view(env.tos_rrd_artifacts_region),
            ),
            r.tos.rrd_artifacts_prefetch == viewer_config::overridden_count(
                self.tos.rrd_artifacts_prefetch,
                text::opt_view(env.rrd_artifacts_prefetch),
            ),
    {
        ServerHfConfig {
            hf_token: viewer_config::env_override(self.hf_token, &env.hf_token),
            hf_endpoint: viewer_config::env_override(self.hf_endpoint, &env.hf_endpoint),
            tos: self.tos.with_env(env),
        }
    }
}

// ---------------------------------------------------------------------------------------
// Fetching

/// Why the settings could not be had. None if they could.
pub open spec fn fetch_error<T>(response: ConfigResponse<T>) -> Option<Seq<char>> {
    match response {
        ConfigResponse::Response(http, parsed) => if http.status == 200 {
            match parsed {
                Ok(_) => None,
                Err(err) => Some("invalid JSON: "@ + err@),
            }
        } else {
            Some("HTTP "@ + text::decimal(http.status as nat) + " "@ + http.status_text@)
        },
        ConfigResponse::NoResponse(err) => Some(err@),
    }
}

/// The settings that the server answered with, or why there are none: a silently missing
/// config looks exactly like a deployment without credentials.
pub fn fetch_outcome<T>(response: ConfigResponse<T>) -> (r: Result<T, String>)
    ensures
        match r {
            Ok(config) => fetch_error(response) is None && (response
                matches ConfigResponse::Response(_, Ok(parsed)) && config == parsed),
            Err(err) => fetch_error(response) == Some(err@),
        },
{
    match response {
        ConfigResponse::Response(http, parsed) => {
            if http.status == 200 {
                match parsed {
                    Ok(config) => Ok(config),
                    Err(err) => Err(text::cat2("invalid JSON: ", err.as_str())),
                }
            } else {
                let mut err: String = "HTTP ".to_owned();
                text::push_decimal(&mut err, http.status as u64);
                err.append(" ");
                err.append(http.status_text.as_str());
                Err(err)
            }
        },
        ConfigResponse::NoResponse(err) => Err(err),
    }
}

/// What the console says when the settings for the TOS dialog could not be had.
pub fn tos_fetch_warning(err: &str, lang: Language) -> (r: String)
    ensures
        r@ == i18n::translated(
            lang,
            "Failed to load server TOS defaults: "@ + err@ + "\nFile: config.json"@,
            "加载服务器端 TOS 默认配置失败："@ + err@ + "\n文件：config.json"@,
        ),
{
    match lang {
        Language::English => text::cat3(
            "Failed to load server TOS defaults: ",
            err,
            "\nFile: config.json",
        ),
        Language::Chinese => text::cat3(
            "加载服务器端 TOS 默认配置失败：",
            err,
            "\n文件：config.json",
        ),
    }
}

/// The same for the Hugging Face dialog.
pub fn hf_fetch_warning(err: &str, lang: Language) -> (r: String)
    ensures
        r@ == i18n::translated(
            lang,
            "Failed to load server TOS defaults: "@ + err@ + "\nFile: config.json"@,
            "加载服务器端默认配置失败："@ + err@ + "\n文件：config.json"@,
        ),
{
    match lang {
        Language::English => text::cat3(
            "Failed to load server TOS defaults: ",
            err,
            "\nFile: config.json",
        ),
        Language::Chinese => text::cat3("加载服务器端默认配置失败：", err, "\n文件：config.json"),
    }
}

// ---------------------------------------------------------------------------------------
// Laws

/// The settings come in if and only if the server sends them, whole. Else it is said what went
/// wrong: what the network, or the reader of the answer, says, or the status of the answer.
pub proof fn law_only_a_good_answer_counts<T>(response: ConfigResponse<T>)
    ensures
        fetch_error(response) is None <==> (response matches ConfigResponse::Response(http, parsed)
            && http.status == 200 && parsed is Ok),
        response matches ConfigResponse::NoResponse(err) ==> fetch_error(response) == Some(err@),
        response matches ConfigResponse::Response(http, parsed) ==> {
            &&& http.status != 200 ==> text::occurs_in(
                fetch_error(response)->0,
                text::decimal(http.status as nat),
            ) && text::occurs_in(fetch_error(response)->0, http.status_text@)
            &&& http.status == 200 && parsed is Err ==> text::occurs_in(
                fetch_error(response)->0,
                parsed->Err_0@,
            )
        },
{
    match response {
        ConfigResponse::Response(http, parsed) => {
            let status = text::decimal(http.status as nat);
            if http.status != 200 {
                let words = fetch_error(response)->0;
                text::lemma_occurs_between("HTTP "@, status, " "@ + http.status_text@, words);
                text::lemma_occurs_between("HTTP "@ + status + " "@, http.status_text@, seq![], words);
            } else if parsed is Err {
                let words = fetch_error(response)->0;
                text::lemma_occurs_between("invalid JSON: "@, parsed->Err_0@, seq![], words);
            }
        },
        _ => {},
    }
}

/// Copies of Hugging Face datasets are kept if and only if the server names a place for them,
/// does not turn it off, and has both keys. They are kept in that place, with those keys.
pub proof fn law_copies_are_kept_in_the_servers_place(
    c: ServerHfConfig,
    parsed: Option<TosLocation>,
    store_endpoint: Seq<char>,
    write_back: bool,
)
    ensures
        hf_artifacts(c, parsed, store_endpoint, write_back) is Some <==> {
            &&& parsed is Some
            &&& c.tos.tos_rrd_artifacts_url@.len() > 0
            &&& c.tos.tos_rrd_artifacts_url@ != "off"@
            &&& c.tos.tos_access_key@.len() > 0
            &&& c.tos.tos_secret_key@.len() > 0
        },
        hf_artifacts(c, parsed, store_endpoint, write_back) matches Some(kept) ==> {
            let (place, connection, uploads, prefetch) = kept;
            &&& place.0 == parsed->0.bucket@
            &&& place.1 == parsed->0.prefix@
            &&& connection.0 == store_endpoint
            &&& connection.1.len() == 0
            &&& connection.2 == c.tos.tos_access_key@
            &&& connection.3 == c.tos.tos_secret_key@
            &&& uploads == write_back
            &&& prefetch == c.tos.rrd_artifacts_prefetch
        },
{
}

} // verus!
