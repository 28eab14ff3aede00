//! Silent resolution of the default TOS/HF connection settings, for session restore.
//!
//! Same sources as the "Open from …" dialogs: on the web the deployment serves
//! `/tos-config.json` next to the viewer; natively there is a file in the user's home, with
//! environment-variable overrides.
use vstd::prelude::*;
use vstd::string::*;

use crate::daft_link;
use crate::daft_link::Console;
use crate::data_source;
use crate::data_source::{ArtifactsView, RrdArtifactsConfig, TosCredentials, TosLocation};
use crate::platform::Platform;
use crate::text;

verus! {

/// The deployment/user-level default connection settings. May be entirely empty.
#[derive(Debug)]
pub struct ViewerConfig {
    pub tos_endpoint: String,
    pub tos_region: String,
    pub tos_access_key: String,
    pub tos_secret_key: String,
    pub hf_token: String,
    /// Where converted rrds are stored; `""`/`"off"` disables the artifacts store.
    pub tos_rrd_artifacts_url: String,
    /// How many artifacts to prefetch at once; `0` = automatic.
    pub rrd_artifacts_prefetch: usize,
    /// Where the "Diagnose" buttons send the user: the Daft curation console.
    /// Empty = same-domain `/curation` on the web, no buttons natively.
    pub daft_url: String,
}

impl Clone for ViewerConfig {
    fn clone(&self) -> (r: Self)
        ensures
            r == *self,
    {
        ViewerConfig {
            tos_endpoint: self.tos_endpoint.clone(),
            tos_region: self.tos_region.clone(),
            tos_access_key: self.tos_access_key.clone(),
            tos_secret_key: self.tos_secret_key.clone(),
            hf_token: self.hf_token.clone(),
            tos_rrd_artifacts_url: self.tos_rrd_artifacts_url.clone(),
            rrd_artifacts_prefetch: self.rrd_artifacts_prefetch,
            daft_url: self.daft_url.clone(),
        }
    }
}

/// Nothing is set, but for the place of converted copies.
pub open spec fn is_default(c: ViewerConfig, artifacts_url: Seq<char>) -> bool {
    &&& c.tos_endpoint@.len() == 0
    &&& c.tos_region@.len() == 0
    &&& c.tos_access_key@.len() == 0
    &&& c.tos_secret_key@.len() == 0
    &&& c.hf_token@.len() == 0
    &&& c.tos_rrd_artifacts_url@ == artifacts_url
    &&& c.rrd_artifacts_prefetch == 0
    &&& c.daft_url@.len() == 0
}

/// Whether the address of the artifacts store turns it off.
pub open spec fn turns_store_off(url: Seq<char>) -> bool {
    url.len() == 0 || url == "off"@
}

/// Both keys are needed to sign a request.
pub open spec fn are_keys(access: Seq<char>, secret: Seq<char>) -> bool {
    access.len() > 0 && secret.len() > 0
}

/// The resolved rrd-artifacts target: none when disabled or without TOS credentials.
pub open spec fn resolved_artifacts(
    c: ViewerConfig,
    location: Option<TosLocation>,
    write_back: bool,
) -> Option<ArtifactsView> {
    if turns_store_off(c.tos_rrd_artifacts_url@) || location is None || !are_keys(
        c.tos_access_key@,
        c.tos_secret_key@,
    ) {
        None
    } else {
        Some(
            (
                (location->0.bucket@, location->0.prefix@),
                (c.tos_endpoint@, c.tos_region@, c.tos_access_key@, c.tos_secret_key@),
                write_back,
                c.rrd_artifacts_prefetch,
            ),
        )
    }
}

/// Whether the address of the artifacts store leaves it on.
pub fn store_is_on(url: &String) -> (r: bool)
    ensures
        r == !turns_store_off(url@),
{
    !url.as_str().is_empty() && !text::same_text(url.as_str(), "off")
}

impl ViewerConfig {
    /// Nothing is set, but for the place of converted copies.
    pub fn new(default_artifacts_url: String) -> (r: Self)
        ensures
            is_default(r, default_artifacts_url@),
    {
        ViewerConfig {
            tos_endpoint: String::new(),
            tos_region: String::new(),
            tos_access_key: String::new(),
            tos_secret_key: String::new(),
            hf_token: String::new(),
            tos_rrd_artifacts_url: default_artifacts_url,
            rrd_artifacts_prefetch: 0,
            daft_url: String::new(),
        }
    }

    pub fn has_tos_credentials(&self) -> (r: bool)
        ensures
            r == are_keys(self.tos_access_key@, self.tos_secret_key@),
    {
        !self.tos_access_key.as_str().is_empty() && !self.tos_secret_key.as_str().is_empty()
    }

    /// The resolved rrd-artifacts target: `None` when disabled or without TOS credentials.
    ///
    /// `location` is what the address of the artifacts store names, if it names a place.
    pub fn rrd_artifacts(&self, location: &Option<TosLocation>, write_back: bool) -> (r: Option<
        RrdArtifactsConfig,
    >)
        ensures
            data_source::opt_artifacts(r) == resolved_artifacts(*self, *location, write_back),
    {
        if !store_is_on(&self.tos_rrd_artifacts_url) {
            return None;
        }
        match location {
            None => None,
            Some(location) => {
                if !self.has_tos_credentials() {
                    return None;  // No credentials for the artifacts bucket: silently skip.
                }
                Some(
                    RrdArtifactsConfig {
                        location: location.clone(),
                        credentials: TosCredentials {
                            endpoint: self.tos_endpoint.clone(),
                            region: self.tos_region.clone(),
                            access_key: self.tos_access_key.clone(),
                            secret_key: self.tos_secret_key.clone(),
                        },
                        write_back,
                        prefetch_items: self.rrd_artifacts_prefetch,
                    },
                )
            },
        }
    }
}

// ---------------------------------------------------------------------------------------
// Environment overrides

/// A setting after the environment had its say: a value that is set and not empty wins.
pub open spec fn overridden(field: Seq<char>, value: Option<Seq<char>>) -> Seq<char> {
    match value {
        Some(value) => if value.len() > 0 {
            value
        } else {
            field
        },
        None => field,
    }
}

/// The number of artifacts to prefetch after the environment had its say: a number, with or
/// without blanks around it, wins.
pub open spec fn overridden_count(field: usize, value: Option<Seq<char>>) -> usize {
    match value {
        Some(value) => {
            let t = text::trimmed(value);
            if text::spells_number(t) && text::digits_value(text::number_digits(t)) <= usize::MAX {
                text::digits_value(text::number_digits(t)) as usize
            } else {
                field
            }
        },
        None => field,
    }
}

/// Let an environment variable override a setting.
pub fn env_override(field: String, value: &Option<String>) -> (r: String)
    ensures
        r@ == overridden(field@, text::opt_view(*value)),
{
    match value {
        Some(value) => if value.as_str().is_empty() {
            field
        } else {
            value.clone()
        },
        None => field,
    }
}

/// Let an environment variable override the number of artifacts to prefetch.
pub fn env_override_count(field: usize, value: &Option<String>) -> (r: usize)
    ensures
        r == overridden_count(field, text::opt_view(*value)),
{
    match value {
        Some(value) => match text::parse_usize(text::trim(value.as_str())) {
            Some(n) => n,
            None => field,
        },
        None => field,
    }
}

/// The environment variables that override settings.
#[derive(Debug)]
pub struct ConfigEnv {
    /// `TOS_ENDPOINT`
    pub tos_endpoint: Option<String>,
    /// `TOS_REGION`
    pub tos_region: Option<String>,
    /// `TOS_ACCESS_KEY`
    pub tos_access_key: Option<String>,
    /// `TOS_SECRET_KEY`
    pub tos_secret_key: Option<String>,
    /// `HF_TOKEN`
    pub hf_token: Option<String>,
    /// `HF_ENDPOINT`
    pub hf_endpoint: Option<String>,
    /// `TOS_RRD_ARTIFACTS_URL`
    pub tos_rrd_artifacts_url: Option<String>,
    /// `TOS_RRD_ARTIFACTS_REGION`
    pub tos_rrd_artifacts_region: Option<String>,
    /// `RRD_ARTIFACTS_PREFETCH`
    pub rrd_artifacts_prefetch: Option<String>,
}

impl ViewerConfig {
    /// The settings of a native viewer: those of its file, with the environment's overrides.
    pub fn with_env(self, env: &ConfigEnv) -> (r: Self)
        ensures
            r.tos_endpoint@ == overridden(self.tos_endpoint@, text::opt_view(env.tos_endpoint)),
            r.tos_region@ == overridden(self.tos_region@, text::opt_view(env.tos_region)),
            r.tos_access_key@ == overridden(
                self.tos_access_key@,
                text::opt_view(env.tos_access_key),
            ),
            r.tos_secret_key@ == overridden(
                self.tos_secret_key@,
                text::opt_view(env.tos_secret_key),
            ),
            r.hf_token@ == overridden(self.hf_token@, text::opt_view(env.hf_token)),
            r.tos_rrd_artifacts_url@ == overridden(
                self.tos_rrd_artifacts_url@,
                text::opt_view(env.tos_rrd_artifacts_url),
            ),
            r.rrd_artifacts_prefetch == overridden_count(
                self.rrd_artifacts_prefetch,
                text::opt_view(env.rrd_artifacts_prefetch),
            ),
            r.daft_url == self.daft_url,
    {
        ViewerConfig {
            tos_endpoint: env_override(self.tos_endpoint, &env.tos_endpoint),
            tos_region: env_override(self.tos_region, &env.tos_region),
            tos_access_key: env_override(self.tos_access_key, &env.tos_access_key),
            tos_secret_key: env_override(self.tos_secret_key, &env.tos_secret_key),
            hf_token: env_override(self.hf_token, &env.hf_token),
            tos_rrd_artifacts_url: env_override(
                self.tos_rrd_artifacts_url,
                &env.tos_rrd_artifacts_url,
            ),
            rrd_artifacts_prefetch: env_override_count(
                self.rrd_artifacts_prefetch,
                &env.rrd_artifacts_prefetch,
            ),
            daft_url: self.daft_url,
        }
    }
}

// ---------------------------------------------------------------------------------------
// Resolution

/// A response of the server: its status and what that means.
#[derive(Debug)]
pub struct HttpStatus {
    pub status: u16,
    pub status_text: String,
}

/// What came of asking the server for its settings: the status of its response and what the
/// response holds, if it is settings; or why there was no response.
#[derive(Debug)]
pub enum ConfigResponse<T> {
    Response(HttpStatus, Result<T, String>),
    NoResponse(String),
}

/// Whether the server answered with settings.
pub open spec fn is_settings<T>(response: ConfigResponse<T>) -> bool {
    response matches ConfigResponse::Response(http, Ok(_)) && http.status == 200
}

/// What is said of an answer that is no settings.
pub open spec fn defaults_warning(response: ConfigResponse<ViewerConfig>) -> Option<Seq<char>> {
    match response {
        ConfigResponse::Response(http, parsed) => if http.status == 200 {
            match parsed {
                Ok(_) => None,
                Err(err) => Some(
                    "Failed to parse viewer defaults: "@ + err@ + "\nFile: tos-config.json"@,
                ),
            }
        } else {
            Some(
                "Failed to load viewer defaults: HTTP "@ + text::decimal(http.status as nat) + " "@
                    + http.status_text@ + "\nFile: tos-config.json"@,
            )
        },
        ConfigResponse::NoResponse(err) => Some(
            "Failed to load viewer defaults: "@ + err@ + "\nFile: tos-config.json"@,
        ),
    }
}

/// The settings that a web viewer goes by, and what is worth a line in the console.
///
/// A missing or broken config file resolves to empty settings (not an error): the viewer
/// works without defaults, credentials are just not pre-resolved.
pub fn resolve_web(response: ConfigResponse<ViewerConfig>, default_artifacts_url: String) -> (r: (
    ViewerConfig,
    Option<String>,
))
    ensures
        is_settings(response) ==> (response matches ConfigResponse::Response(_, Ok(parsed)) && r.0
            == parsed),
        !is_settings(response) ==> is_default(r.0, default_artifacts_url@),
        text::opt_view(r.1) == defaults_warning(response),
{
    match response {
        ConfigResponse::Response(http, parsed) => {
            if http.status == 200 {
                match parsed {
                    Ok(config) => (config, None),
                    Err(err) => (
                        ViewerConfig::new(default_artifacts_url),
                        Some(
                            text::cat3(
                                "Failed to parse viewer defaults: ",
                                err.as_str(),
                                "\nFile: tos-config.json",
                            ),
                        ),
                    ),
                }
            } else {
                let mut warning: String = "Failed to load viewer defaults: HTTP ".to_owned();
                text::push_decimal(&mut warning, http.status as u64);
                warning.append(" ");
                warning.append(http.status_text.as_str());
                warning.append("\nFile: tos-config.json");
                (ViewerConfig::new(default_artifacts_url), Some(warning))
            }
        },
        ConfigResponse::NoResponse(err) => (
            ViewerConfig::new(default_artifacts_url),
            Some(
                text::cat3(
                    "Failed to load viewer defaults: ",
                    err.as_str(),
                    "\nFile: tos-config.json",
                ),
            ),
        ),
    }
}

/// The resolution of the settings: whether it was begun, and what came of it.
#[derive(Debug)]
pub struct ConfigState {
    pub requested: bool,
    pub config: Option<ViewerConfig>,
}

impl ConfigState {
    pub fn new() -> (r: Self)
        ensures
            !r.requested,
            r.config is None,
    {
        ConfigState { requested: false, config: None }
    }

    /// The settings have arrived. On the web they say where the curation console is.
    pub fn resolve(&mut self, parsed: ViewerConfig, console: &mut Console)
        ensures
            final(self).requested == old(self).requested,
            final(self).config == Some(parsed),
            final(console).platform == old(console).platform,
            old(console).platform == Platform::Native ==> *final(console) == *old(console),
            old(console).platform == Platform::Web ==> text::opt_view(final(console).configured)
                == daft_link::recorded_address(parsed.daft_url@),
    {
        daft_link::set_base_url(console, parsed.daft_url.as_str());
        self.config = Some(parsed);
    }
}

/// Kick off the config resolution once: tells whether it is to be begun now.
pub fn request(state: &mut ConfigState) -> (r: bool)
    ensures
        r == !old(state).requested,
        final(state).requested,
        final(state).config == old(state).config,
{
    let first: bool = !state.requested;
    state.requested = true;
    first
}

/// The resolved config, once [`request`] finished (immediately on native, async on the web).
pub fn get(state: &ConfigState) -> (r: Option<ViewerConfig>)
    ensures
        r == state.config,
{
    match &state.config {
        Some(config) => Some(config.clone()),
        None => None,
    }
}

// ---------------------------------------------------------------------------------------
// Laws

/// An address of the artifacts store that turns it off wins over credentials.
pub proof fn law_off_switch_wins(c: ViewerConfig, location: Option<TosLocation>, write_back: bool)
    requires
        turns_store_off(c.tos_rrd_artifacts_url@),
    ensures
        resolved_artifacts(c, location, write_back) is None,
{
}

/// A store that is on is used if and only if there are credentials for it.
pub proof fn law_store_needs_credentials(
    c: ViewerConfig,
    location: Option<TosLocation>,
    write_back: bool,
)
    requires
        !turns_store_off(c.tos_rrd_artifacts_url@),
        location is Some,
    ensures
        resolved_artifacts(c, location, write_back) is Some <==> are_keys(
            c.tos_access_key@,
            c.tos_secret_key@,
        ),
{
}

/// An environment variable that is not set, or empty, leaves a setting as it is.
pub proof fn law_unset_overrides_nothing(field: Seq<char>, count: usize)
    ensures
        overridden(field, None) == field,
        overridden(field, Some(Seq::empty())) == field,
        overridden_count(count, None) == count,
        overridden_count(count, Some(Seq::empty())) == count,
{
    assert(text::trimmed(Seq::empty()) =~= Seq::empty());
}

/// The settings of a native viewer can be read again without change: the environment has the
/// last word, and having it twice makes no difference.
pub proof fn law_override_is_idempotent(field: Seq<char>, value: Option<Seq<char>>)
    ensures
        overridden(overridden(field, value), value) == overridden(field, value),
{
}

/// The place of converted copies is the one that its address names, and it is reached with the
/// endpoint, the region and the keys of the settings, each of them in its place.
pub proof fn law_artifacts_are_those_of_the_settings(
    c: ViewerConfig,
    location: Option<TosLocation>,
    write_back: bool,
    r: RrdArtifactsConfig,
)
    requires
        Some(r@) == resolved_artifacts(c, location, write_back),
    ensures
        location is Some,
        r.location.bucket@ == location->0.bucket@,
        r.location.prefix@ == location->0.prefix@,
        r.credentials.endpoint@ == c.tos_endpoint@,
        r.credentials.region@ == c.tos_region@,
        r.credentials.access_key@ == c.tos_access_key@,
        r.credentials.secret_key@ == c.tos_secret_key@,
        r.write_back == write_back,
        r.prefetch_items == c.rrd_artifacts_prefetch,
{
}

/// An environment variable that is set wins over the settings.
pub proof fn law_set_variable_wins(field: Seq<char>, value: Seq<char>)
    requires
        value.len() > 0,
    ensures
        overridden(field, Some(value)) == value,
{
}

/// A number in an environment variable, with or without whitespace around it, wins over the
/// settings.
pub proof fn law_set_number_wins(
    count: usize,
    n: usize,
    before: Seq<char>,
    plus: bool,
    behind: Seq<char>,
)
    requires
        forall|i: int| 0 <= i < before.len() ==> text::is_whitespace(#[trigger] before[i]),
        forall|i: int| 0 <= i < behind.len() ==> text::is_whitespace(#[trigger] behind[i]),
    ensures
        ({
            let digits = text::decimal(n as nat);
            let spelled = if plus {
                seq!['+'] + digits
            } else {
                digits
            };
            overridden_count(count, Some(before + spelled + behind)) == n
        }),
{
    let digits = text::decimal(n as nat);
    text::lemma_decimal_spells(n as nat);
    assert(text::is_digit(digits[0]) && text::is_digit(digits[digits.len() - 1]));
    let spelled = if plus {
        seq!['+'] + digits
    } else {
        digits
    };
    let value = before + spelled + behind;
    text::law_trimming_leaves_the_core(value);
    let lo = before.len() as int;
    let hi = lo + spelled.len();
    assert(value.subrange(lo, hi) =~= spelled);
    assert forall|i: int| 0 <= i < lo implies text::is_whitespace(#[trigger] value[i]) by {
        assert(value[i] == before[i]);
    }
    assert forall|i: int| hi <= i < value.len() implies text::is_whitespace(
        #[trigger] value[i],
    ) by {
        assert(value[i] == behind[i - hi]);
    }
    assert(text::is_core_at(spelled, value, lo, hi));
    assert(text::is_core_of(spelled, value));
    if plus {
        assert(spelled.skip(1) =~= digits);
    }
    assert(text::number_digits(spelled) == digits);
}

/// A server that answered with settings is taken at its word; anything else is warned of.
pub proof fn law_missing_settings_are_warned_of(response: ConfigResponse<ViewerConfig>)
    ensures
        defaults_warning(response) is None <==> is_settings(response),
        is_settings(response) <==> (response matches ConfigResponse::Response(http, parsed)
            && http.status == 200 && parsed is Ok),
{
}

} // verus!
