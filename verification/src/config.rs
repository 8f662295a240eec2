//! Settings of the client: what the configuration file and the environment
//! say, and how the two are merged.

use url::Url;
use vstd::prelude::*;
use vstd::string::StringExecFns;

verus! {

/// Name of the service under which the API key is kept in the OS keyring.
pub const KEYRING_SERVICE: &'static str = "adpt-api-key";

/// Name of the user under which the API key is kept in the OS keyring.
pub const KEYRING_USER: &'static str = "Adaptive";

/// What is joined to the base URL to reach the API.
pub const API_PATH: &'static str = "/api/graphql";

/// The settings that the configuration file holds. A URL is held as its
/// text.
#[derive(Debug, Clone, PartialEq, Eq)]
pub struct ConfigFile {
    pub default_use_case: Option<String>,
    pub adaptive_base_url: Option<String>,
}

/// The settings that the environment holds. They take precedence over those
/// of the file.
#[derive(Debug, Clone, PartialEq, Eq)]
pub struct ConfigEnv {
    pub default_use_case: Option<String>,
    pub adaptive_base_url: Option<String>,
    pub adaptive_api_key: Option<String>,
}

/// The merged settings. Without an API key in the environment,
/// `adaptive_api_key` is `None` and the key is to be taken from the OS
/// keyring.
#[derive(Debug, Clone, PartialEq, Eq)]
pub struct MergedConfig {
    pub default_use_case: Option<String>,
    pub adaptive_base_url: String,
    pub adaptive_api_key: Option<String>,
}

/// The settings with which the client runs.
#[derive(Debug, Clone, PartialEq, Eq)]
pub struct Config {
    pub default_use_case: Option<String>,
    pub adaptive_base_url: String,
    pub adaptive_api_key: String,
}

/// Why the settings are not usable.
#[derive(Debug, Clone, PartialEq, Eq)]
pub enum ConfigError {
    /// Neither the environment nor the file names a base URL.
    NoBaseUrl,
    /// The API path could not be joined to the base URL; `detail` says why.
    BadBaseUrl { detail: String },
}

impl Default for ConfigFile {
    fn default() -> (r: Self)
        ensures
            r.default_use_case is None,
            r.adaptive_base_url is None,
    {
        ConfigFile { default_use_case: None, adaptive_base_url: None }
    }
}

impl Default for ConfigEnv {
    fn default() -> (r: Self)
        ensures
            r.default_use_case is None,
            r.adaptive_base_url is None,
            r.adaptive_api_key is None,
    {
        ConfigEnv { default_use_case: None, adaptive_base_url: None, adaptive_api_key: None }
    }
}

/// What `url::Url::parse` makes of a text: the serialization of the URL, or
/// the text of the parse error. It is a function of the text alone.
pub uninterp spec fn parsed_url(text: Seq<char>) -> Result<Seq<char>, Seq<char>>;

/// What `url::Url::join` makes of a reference against the URL that `base`
/// parses to: the serialization of the joined URL, or the text of the parse
/// error (that of `base` where `base` is no URL). It is a function of the
/// two texts alone.
pub uninterp spec fn joined_url(base: Seq<char>, reference: Seq<char>) -> Result<
    Seq<char>,
    Seq<char>,
>;

/// The texts that a result of two strings holds.
pub open spec fn result_text(r: Result<String, String>) -> Result<Seq<char>, Seq<char>> {
    match r {
        Ok(text) => Ok(text@),
        Err(text) => Err(text@),
    }
}

/// Calls `url::Url::parse` and hands back the URL's serialization, or the
/// error's text. The contract names the result [`parsed_url`] of the text.
#[verifier::external_body]
pub(crate) fn url_parse(text: &str) -> (r: Result<String, String>)
    ensures
        result_text(r) == parsed_url(text@),
{
    match Url::parse(text) {
        Ok(url) => Ok(String::from(url)),
        Err(error) => Err(error.to_string()),
    }
}

/// Calls `url::Url::join` on the URL that `base` parses to and hands back
/// the joined URL's serialization, or the error's text. The contract names
/// the result [`joined_url`] of the two texts.
#[verifier::external_body]
fn url_join(base: &str, reference: &str) -> (r: Result<String, String>)
    ensures
        result_text(r) == joined_url(base@, reference@),
{
    match Url::parse(base) {
        Ok(url) => match url.join(reference) {
            Ok(joined) => Ok(String::from(joined)),
            Err(error) => Err(error.to_string()),
        },
        Err(error) => Err(error.to_string()),
    }
}

/// The first of two optional values that is there.
pub fn first_of(first: Option<String>, second: Option<String>) -> (chosen: Option<String>)
    ensures
        chosen == if first is Some {
            first
        } else {
            second
        },
{
    match first {
        Some(value) => Some(value),
        None => second,
    }
}

/// Puts the merged settings together from what was chosen and what the
/// join of the API path to the base URL gave.
pub fn merged_from(
    default_use_case: Option<String>,
    base_url: Option<String>,
    joined: Result<String, String>,
    api_key: Option<String>,
) -> (r: Result<MergedConfig, ConfigError>)
    ensures
        base_url is None ==> r == Err::<MergedConfig, ConfigError>(ConfigError::NoBaseUrl),
        base_url is Some ==> match joined {
            Ok(url) => r == Ok::<MergedConfig, ConfigError>(
                MergedConfig {
                    default_use_case,
                    adaptive_base_url: url,
                    adaptive_api_key: api_key,
                },
            ),
            Err(detail) => r == Err::<MergedConfig, ConfigError>(
                ConfigError::BadBaseUrl { detail },
            ),
        },
{
    match base_url {
        None => Err(ConfigError::NoBaseUrl),
        Some(_) => match joined {
            Ok(url) => Ok(
                MergedConfig {
                    default_use_case,
                    adaptive_base_url: url,
                    adaptive_api_key: api_key,
                },
            ),
            Err(detail) => Err(ConfigError::BadBaseUrl { detail }),
        },
    }
}

/// Merges the settings of the file with those of the environment. Each
/// setting is taken from the environment where it is there, else from the
/// file. Without a base URL in either, the merge fails with `NoBaseUrl`.
/// The API path is then joined to the base URL: the settings hold the
/// joined URL, and the merge fails with `BadBaseUrl` where the join does.
pub fn merge_config(base: ConfigFile, override_config: ConfigEnv) -> (r: Result<
    MergedConfig,
    ConfigError,
>)
    ensures
        ({
            let use_case = if override_config.default_use_case is Some {
                override_config.default_use_case
            } else {
                base.default_use_case
            };
            let base_url = if override_config.adaptive_base_url is Some {
                override_config.adaptive_base_url
            } else {
                base.adaptive_base_url
            };
            match base_url {
                None => r == Err::<MergedConfig, ConfigError>(ConfigError::NoBaseUrl),
                Some(url) => match joined_url(url@, API_PATH@) {
                    Ok(joined) => {
                        &&& r matches Ok(merged)
                        &&& merged.default_use_case == use_case
                        &&& merged.adaptive_base_url@ == joined
                        &&& merged.adaptive_api_key == override_config.adaptive_api_key
                    },
                    Err(detail) => {
                        &&& r matches Err(ConfigError::BadBaseUrl { detail: text })
                        &&& text@ == detail
                    },
                },
            }
        }),
{
    let default_use_case = first_of(override_config.default_use_case, base.default_use_case);
    let base_url = first_of(override_config.adaptive_base_url, base.adaptive_base_url);
    let joined: Result<String, String> = match &base_url {
        Some(url) => url_join(url.as_str(), API_PATH),
        None => Err(String::new()),
    };
    merged_from(default_use_case, base_url, joined, override_config.adaptive_api_key)
}

impl MergedConfig {
    /// Completes the settings with the API key: the one of the environment
    /// where there is one, else the one found in the keyring, if any.
    pub fn with_api_key(self, stored: Option<String>) -> (config: Option<Config>)
        ensures
            self.adaptive_api_key matches Some(key) ==> config == Some(
                Config {
                    default_use_case: self.default_use_case,
                    adaptive_base_url: self.adaptive_base_url,
                    adaptive_api_key: key,
                },
            ),
            self.adaptive_api_key is None ==> match stored {
                Some(key) => config == Some(
                    Config {
                        default_use_case: self.default_use_case,
                        adaptive_base_url: self.adaptive_base_url,
                        adaptive_api_key: key,
                    },
                ),
                None => config is None,
            },
    {
        let MergedConfig { default_use_case, adaptive_base_url, adaptive_api_key } = self;
        match first_of(adaptive_api_key, stored) {
            Some(key) => Some(
                Config { default_use_case, adaptive_base_url, adaptive_api_key: key },
            ),
            None => None,
        }
    }

    /// Whether the API key is still to be looked up in the keyring.
    pub fn needs_stored_key(&self) -> (needed: bool)
        ensures
            needed == (self.adaptive_api_key is None),
    {
        self.adaptive_api_key.is_none()
    }
}

/// The GraphQL endpoint of the API at `api_base_url`: the reference
/// `graphql` joined to it.
pub fn graphql_url(api_base_url: &str) -> (r: Result<String, String>)
    ensures
        result_text(r) == joined_url(api_base_url@, "graphql"@),
{
    url_join(api_base_url, "graphql")
}

/// The URL of a REST route of the API at `api_base_url`: the route joined
/// to it.
pub fn route_url(api_base_url: &str, route: &str) -> (r: Result<String, String>)
    ensures
        result_text(r) == joined_url(api_base_url@, route@),
{
    url_join(api_base_url, route)
}

} // verus!
