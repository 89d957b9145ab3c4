//! The configuration file: the default vendor account.

use crate::error::{AppError, ErrorView, Result};
use vstd::prelude::*;
use vstd::string::*;

verus! {

/// A configuration that the config crate has read. What it holds is known
/// by [`settings_of`] alone.
#[verifier::external_type_specification]
#[verifier::external_body]
pub struct ExConfig(config::Config);

/// The error of the config crate, carried as it comes.
#[verifier::external_type_specification]
#[verifier::external_body]
pub struct ExConfigError(config::ConfigError);

/// Where the configuration keeps the identifier of the default account.
pub const SECRET_ID_KEY: &'static str = "tencent_cloud.secret_id";

/// Where the configuration keeps the key of the default account.
pub const SECRET_KEY_KEY: &'static str = "tencent_cloud.secret_key";

/// The default Tencent Cloud account.
#[derive(Debug, PartialEq, Eq)]
pub struct TencentCloudConfig {
    pub secret_id: String,
    pub secret_key: String,
}

/// Everything the configuration file holds.
#[derive(Debug, PartialEq, Eq)]
pub struct AllConfig {
    pub tencent_cloud: TencentCloudConfig,
}

/// The mathematical value of an [`AllConfig`]: the credential of the default
/// account.
pub struct ConfigView {
    pub secret_id: Seq<char>,
    pub secret_key: Seq<char>,
}

impl View for AllConfig {
    type V = ConfigView;

    open spec fn view(&self) -> ConfigView {
        ConfigView {
            secret_id: self.tencent_cloud.secret_id@,
            secret_key: self.tencent_cloud.secret_key@,
        }
    }
}

impl Clone for AllConfig {
    fn clone(&self) -> (copy: AllConfig)
        ensures
            copy@ == self@,
    {
        AllConfig {
            tencent_cloud: TencentCloudConfig {
                secret_id: self.tencent_cloud.secret_id.clone(),
                secret_key: self.tencent_cloud.secret_key.clone(),
            },
        }
    }
}

/// The settings of a configuration that was read: under each key, the text
/// that a lookup of the key gives.
pub uninterp spec fn settings_of(configuration: config::Config) -> Map<Seq<char>, Seq<char>>;

/// `ConfigBuilder::build` of the config crate, over one source: `text`, read
/// as TOML. Nothing is claimed of the outcome: where a text names one
/// setting in two ways, the value that stays is up to the order in which the
/// crate walks a hash map, and that order differs from run to run.
#[verifier::external_body]
fn read_toml(text: &str) -> (read: std::result::Result<config::Config, config::ConfigError>) {
    config::Config::builder().add_source(
        config::File::from_str(text, config::FileFormat::Toml),
    ).build()
}

/// `Config::get_string` of the config crate. Trusted: a key comes out as its
/// text exactly when the settings hold a text under it.
#[verifier::external_body]
fn setting(configuration: &config::Config, key: &str) -> (value: std::result::Result<
    String,
    config::ConfigError,
>)
    ensures
        match value {
            Ok(text) => settings_of(*configuration).contains_key(key@) && settings_of(
                *configuration,
            )[key@] == text@,
            Err(_) => !settings_of(*configuration).contains_key(key@),
        },
{
    configuration.get_string(key)
}

/// The configuration that settings amount to: `None` unless they hold both
/// parts of the default account's credential.
pub open spec fn configured(settings: Map<Seq<char>, Seq<char>>) -> Option<ConfigView> {
    if settings.contains_key(SECRET_ID_KEY@) && settings.contains_key(SECRET_KEY_KEY@) {
        Some(
            ConfigView { secret_id: settings[SECRET_ID_KEY@], secret_key: settings[SECRET_KEY_KEY@] },
        )
    } else {
        None
    }
}

/// The configuration made of the two parts of the default account's
/// credential, each as its lookup came out: the text, or what the lookup
/// said against it. The first part that is missing is the error.
pub fn all_config(
    secret_id: std::result::Result<String, String>,
    secret_key: std::result::Result<String, String>,
) -> (configuration: Result<AllConfig>)
    ensures
        match (secret_id, secret_key) {
            (Ok(id), Ok(key)) => configuration matches Ok(c) && c@ == (ConfigView {
                secret_id: id@,
                secret_key: key@,
            }),
            (Err(said), _) => configuration matches Err(e) && e@ == ErrorView::ConfigError(said@),
            (Ok(_), Err(said)) => configuration matches Err(e) && e@ == ErrorView::ConfigError(
                said@,
            ),
        },
{
    match (secret_id, secret_key) {
        (Ok(secret_id), Ok(secret_key)) => Ok(
            AllConfig { tencent_cloud: TencentCloudConfig { secret_id, secret_key } },
        ),
        (Err(said), _) => Err(AppError::ConfigError(said)),
        (Ok(_), Err(said)) => Err(AppError::ConfigError(said)),
    }
}

/// Takes the configuration out of settings that were read: the two parts of
/// the default account's credential. Settings that lack a part are a
/// configuration error.
pub fn config_of(read: &config::Config) -> (configuration: Result<AllConfig>)
    ensures
        match configuration {
            Ok(c) => configured(settings_of(*read)) == Some(c@),
            Err(e) => configured(settings_of(*read)) is None && e@ is ConfigError,
        },
{
    let secret_id = match setting(read, SECRET_ID_KEY) {
        Ok(text) => Ok(text),
        Err(e) => Err(e.to_string()),
    };
    let secret_key = match setting(read, SECRET_KEY_KEY) {
        Ok(text) => Ok(text),
        Err(e) => Err(e.to_string()),
    };
    all_config(secret_id, secret_key)
}

/// Reads the configuration out of the text of a configuration file, which
/// is TOML. A text that is not read as TOML, or whose settings lack a part of
/// the default account's credential, is a configuration error; there is no
/// other error.
pub fn get_all_config(text: &str) -> (configuration: Result<AllConfig>)
    ensures
        configuration matches Err(e) ==> e@ is ConfigError,
{
    match read_toml(text) {
        Ok(read) => config_of(&read),
        Err(e) => Err(AppError::ConfigError(e.to_string())),
    }
}

} // verus!
