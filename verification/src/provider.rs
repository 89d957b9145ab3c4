//! How the clients of a vendor account are to be set up.

use crate::domain::ProviderView;
use crate::error::{text_result, AppError, ErrorView, Result};
use crate::lifecycle::machine::id_result;
use vstd::prelude::*;
use vstd::string::*;

verus! {

/// The only vendor there is an adapter for.
pub const TENCENT: &'static str = "tencent";

/// The region that requests go to unless they name another.
pub const DEFAULT_REGION: &'static str = "ap-guangzhou";

/// How often a client tries a request again after a failure of the
/// connection.
pub const MAX_RETRIES: usize = 3;

/// Milliseconds before a client's first retry.
pub const RETRY_DELAY_MS: u64 = 200;

/// What a client of a vendor account is built from: the credential, and the
/// client's own policy for its connections.
#[derive(Debug, PartialEq, Eq)]
pub struct ClientSettings {
    pub secret_id: String,
    pub secret_key: String,
    pub region: String,
    pub max_retries: usize,
    pub retry_delay_ms: u64,
    pub no_system_proxy: bool,
}

/// The mathematical value of [`ClientSettings`].
pub struct SettingsView {
    pub secret_id: Seq<char>,
    pub secret_key: Seq<char>,
    pub region: Seq<char>,
    pub max_retries: usize,
    pub retry_delay_ms: u64,
    pub no_system_proxy: bool,
}

impl SettingsView {
    /// The settings that every client of the updater has for a credential.
    pub open spec fn standard(secret_id: Seq<char>, secret_key: Seq<char>) -> SettingsView {
        SettingsView {
            secret_id,
            secret_key,
            region: DEFAULT_REGION@,
            max_retries: MAX_RETRIES,
            retry_delay_ms: RETRY_DELAY_MS,
            no_system_proxy: true,
        }
    }

    /// The settings of a client for a vendor account.
    pub open spec fn of(account: ProviderView) -> SettingsView {
        SettingsView::standard(account.secret_id, account.secret_key)
    }
}

impl View for ClientSettings {
    type V = SettingsView;

    open spec fn view(&self) -> SettingsView {
        SettingsView {
            secret_id: self.secret_id@,
            secret_key: self.secret_key@,
            region: self.region@,
            max_retries: self.max_retries,
            retry_delay_ms: self.retry_delay_ms,
            no_system_proxy: self.no_system_proxy,
        }
    }
}

impl ClientSettings {
    /// The settings that every client of the updater has for a credential:
    /// the default region, no proxy taken from the system, and three retries
    /// that start after a fifth of a second.
    pub fn standard(secret_id: &str, secret_key: &str) -> (settings: ClientSettings)
        ensures
            settings@ == SettingsView::standard(secret_id@, secret_key@),
    {
        ClientSettings {
            secret_id: String::from_str(secret_id),
            secret_key: String::from_str(secret_key),
            region: String::from_str(DEFAULT_REGION),
            max_retries: MAX_RETRIES,
            retry_delay_ms: RETRY_DELAY_MS,
            no_system_proxy: true,
        }
    }
}

/// A vendor's answer that holds a text, as the outcome of the call: the
/// text, or the error with `missing` where the answer lacks it, or the error
/// with what the vendor or the connection said.
pub open spec fn required_text(
    answer: std::result::Result<Option<String>, String>,
    missing: Seq<char>,
) -> std::result::Result<Seq<char>, ErrorView> {
    match answer {
        Ok(Some(text)) => Ok(text@),
        Ok(None) => Err(ErrorView::CloudError(missing)),
        Err(said) => Err(ErrorView::CloudError(said@)),
    }
}

/// A vendor's answer that holds a record identifier, as the outcome of the
/// call.
pub open spec fn required_id(
    answer: std::result::Result<Option<u64>, String>,
    missing: Seq<char>,
) -> std::result::Result<u64, ErrorView> {
    match answer {
        Ok(Some(id)) => Ok(id),
        Ok(None) => Err(ErrorView::CloudError(missing)),
        Err(said) => Err(ErrorView::CloudError(said@)),
    }
}

/// Turns a vendor's answer that should hold a text into the outcome of the
/// call.
pub fn require_text(answer: std::result::Result<Option<String>, String>, missing: &str) -> (outcome:
    Result<String>)
    ensures
        text_result(outcome) == required_text(answer, missing@),
{
    match answer {
        Ok(Some(text)) => Ok(text),
        Ok(None) => Err(AppError::CloudError(String::from_str(missing))),
        Err(said) => Err(AppError::CloudError(said)),
    }
}

/// Turns a vendor's answer that should hold a record identifier into the
/// outcome of the call.
pub fn require_id(answer: std::result::Result<Option<u64>, String>, missing: &str) -> (outcome:
    Result<u64>)
    ensures
        id_result(outcome) == required_id(answer, missing@),
{
    match answer {
        Ok(Some(id)) => Ok(id),
        Ok(None) => Err(AppError::CloudError(String::from_str(missing))),
        Err(said) => Err(AppError::CloudError(said)),
    }
}

} // verus!
