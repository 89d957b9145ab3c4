//! Tencent Cloud CDN: its client's settings, and what its answers mean.

use crate::error::{text_result, AppError, ErrorView, Result};
use crate::provider::{ClientSettings, SettingsView};
use vstd::prelude::*;
use vstd::string::*;

verus! {

/// What introduces the error of a binding that failed.
pub const BIND_FAILED: &'static str = "tencent cloud download ssl certificate failed:";

/// The client of the CDN vendor for one account.
#[derive(Debug, PartialEq, Eq)]
pub struct TencentCDN {
    pub settings: ClientSettings,
}

/// What a binding amounts to: the vendor's confirmation, or the error that
/// says the binding failed and why.
pub open spec fn bound(answer: std::result::Result<String, String>) -> std::result::Result<
    Seq<char>,
    ErrorView,
> {
    match answer {
        Ok(request_id) => Ok(request_id@),
        Err(said) => Err(ErrorView::CloudError(BIND_FAILED@ + said@)),
    }
}

impl TencentCDN {
    /// The client for the account with this credential.
    pub fn new(secret_id: &str, secret_key: &str) -> (client: TencentCDN)
        ensures
            client.settings@ == SettingsView::standard(secret_id@, secret_key@),
    {
        TencentCDN { settings: ClientSettings::standard(secret_id, secret_key) }
    }

    /// The confirmation that a binding was answered with.
    pub fn update_ssl(answer: std::result::Result<String, String>) -> (request_id: Result<String>)
        ensures
            text_result(request_id) == bound(answer),
    {
        match answer {
            Ok(request_id) => Ok(request_id),
            Err(said) => Err(
                AppError::CloudError(String::from_str(BIND_FAILED).concat(said.as_str())),
            ),
        }
    }
}

} // verus!
