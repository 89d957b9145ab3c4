//! Tencent Cloud DNS: its client's settings, and what its answers mean.

use crate::error::{text_result, AppError, ErrorView, Result};
use crate::lifecycle::machine::id_result;
use crate::provider::{require_id, required_id, ClientSettings, SettingsView};
use vstd::prelude::*;
use vstd::string::*;

verus! {

/// The line that validation records are served on.
pub const RECORD_LINE: &'static str = "默认";

/// The error for a creation that was answered without an identifier.
pub const ADD_FAILED: &'static str = "tencent cloud add dns record failed";

/// The error for a modification that was answered without an identifier.
pub const MODIFY_FAILED: &'static str = "tencent cloud modify dns record failed";

/// The error for a lookup that found no record.
pub const NO_RECORD: &'static str = "no dns record";

/// The client of the DNS vendor for one account.
#[derive(Debug, PartialEq, Eq)]
pub struct TencentDNS {
    pub settings: ClientSettings,
}

/// A vendor's answer that is a text, as the outcome of the call.
pub open spec fn answered(answer: std::result::Result<String, String>) -> std::result::Result<
    Seq<char>,
    ErrorView,
> {
    match answer {
        Ok(text) => Ok(text@),
        Err(said) => Err(ErrorView::CloudError(said@)),
    }
}

/// The first of the records that a lookup found. A lookup that found none
/// is a record that was expected and is not there.
pub open spec fn first_record(
    answer: std::result::Result<Vec<u64>, String>,
) -> std::result::Result<u64, ErrorView> {
    match answer {
        Ok(records) => if records@.len() > 0 {
            Ok(records@[0])
        } else {
            Err(ErrorView::NotFound(NO_RECORD@))
        },
        Err(said) => Err(ErrorView::CloudError(said@)),
    }
}

impl TencentDNS {
    /// The client for the account with this credential.
    pub fn new(secret_id: &str, secret_key: &str) -> (client: TencentDNS)
        ensures
            client.settings@ == SettingsView::standard(secret_id@, secret_key@),
    {
        TencentDNS { settings: ClientSettings::standard(secret_id, secret_key) }
    }

    /// The identifier that the creation of a record was answered with.
    pub fn add_record(answer: std::result::Result<Option<u64>, String>) -> (record_id: Result<u64>)
        ensures
            id_result(record_id) == required_id(answer, ADD_FAILED@),
    {
        require_id(answer, ADD_FAILED)
    }

    /// The identifier that the modification of a record was answered with.
    pub fn modify_record(answer: std::result::Result<Option<u64>, String>) -> (record_id: Result<
        u64,
    >)
        ensures
            id_result(record_id) == required_id(answer, MODIFY_FAILED@),
    {
        require_id(answer, MODIFY_FAILED)
    }

    /// The confirmation that the deletion of a record was answered with.
    pub fn delete_record(answer: std::result::Result<String, String>) -> (request_id: Result<
        String,
    >)
        ensures
            text_result(request_id) == answered(answer),
    {
        match answer {
            Ok(request_id) => Ok(request_id),
            Err(said) => Err(AppError::CloudError(said)),
        }
    }

    /// The identifier of the first record that a lookup was answered with.
    /// A lookup that found no record is a not-found error; a lookup that
    /// failed is the vendor's error.
    pub fn record_id(answer: std::result::Result<Vec<u64>, String>) -> (record_id: Result<u64>)
        ensures
            id_result(record_id) == first_record(answer),
    {
        match answer {
            Ok(records) => if records.len() > 0 {
                Ok(records[0])
            } else {
                Err(AppError::NotFound(String::from_str(NO_RECORD)))
            },
            Err(said) => Err(AppError::CloudError(said)),
        }
    }
}

} // verus!
