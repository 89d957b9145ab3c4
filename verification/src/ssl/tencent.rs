//! The Tencent Cloud certificate authority: its client's settings, and what
//! its answers mean.

use crate::error::{text_result, AppError, ErrorView, Result};
use crate::lifecycle::machine::status_result;
use crate::provider::{require_text, required_text, ClientSettings, SettingsView};
use crate::ssl::{ApplyStatus, StatusView};
use vstd::prelude::*;
use vstd::string::*;

verus! {

/// The error for an application that was answered without a handle.
pub const APPLY_FAILED: &'static str = "tencent cloud apply ssl certificate failed";

/// The error for a download that was answered without content.
pub const DOWNLOAD_FAILED: &'static str = "tencent cloud download ssl certificate failed";

/// The error for an upload that was answered without a handle.
pub const UPLOAD_FAILED: &'static str = "tencent cloud upload ssl certificate failed";

/// The error for a status that was answered without a status code.
pub const STATUS_MISSING: &'static str = "tencent cloud check ssl certificate status missing fields";

/// What introduces the error of a status poll that failed.
pub const STATUS_FAILED: &'static str = "tencent cloud check ssl certificate status failed: ";

/// The status code of a certificate that is issued.
pub const STATUS_ISSUED: i32 = 1;

/// The status code of a certificate under validation.
pub const STATUS_VALIDATING: i32 = 0;

/// The client of the certificate authority for one account.
#[derive(Debug, PartialEq, Eq)]
pub struct TencentSSL {
    pub settings: ClientSettings,
}

/// The DNS challenge as the authority describes it.
#[derive(Debug)]
pub struct DvAuthDetail {
    pub dv_auth_key: Option<String>,
    pub dv_auth_value: Option<String>,
}

/// What the lifecycle reads in the authority's description of a
/// certificate.
#[derive(Debug)]
pub struct CertificateDescription {
    pub status: Option<i32>,
    pub dv_auth_detail: Option<DvAuthDetail>,
}

/// The mathematical value of a [`CertificateDescription`]: the status code,
/// and the challenge where the description has both its key and its value.
pub struct DescriptionView {
    pub status: Option<i32>,
    pub challenge: Option<(Seq<char>, Seq<char>)>,
}

impl View for CertificateDescription {
    type V = DescriptionView;

    open spec fn view(&self) -> DescriptionView {
        DescriptionView {
            status: self.status,
            challenge: match self.dv_auth_detail {
                Some(DvAuthDetail { dv_auth_key: Some(key), dv_auth_value: Some(value) }) => Some(
                    (key@, value@),
                ),
                _ => None,
            },
        }
    }
}

impl DescriptionView {
    /// The snapshot that a description amounts to for the request
    /// `certificate_id`: ready for download where the certificate is issued;
    /// the challenge where it is under validation and the description has
    /// one; else the status code alone. A description without a status code
    /// is an error.
    pub open spec fn snapshot(self, certificate_id: Seq<char>) -> std::result::Result<
        StatusView,
        ErrorView,
    > {
        match (self.status, self.challenge) {
            (None, _) => Err(ErrorView::CloudError(STATUS_MISSING@)),
            (Some(status), challenge) => if status == STATUS_ISSUED {
                Ok(StatusView { status, can_download: true, ..StatusView::requested(certificate_id) })
            } else {
                match challenge {
                    Some((dns_key, dns_value)) if status == STATUS_VALIDATING => Ok(
                        StatusView {
                            certificate_id,
                            dns_key,
                            dns_value,
                            status,
                            can_download: false,
                        },
                    ),
                    _ => Ok(StatusView { status, ..StatusView::requested(certificate_id) }),
                }
            },
        }
    }
}

/// What a status poll amounts to: the snapshot of the description, or the
/// error that says the poll failed and why.
pub open spec fn polled(
    certificate_id: Seq<char>,
    answer: std::result::Result<CertificateDescription, String>,
) -> std::result::Result<StatusView, ErrorView> {
    match answer {
        Ok(description) => description@.snapshot(certificate_id),
        Err(said) => Err(ErrorView::CloudError(STATUS_FAILED@ + said@)),
    }
}

impl TencentSSL {
    /// The client for the account with this credential.
    pub fn new(secret_id: &str, secret_key: &str) -> (client: TencentSSL)
        ensures
            client.settings@ == SettingsView::standard(secret_id@, secret_key@),
    {
        TencentSSL { settings: ClientSettings::standard(secret_id, secret_key) }
    }

    /// The handle of the request that an application was answered with.
    pub fn apply(answer: std::result::Result<Option<String>, String>) -> (issued: Result<String>)
        ensures
            text_result(issued) == required_text(answer, APPLY_FAILED@),
    {
        require_text(answer, APPLY_FAILED)
    }

    /// The bundle that a download was answered with.
    pub fn download(answer: std::result::Result<Option<String>, String>) -> (content: Result<
        String,
    >)
        ensures
            text_result(content) == required_text(answer, DOWNLOAD_FAILED@),
    {
        require_text(answer, DOWNLOAD_FAILED)
    }

    /// The handle that an upload was answered with.
    pub fn upload(answer: std::result::Result<Option<String>, String>) -> (handle: Result<String>)
        ensures
            text_result(handle) == required_text(answer, UPLOAD_FAILED@),
    {
        require_text(answer, UPLOAD_FAILED)
    }

    /// The snapshot that a status poll for `certificate_id` was answered
    /// with.
    pub fn check_status(
        certificate_id: &str,
        answer: std::result::Result<CertificateDescription, String>,
    ) -> (snapshot: Result<ApplyStatus>)
        ensures
            status_result(snapshot) == polled(certificate_id@, answer),
    {
        let description = match answer {
            Ok(description) => description,
            Err(said) => {
                return Err(
                    AppError::CloudError(String::from_str(STATUS_FAILED).concat(said.as_str())),
                );
            },
        };
        let status = match description.status {
            Some(status) => status,
            None => {
                return Err(AppError::CloudError(String::from_str(STATUS_MISSING)));
            },
        };
        let mut snapshot = ApplyStatus::requested(String::from_str(certificate_id));
        snapshot.status = status;
        if status == STATUS_ISSUED {
            snapshot.can_download = true;
            return Ok(snapshot);
        }
        if status == STATUS_VALIDATING {
            match description.dv_auth_detail {
                Some(DvAuthDetail { dv_auth_key: Some(key), dv_auth_value: Some(value) }) => {
                    snapshot.dns_key = key;
                    snapshot.dns_value = value;
                },
                _ => {},
            }
        }
        Ok(snapshot)
    }
}

} // verus!
