//! The certificate authority's side: validation snapshots, certificate
//! bundles and the expiry report.

pub mod check;
pub mod tencent;
pub mod utils;

use vstd::prelude::*;

pub use check::{check_ssl_certificate, CertificateInfo};
pub use tencent::TencentSSL;
pub use utils::{parse_cert_from_base64, CertFile};

verus! {

/// The certificate authority's latest word on one certificate request: the
/// handle it was given, the DNS challenge to publish, and whether the
/// certificate can be downloaded.
#[derive(Debug, PartialEq, Eq)]
pub struct ApplyStatus {
    pub certificate_id: String,
    pub dns_key: String,
    pub dns_value: String,
    pub status: i32,
    pub can_download: bool,
}

/// The mathematical value of an [`ApplyStatus`].
pub struct StatusView {
    pub certificate_id: Seq<char>,
    pub dns_key: Seq<char>,
    pub dns_value: Seq<char>,
    pub status: i32,
    pub can_download: bool,
}

impl StatusView {
    /// The record of a request that was just made: no challenge yet, nothing
    /// to download.
    pub open spec fn requested(certificate_id: Seq<char>) -> StatusView {
        StatusView {
            certificate_id,
            dns_key: Seq::empty(),
            dns_value: Seq::empty(),
            status: 0,
            can_download: false,
        }
    }
}

impl View for ApplyStatus {
    type V = StatusView;

    open spec fn view(&self) -> StatusView {
        StatusView {
            certificate_id: self.certificate_id@,
            dns_key: self.dns_key@,
            dns_value: self.dns_value@,
            status: self.status,
            can_download: self.can_download,
        }
    }
}

impl Clone for ApplyStatus {
    fn clone(&self) -> (copy: ApplyStatus)
        ensures
            copy@ == self@,
    {
        ApplyStatus {
            certificate_id: self.certificate_id.clone(),
            dns_key: self.dns_key.clone(),
            dns_value: self.dns_value.clone(),
            status: self.status,
            can_download: self.can_download,
        }
    }
}

impl ApplyStatus {
    /// The record of a request that was just made under `certificate_id`.
    pub fn requested(certificate_id: String) -> (status: ApplyStatus)
        ensures
            status@ == StatusView::requested(certificate_id@),
    {
        ApplyStatus {
            certificate_id,
            dns_key: String::new(),
            dns_value: String::new(),
            status: 0,
            can_download: false,
        }
    }
}

} // verus!
