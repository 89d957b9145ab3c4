//! The domain record: the unit of work of a certificate lifecycle.

use crate::cdn::TencentCDN;
use crate::dns::TencentDNS;
use crate::error::{text_result, ErrorView, Result};
use crate::lifecycle::machine::{id_result, sub_domain_of, Action};
use crate::lifecycle::model::{validation_sub_domain, ActionView, Service};
use crate::provider::{SettingsView, TENCENT};
use crate::ssl::check::{CertificateInfo, CertificateInfoView};
use crate::ssl::TencentSSL;
use crate::text::{first_index_of, lemma_first_index_is};
use crate::{INVALID_CDN_PROVIDER, INVALID_DNS_PROVIDER, INVALID_SSL_PROVIDER};
use crate::ssl::{ApplyStatus, StatusView};
use vstd::prelude::*;
use vstd::string::*;

pub use crate::lifecycle::machine::auto_update_ssl;
use vstd::std_specs::cmp::PartialEqSpecImpl;

verus! {

/// The character between the labels of a domain name.
pub const LABEL_SEPARATOR: char = '.';

/// The zone that a name lies in: the name without its leftmost label and the
/// separator after it. A name of one label lies in the empty zone.
pub open spec fn parent_zone_of(name: Seq<char>) -> Seq<char> {
    let dot = first_index_of(name, LABEL_SEPARATOR);
    if dot < name.len() {
        name.subrange(dot + 1, name.len() as int)
    } else {
        Seq::empty()
    }
}

/// The zone that `name` lies in: the name without its leftmost label.
pub fn parent_zone(name: &str) -> (zone: String)
    ensures
        zone@ == parent_zone_of(name@),
{
    let length = name.unicode_len();
    let mut dot: usize = 0;
    while dot < length && name.get_char(dot) != LABEL_SEPARATOR
        invariant
            length == name@.len(),
            dot <= length,
            forall|i: int| 0 <= i < dot ==> name@[i] != LABEL_SEPARATOR,
        decreases length - dot,
    {
        dot += 1;
    }
    proof {
        lemma_first_index_is(name@, LABEL_SEPARATOR, dot as int);
    }
    if dot < length {
        String::from_str(name.substring_char(dot + 1, length))
    } else {
        String::new()
    }
}

/// A vendor account: which vendor, and the credential to use with it.
#[derive(Debug)]
pub struct CloudProvider {
    pub name: String,
    pub secret_id: String,
    pub secret_key: String,
}

/// The mathematical value of a [`CloudProvider`].
pub struct ProviderView {
    pub name: Seq<char>,
    pub secret_id: Seq<char>,
    pub secret_key: Seq<char>,
}

impl View for CloudProvider {
    type V = ProviderView;

    open spec fn view(&self) -> ProviderView {
        ProviderView { name: self.name@, secret_id: self.secret_id@, secret_key: self.secret_key@ }
    }
}

impl Clone for CloudProvider {
    fn clone(&self) -> (copy: CloudProvider)
        ensures
            copy@ == self@,
    {
        CloudProvider {
            name: self.name.clone(),
            secret_id: self.secret_id.clone(),
            secret_key: self.secret_key.clone(),
        }
    }
}

impl PartialEq for CloudProvider {
    fn eq(&self, other: &CloudProvider) -> (same: bool) {
        self.name == other.name && self.secret_id == other.secret_id && self.secret_key
            == other.secret_key
    }
}

impl PartialEqSpecImpl for CloudProvider {
    open spec fn obeys_eq_spec() -> bool {
        true
    }

    open spec fn eq_spec(&self, other: &CloudProvider) -> bool {
        self@ == other@
    }
}

impl Eq for CloudProvider {

}

/// Whether the validation record of a domain has been created, and under
/// which identifier the DNS vendor keeps it.
#[derive(Debug, Clone, Copy, PartialEq, Eq)]
pub struct DnsInfo {
    /// 0 while no record has been created, 1 once one has.
    pub dns_status: u8,
    pub dns_record_id: Option<u64>,
}

/// The status reported for a domain that has no DNS information at all.
pub const DNS_STATUS_UNKNOWN: u8 = 255;

/// What the deletion of a validation record comes to where there is no
/// record to delete.
pub const NOTHING_TO_DELETE: &'static str = "ok";

/// A domain to secure, the three vendor accounts that serve it, and how far
/// its certificate has come.
#[derive(Debug, PartialEq, Eq)]
pub struct Domain {
    pub name: String,
    pub original_name: String,
    pub ssl_provider: CloudProvider,
    pub cdn_provider: CloudProvider,
    pub dns_provider: CloudProvider,
    pub ssl_info: Option<ApplyStatus>,
    pub dns_info: Option<DnsInfo>,
    pub certificate_info: Option<CertificateInfo>,
}

/// The mathematical value of a [`Domain`].
pub struct DomainView {
    pub name: Seq<char>,
    pub original_name: Seq<char>,
    pub ssl_provider: ProviderView,
    pub cdn_provider: ProviderView,
    pub dns_provider: ProviderView,
    pub ssl_info: Option<StatusView>,
    pub dns_info: Option<DnsInfo>,
    pub certificate_info: Option<CertificateInfoView>,
}

impl DomainView {
    /// The certificate can go to the CDN as it is: the authority and the CDN
    /// are the same vendor account.
    pub open spec fn can_direct_update_ssl(self) -> bool {
        self.ssl_provider == self.cdn_provider
    }

    /// The handle of the certificate request, once one has been made.
    pub open spec fn ssl_certificate_id(self) -> Option<Seq<char>> {
        match self.ssl_info {
            Some(info) => Some(info.certificate_id),
            None => None,
        }
    }

    /// The recorded DNS status, [`DNS_STATUS_UNKNOWN`] where nothing is recorded.
    pub open spec fn dns_status(self) -> u8 {
        match self.dns_info {
            Some(info) => info.dns_status,
            None => DNS_STATUS_UNKNOWN,
        }
    }

    /// No validation record has been created for this domain yet.
    pub open spec fn lacks_record(self) -> bool {
        self.dns_info is None || self.dns_status() == 0
    }

    /// The vendor's identifier of the validation record, where one is known.
    pub open spec fn record_id(self) -> Option<u64> {
        match self.dns_info {
            Some(info) => info.dns_record_id,
            None => None,
        }
    }
}

impl View for Domain {
    type V = DomainView;

    open spec fn view(&self) -> DomainView {
        DomainView {
            name: self.name@,
            original_name: self.original_name@,
            ssl_provider: self.ssl_provider@,
            cdn_provider: self.cdn_provider@,
            dns_provider: self.dns_provider@,
            ssl_info: match self.ssl_info {
                Some(info) => Some(info@),
                None => None,
            },
            dns_info: self.dns_info,
            certificate_info: match self.certificate_info {
                Some(info) => Some(info@),
                None => None,
            },
        }
    }
}

/// The views of a sequence of domains.
pub open spec fn domain_views(domains: Seq<Domain>) -> Seq<DomainView> {
    Seq::new(domains.len(), |i: int| domains[i]@)
}

impl Clone for Domain {
    fn clone(&self) -> (copy: Domain)
        ensures
            copy@ == self@,
    {
        Domain {
            name: self.name.clone(),
            original_name: self.original_name.clone(),
            ssl_provider: self.ssl_provider.clone(),
            cdn_provider: self.cdn_provider.clone(),
            dns_provider: self.dns_provider.clone(),
            ssl_info: match &self.ssl_info {
                Some(info) => Some(info.clone()),
                None => None,
            },
            dns_info: self.dns_info,
            certificate_info: match &self.certificate_info {
                Some(info) => Some(info.clone()),
                None => None,
            },
        }
    }
}

impl Domain {
    /// The record of a domain for which nothing has been done yet. Its
    /// validation record will be placed in the zone that the name lies in.
    pub fn new(
        name: String,
        ssl_provider: CloudProvider,
        cdn_provider: CloudProvider,
        dns_provider: CloudProvider,
    ) -> (domain: Domain)
        ensures
            domain@ == (DomainView {
                name: name@,
                original_name: parent_zone_of(name@),
                ssl_provider: ssl_provider@,
                cdn_provider: cdn_provider@,
                dns_provider: dns_provider@,
                ssl_info: None,
                dns_info: None,
                certificate_info: None,
            }),
    {
        let original_name = parent_zone(name.as_str());
        Domain {
            name,
            original_name,
            ssl_provider,
            cdn_provider,
            dns_provider,
            ssl_info: None,
            dns_info: None,
            certificate_info: None,
        }
    }

    /// Whether the certificate can go to the CDN without being uploaded
    /// again: the authority and the CDN are the same vendor account.
    pub fn can_direct_update_ssl(&self) -> (direct: bool)
        ensures
            direct == self@.can_direct_update_ssl(),
    {
        self.ssl_provider == self.cdn_provider
    }

    /// The domain to secure.
    pub fn name(&self) -> (name: String)
        ensures
            name@ == self@.name,
    {
        self.name.clone()
    }

    /// The zone in which the domain's validation record is placed.
    pub fn original_name(&self) -> (zone: String)
        ensures
            zone@ == self@.original_name,
    {
        self.original_name.clone()
    }

    /// The handle of the certificate request, once one has been made.
    pub fn ssl_certificate_id(&self) -> (id: Option<String>)
        ensures
            id is Some <==> self@.ssl_certificate_id() is Some,
            id is Some ==> id->0@ == self@.ssl_certificate_id()->0,
    {
        match &self.ssl_info {
            Some(info) => Some(info.certificate_id.clone()),
            None => None,
        }
    }

    /// Records what is known of the validation record.
    pub fn set_dns_info(&mut self, info: DnsInfo)
        ensures
            final(self)@ == (DomainView { dns_info: Some(info), ..old(self)@ }),
    {
        self.dns_info = Some(info)
    }

    /// Records the authority's latest snapshot.
    pub fn set_ssl_info(&mut self, info: ApplyStatus)
        ensures
            final(self)@ == (DomainView { ssl_info: Some(info@), ..old(self)@ }),
    {
        self.ssl_info = Some(info)
    }

    /// Whether no validation record has been created for this domain yet.
    pub fn lacks_record(&self) -> (lacking: bool)
        ensures
            lacking == self@.lacks_record(),
    {
        match &self.dns_info {
            Some(info) => info.dns_status == 0,
            None => true,
        }
    }

    /// The vendor's identifier of the validation record, where one is known.
    pub fn record_id(&self) -> (id: Option<u64>)
        ensures
            id == self@.record_id(),
    {
        match &self.dns_info {
            Some(info) => info.dns_record_id,
            None => None,
        }
    }

    /// The recorded DNS status, [`DNS_STATUS_UNKNOWN`] where nothing is recorded.
    pub fn dns_status(&self) -> (status: u8)
        ensures
            status == self@.dns_status(),
    {
        match &self.dns_info {
            Some(info) => info.dns_status,
            None => DNS_STATUS_UNKNOWN,
        }
    }

    /// The account that serves `service` for this domain.
    pub fn account(&self, service: Service) -> (account: &CloudProvider)
        ensures
            account@ == self@.account(service),
    {
        match service {
            Service::Authority => &self.ssl_provider,
            Service::CdnCertificates | Service::Cdn => &self.cdn_provider,
            Service::Dns => &self.dns_provider,
        }
    }

    /// The client of this domain's certificate authority.
    pub fn ssl_client(&self) -> (client: Result<TencentSSL>)
        ensures
            match client {
                Ok(client) => self@.ssl_provider.name == TENCENT@ && client.settings@
                    == SettingsView::of(self@.ssl_provider),
                Err(e) => self@.ssl_provider.name != TENCENT@ && e@ == ErrorView::ConfigError(
                    INVALID_SSL_PROVIDER@,
                ),
            },
    {
        crate::ssl_client(
            self.ssl_provider.name.as_str(),
            self.ssl_provider.secret_id.as_str(),
            self.ssl_provider.secret_key.as_str(),
        )
    }

    /// The client of this domain's DNS vendor.
    pub fn dns_client(&self) -> (client: Result<TencentDNS>)
        ensures
            match client {
                Ok(client) => self@.dns_provider.name == TENCENT@ && client.settings@
                    == SettingsView::of(self@.dns_provider),
                Err(e) => self@.dns_provider.name != TENCENT@ && e@ == ErrorView::ConfigError(
                    INVALID_DNS_PROVIDER@,
                ),
            },
    {
        crate::dns_client(
            self.dns_provider.name.as_str(),
            self.dns_provider.secret_id.as_str(),
            self.dns_provider.secret_key.as_str(),
        )
    }

    /// The client of this domain's CDN vendor.
    pub fn cdn_client(&self) -> (client: Result<TencentCDN>)
        ensures
            match client {
                Ok(client) => self@.cdn_provider.name == TENCENT@ && client.settings@
                    == SettingsView::of(self@.cdn_provider),
                Err(e) => self@.cdn_provider.name != TENCENT@ && e@ == ErrorView::ConfigError(
                    INVALID_CDN_PROVIDER@,
                ),
            },
    {
        crate::cdn_client(
            self.cdn_provider.name.as_str(),
            self.cdn_provider.secret_id.as_str(),
            self.cdn_provider.secret_key.as_str(),
        )
    }

    /// Takes in what came of applying for a certificate: a handle is
    /// recorded as a request just made, an error leaves the record as it is
    /// and is handed on.
    pub fn apply_ssl(&mut self, issued: Result<String>) -> (done: Result<()>)
        ensures
            match issued {
                Ok(certificate_id) => done is Ok && final(self)@ == (DomainView {
                    ssl_info: Some(StatusView::requested(certificate_id@)),
                    ..old(self)@
                }),
                Err(e) => final(self)@ == old(self)@ && (done matches Err(handed) && handed@
                    == e@),
            },
    {
        match issued {
            Ok(certificate_id) => {
                self.ssl_info = Some(ApplyStatus::requested(certificate_id));
                Ok(())
            },
            Err(e) => Err(e),
        }
    }

    /// Takes in what came of a status poll. A record without a certificate
    /// handle has nothing to poll for: it stays as it is and the answer is
    /// `None`. Else a snapshot replaces the one on record and is handed
    /// back; an error leaves the record as it is and is handed on.
    pub fn check_ssl_status(&mut self, polled: Result<ApplyStatus>) -> (seen: Result<
        Option<ApplyStatus>,
    >)
        ensures
            old(self)@.ssl_info is None ==> final(self)@ == old(self)@ && seen matches Ok(None),
            old(self)@.ssl_info is Some ==> match polled {
                Ok(snapshot) => final(self)@ == (DomainView {
                    ssl_info: Some(snapshot@),
                    ..old(self)@
                }) && (seen matches Ok(Some(handed)) && handed@ == snapshot@),
                Err(e) => final(self)@ == old(self)@ && (seen matches Err(handed) && handed@
                    == e@),
            },
    {
        if self.ssl_info.is_none() {
            return Ok(None);
        }
        match polled {
            Ok(snapshot) => {
                self.ssl_info = Some(snapshot.clone());
                Ok(Some(snapshot))
            },
            Err(e) => Err(e),
        }
    }

    /// The creation of the validation record to ask of the DNS vendor for a
    /// challenge with the value `record` under the key `sub_domain`: the
    /// value goes into this domain's zone, under the key without the zone
    /// and the dot before it.
    pub fn validation_record(&self, record: &str, sub_domain: &str) -> (creation: Action)
        ensures
            creation@ == self@.validation_record(record@, sub_domain@),
            creation@ == (ActionView::AddRecord {
                value: record@,
                zone: self@.original_name,
                sub_domain: validation_sub_domain(sub_domain@, self@.original_name),
            }),
    {
        Action::AddRecord {
            value: String::from_str(record),
            zone: self.original_name.clone(),
            sub_domain: sub_domain_of(sub_domain, self.original_name.as_str()),
        }
    }

    /// Takes in what came of creating the validation record: an identifier
    /// is recorded with the status of a record that exists, an error leaves
    /// the record as it is and is handed on.
    pub fn add_dns_record(&mut self, added: Result<u64>) -> (record_id: Result<u64>)
        ensures
            id_result(record_id) == id_result(added),
            final(self)@ == match added {
                Ok(id) => DomainView {
                    dns_info: Some(DnsInfo { dns_status: 1, dns_record_id: Some(id) }),
                    ..old(self)@
                },
                Err(_) => old(self)@,
            },
    {
        match added {
            Ok(id) => {
                self.set_dns_info(DnsInfo { dns_status: 1, dns_record_id: Some(id) });
                Ok(id)
            },
            Err(e) => Err(e),
        }
    }

    /// Takes in what came of modifying the validation record: the
    /// identifier or the error, as it came.
    pub fn modify_dns_record(&self, modified: Result<u64>) -> (record_id: Result<u64>)
        ensures
            id_result(record_id) == id_result(modified),
    {
        modified
    }

    /// Takes in what came of deleting the validation record, `None` where no
    /// deletion was asked for. A domain without a known record has nothing
    /// to delete, which counts as done.
    pub fn delete_dns_record(&self, deleted: Option<Result<String>>) -> (request_id: Result<String>)
        ensures
            text_result(request_id) == match (self@.record_id(), deleted) {
                (Some(_), Some(outcome)) => text_result(outcome),
                _ => Ok(NOTHING_TO_DELETE@),
            },
    {
        match (self.record_id(), deleted) {
            (Some(_), Some(outcome)) => outcome,
            _ => Ok(String::from_str(NOTHING_TO_DELETE)),
        }
    }
}

} // verus!
