//! What a served certificate says about its own validity.

use crate::error::{AppError, Result};
use vstd::prelude::*;
use vstd::string::*;

verus! {

/// The error of the x509-parser crate, carried as it comes.
#[verifier::external_type_specification]
#[verifier::external_body]
pub struct ExX509Error(x509_parser::error::X509Error);

/// The failure of a nom parser, as x509-parser hands it on with its own
/// error inside.
#[verifier::external_type_specification]
#[verifier::external_body]
#[verifier::reject_recursive_types(E)]
pub struct ExParseFailure<E>(x509_parser::nom::Err<E>);

/// Seconds in a day.
pub const SECONDS_PER_DAY: i64 = 86400;

/// What introduces the error for bytes that are no certificate.
pub const NOT_A_CERTIFICATE: &'static str = "解析证书失败: ";

/// What a certificate says of itself, as far as the updater reads it: who
/// issued it, and the first and the last second of its validity, in seconds
/// since the Unix epoch.
#[derive(Debug, PartialEq, Eq)]
pub struct CertificateFacts {
    pub issuer: String,
    pub not_before: i64,
    pub not_after: i64,
}

/// The mathematical value of [`CertificateFacts`].
pub struct FactsView {
    pub issuer: Seq<char>,
    pub not_before: i64,
    pub not_after: i64,
}

impl View for CertificateFacts {
    type V = FactsView;

    open spec fn view(&self) -> FactsView {
        FactsView {
            issuer: self.issuer@,
            not_before: self.not_before,
            not_after: self.not_after,
        }
    }
}

/// What an X.509 parser reads in DER bytes: `None` where they are no
/// certificate.
pub uninterp spec fn certificate_facts(der: Seq<u8>) -> Option<FactsView>;

/// `parse_x509_certificate` of the x509-parser crate, and of the certificate
/// it returns the issuer as text and the two ends of the validity as Unix
/// timestamps. Trusted: whether the bytes are accepted and what is read in
/// them depend on the bytes alone, and [`certificate_facts`] is the name of
/// both.
#[verifier::external_body]
fn read_certificate(der: &[u8]) -> (facts: std::result::Result<
    CertificateFacts,
    x509_parser::nom::Err<x509_parser::error::X509Error>,
>)
    ensures
        match facts {
            Ok(read) => certificate_facts(der@) == Some(read@),
            Err(_) => certificate_facts(der@) is None,
        },
{
    let (_, certificate) = x509_parser::parse_x509_certificate(der)?;
    Ok(
        CertificateFacts {
            issuer: certificate.issuer().to_string(),
            not_before: certificate.validity().not_before.timestamp(),
            not_after: certificate.validity().not_after.timestamp(),
        },
    )
}

/// A certificate is due for renewal when no more than this many whole days
/// of validity remain.
pub const RENEWAL_THRESHOLD_DAYS: i64 = 3;

/// The certificate a domain currently serves. Instants are seconds since the
/// Unix epoch, in UTC.
#[derive(Debug, PartialEq, Eq)]
pub struct CertificateInfo {
    pub domain: String,
    pub issuer: String,
    pub valid_from: i64,
    pub valid_to: i64,
    pub days_remaining: i64,
}

/// The mathematical value of a [`CertificateInfo`].
pub struct CertificateInfoView {
    pub domain: Seq<char>,
    pub issuer: Seq<char>,
    pub valid_from: i64,
    pub valid_to: i64,
    pub days_remaining: i64,
}

impl CertificateInfoView {
    /// Whether the certificate is within the renewal threshold.
    pub open spec fn need_update(self) -> bool {
        self.days_remaining <= RENEWAL_THRESHOLD_DAYS
    }
}

impl View for CertificateInfo {
    type V = CertificateInfoView;

    open spec fn view(&self) -> CertificateInfoView {
        CertificateInfoView {
            domain: self.domain@,
            issuer: self.issuer@,
            valid_from: self.valid_from,
            valid_to: self.valid_to,
            days_remaining: self.days_remaining,
        }
    }
}

impl Clone for CertificateInfo {
    fn clone(&self) -> (copy: CertificateInfo)
        ensures
            copy@ == self@,
    {
        CertificateInfo {
            domain: self.domain.clone(),
            issuer: self.issuer.clone(),
            valid_from: self.valid_from,
            valid_to: self.valid_to,
            days_remaining: self.days_remaining,
        }
    }
}

impl CertificateInfo {
    /// Whole days of validity left.
    pub fn days_remaining(&self) -> (days: i64)
        ensures
            days == self@.days_remaining,
    {
        self.days_remaining
    }

    /// Whether the certificate is within the renewal threshold.
    pub fn need_update(&self) -> (due: bool)
        ensures
            due == self@.need_update(),
    {
        self.days_remaining <= RENEWAL_THRESHOLD_DAYS
    }
}

/// The quotient of `n` by a positive `d`, rounded toward zero.
pub open spec fn toward_zero(n: int, d: int) -> int
    recommends
        d > 0,
{
    if n >= 0 {
        n / d
    } else {
        -((-n) / d)
    }
}

/// The whole seconds from the instant `now_secs` seconds and `now_nanos`
/// nanoseconds after the epoch to the full second `valid_to`, rounded toward
/// zero.
pub open spec fn seconds_left(valid_to: int, now_secs: int, now_nanos: int) -> int {
    if now_nanos > 0 && valid_to - now_secs >= 1 {
        valid_to - now_secs - 1
    } else {
        valid_to - now_secs
    }
}

/// The whole days of validity left at an instant: the whole seconds left,
/// in days, rounded toward zero. Negative once the certificate has expired
/// for a day or more.
pub open spec fn days_left(valid_to: int, now_secs: int, now_nanos: int) -> int {
    toward_zero(seconds_left(valid_to, now_secs, now_nanos), SECONDS_PER_DAY as int)
}

/// The whole days from now to the second `valid_to`, where now is
/// `now_secs` seconds and `now_nanos` nanoseconds after the epoch.
pub fn days_until(valid_to: i64, now_secs: i64, now_nanos: u32) -> (days: i64)
    ensures
        days == days_left(valid_to as int, now_secs as int, now_nanos as int),
{
    let whole: i128 = valid_to as i128 - now_secs as i128;
    let seconds: i128 = if now_nanos > 0 && whole >= 1 {
        whole - 1
    } else {
        whole
    };
    let day: i128 = SECONDS_PER_DAY as i128;
    if seconds >= 0 {
        (seconds / day) as i64
    } else {
        (-((-seconds) / day)) as i64
    }
}

impl FactsView {
    /// The report on a certificate with these facts that `domain` serves at
    /// the given instant.
    pub open spec fn report(self, domain: Seq<char>, now_secs: i64, now_nanos: u32) -> CertificateInfoView {
        CertificateInfoView {
            domain,
            issuer: self.issuer,
            valid_from: self.not_before,
            valid_to: self.not_after,
            days_remaining: days_left(
                self.not_after as int,
                now_secs as int,
                now_nanos as int,
            ) as i64,
        }
    }
}

/// The report on the certificate with these facts that `domain` serves, at
/// the instant `now_secs` seconds and `now_nanos` nanoseconds after the
/// epoch.
pub fn certificate_info(domain: &str, facts: CertificateFacts, now_secs: i64, now_nanos: u32) -> (info:
    CertificateInfo)
    ensures
        info@ == facts@.report(domain@, now_secs, now_nanos),
        info@.days_remaining == days_left(
            facts.not_after as int,
            now_secs as int,
            now_nanos as int,
        ),
{
    CertificateInfo {
        domain: String::from_str(domain),
        days_remaining: days_until(facts.not_after, now_secs, now_nanos),
        valid_from: facts.not_before,
        valid_to: facts.not_after,
        issuer: facts.issuer,
    }
}

/// Reads the certificate that `domain` serves, given in DER, and reports on
/// it at the instant `now_secs` seconds and `now_nanos` nanoseconds after
/// the epoch. Bytes that are no certificate are an error.
pub fn check_ssl_certificate(domain: &str, der: &[u8], now_secs: i64, now_nanos: u32) -> (info:
    Result<CertificateInfo>)
    ensures
        match info {
            Ok(info) => certificate_facts(der@) matches Some(facts) && info@ == facts.report(
                domain@,
                now_secs,
                now_nanos,
            ),
            Err(e) => certificate_facts(der@) is None && e@ is Other,
        },
{
    match read_certificate(der) {
        Ok(facts) => Ok(certificate_info(domain, facts, now_secs, now_nanos)),
        Err(e) => Err(
            AppError::Other(String::from_str(NOT_A_CERTIFICATE).concat(e.to_string().as_str())),
        ),
    }
}

} // verus!
