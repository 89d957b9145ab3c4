//! Automated renewal of TLS certificates for a fleet of domains: the
//! per-domain certificate lifecycle, the batch scheduler that drives many
//! lifecycles side by side, and the parsing and bookkeeping around them.

pub mod cdn;
pub mod cli;
pub mod config;
pub mod dns;
pub mod domain;
pub mod error;
pub mod lifecycle;
pub mod probe;
pub mod provider;
pub mod scheduler;
pub mod ssl;
pub mod text;

pub use error::{AppError, Result};
pub use probe::{is_domain_valid, parse_domains};

use crate::cdn::TencentCDN;
use crate::dns::TencentDNS;
use crate::error::ErrorView;
use crate::provider::{SettingsView, TENCENT};
use crate::ssl::TencentSSL;
use vstd::prelude::*;
use vstd::string::*;

verus! {

/// The error for a certificate authority that there is no adapter for.
pub const INVALID_SSL_PROVIDER: &'static str = "invalid ssl cloud provider";

/// The error for a DNS vendor that there is no adapter for.
pub const INVALID_DNS_PROVIDER: &'static str = "invalid dns cloud provider";

/// The error for a CDN vendor that there is no adapter for.
pub const INVALID_CDN_PROVIDER: &'static str = "invalid cdn cloud provider";

/// Whether there is an adapter for the vendor called `provider`.
pub fn is_supported(provider: &str) -> (supported: bool)
    ensures
        supported == (provider@ == TENCENT@),
{
    String::from_str(provider) == String::from_str(TENCENT)
}

/// The client of the certificate authority `provider` for the account with
/// this credential. A vendor without an adapter is a configuration error.
pub fn ssl_client(provider: &str, secret_id: &str, secret_key: &str) -> (client: Result<
    TencentSSL,
>)
    ensures
        match client {
            Ok(client) => provider@ == TENCENT@ && client.settings@ == SettingsView::standard(
                secret_id@,
                secret_key@,
            ),
            Err(e) => provider@ != TENCENT@ && e@ == ErrorView::ConfigError(INVALID_SSL_PROVIDER@),
        },
{
    if is_supported(provider) {
        Ok(TencentSSL::new(secret_id, secret_key))
    } else {
        Err(AppError::ConfigError(String::from_str(INVALID_SSL_PROVIDER)))
    }
}

/// The client of the DNS vendor `provider` for the account with this
/// credential. A vendor without an adapter is a configuration error.
pub fn dns_client(provider: &str, secret_id: &str, secret_key: &str) -> (client: Result<
    TencentDNS,
>)
    ensures
        match client {
            Ok(client) => provider@ == TENCENT@ && client.settings@ == SettingsView::standard(
                secret_id@,
                secret_key@,
            ),
            Err(e) => provider@ != TENCENT@ && e@ == ErrorView::ConfigError(INVALID_DNS_PROVIDER@),
        },
{
    if is_supported(provider) {
        Ok(TencentDNS::new(secret_id, secret_key))
    } else {
        Err(AppError::ConfigError(String::from_str(INVALID_DNS_PROVIDER)))
    }
}

/// The client of the CDN vendor `provider` for the account with this
/// credential. A vendor without an adapter is a configuration error.
pub fn cdn_client(provider: &str, secret_id: &str, secret_key: &str) -> (client: Result<
    TencentCDN,
>)
    ensures
        match client {
            Ok(client) => provider@ == TENCENT@ && client.settings@ == SettingsView::standard(
                secret_id@,
                secret_key@,
            ),
            Err(e) => provider@ != TENCENT@ && e@ == ErrorView::ConfigError(INVALID_CDN_PROVIDER@),
        },
{
    if is_supported(provider) {
        Ok(TencentCDN::new(secret_id, secret_key))
    } else {
        Err(AppError::ConfigError(String::from_str(INVALID_CDN_PROVIDER)))
    }
}

} // verus!
