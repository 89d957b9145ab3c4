use csu::domain::{parent_zone, CloudProvider, DnsInfo, Domain};
use csu::error::AppError;
use csu::lifecycle::Action;
use csu::provider::ClientSettings;
use csu::ssl::ApplyStatus;

fn account(name: &str, id: &str, key: &str) -> CloudProvider {
    CloudProvider { name: name.to_string(), secret_id: id.to_string(), secret_key: key.to_string() }
}

fn record() -> Domain {
    Domain::new(
        "app.example.com".to_string(),
        account("tencent", "ssl-id", "ssl-key"),
        account("tencent", "cdn-id", "cdn-key"),
        account("tencent", "dns-id", "dns-key"),
    )
}

fn cloud_error(message: &str) -> AppError {
    AppError::CloudError(message.to_string())
}

#[test]
fn new_record_lies_in_the_zone_above_its_name() {
    let domain = record();
    assert_eq!(domain.name(), "app.example.com");
    assert_eq!(domain.original_name(), "example.com");
    assert_eq!(domain.ssl_info, None);
    assert_eq!(domain.dns_info, None);
    assert_eq!(domain.certificate_info, None);
    assert_eq!(domain.ssl_certificate_id(), None);
}

#[test]
fn parent_zone_drops_the_leftmost_label() {
    assert_eq!(parent_zone("app.example.com"), "example.com");
    assert_eq!(parent_zone("a.b.c.example.com"), "b.c.example.com");
    assert_eq!(parent_zone("example.com"), "com");
    assert_eq!(parent_zone("localhost"), "");
    assert_eq!(parent_zone(""), "");
    assert_eq!(parent_zone("trailing."), "");
    assert_eq!(parent_zone(".leading"), "leading");
    assert_eq!(parent_zone("bücher.example.de"), "example.de");
}

#[test]
fn direct_update_wants_the_same_account() {
    let mut domain = record();
    assert!(!domain.can_direct_update_ssl());
    domain.cdn_provider = account("tencent", "ssl-id", "ssl-key");
    assert!(domain.can_direct_update_ssl());
    domain.cdn_provider = account("tencent", "ssl-id", "other-key");
    assert!(!domain.can_direct_update_ssl());
    domain.cdn_provider = account("tencent", "other-id", "ssl-key");
    assert!(!domain.can_direct_update_ssl());
    domain.cdn_provider = account("other", "ssl-id", "ssl-key");
    assert!(!domain.can_direct_update_ssl());
}

#[test]
fn dns_status_is_unknown_without_information() {
    let mut domain = record();
    assert_eq!(domain.dns_status(), 255);
    assert!(domain.lacks_record());
    assert_eq!(domain.record_id(), None);
    domain.set_dns_info(DnsInfo { dns_status: 0, dns_record_id: None });
    assert_eq!(domain.dns_status(), 0);
    assert!(domain.lacks_record());
    domain.set_dns_info(DnsInfo { dns_status: 1, dns_record_id: Some(9) });
    assert_eq!(domain.dns_status(), 1);
    assert!(!domain.lacks_record());
    assert_eq!(domain.record_id(), Some(9));
}

#[test]
fn application_is_recorded() {
    let mut domain = record();
    assert_eq!(domain.apply_ssl(Err(cloud_error("rejected"))), Err(cloud_error("rejected")));
    assert_eq!(domain, record());
    assert_eq!(domain.apply_ssl(Ok("cert-1".to_string())), Ok(()));
    assert_eq!(domain.ssl_certificate_id(), Some("cert-1".to_string()));
    assert_eq!(
        domain.ssl_info,
        Some(ApplyStatus {
            certificate_id: "cert-1".to_string(),
            dns_key: String::new(),
            dns_value: String::new(),
            status: 0,
            can_download: false,
        })
    );
}

#[test]
fn status_is_recorded_once_there_is_a_request() {
    let snapshot = ApplyStatus {
        certificate_id: "cert-1".to_string(),
        dns_key: "k".to_string(),
        dns_value: "v".to_string(),
        status: 0,
        can_download: false,
    };
    let mut domain = record();
    assert_eq!(domain.check_ssl_status(Ok(snapshot.clone())), Ok(None));
    assert_eq!(domain, record());
    domain.set_ssl_info(ApplyStatus::requested("cert-1".to_string()));
    let requested = domain.clone();
    assert_eq!(domain.check_ssl_status(Err(cloud_error("down"))), Err(cloud_error("down")));
    assert_eq!(domain, requested);
    assert_eq!(domain.check_ssl_status(Ok(snapshot.clone())), Ok(Some(snapshot.clone())));
    assert_eq!(domain.ssl_info, Some(snapshot));
}

#[test]
fn validation_record_is_recorded() {
    let mut domain = record();
    assert_eq!(domain.add_dns_record(Err(cloud_error("no"))), Err(cloud_error("no")));
    assert_eq!(domain.dns_info, None);
    assert_eq!(domain.add_dns_record(Ok(12)), Ok(12));
    assert_eq!(domain.dns_info, Some(DnsInfo { dns_status: 1, dns_record_id: Some(12) }));
    assert_eq!(domain.modify_dns_record(Ok(13)), Ok(13));
    assert_eq!(domain.modify_dns_record(Err(cloud_error("no"))), Err(cloud_error("no")));
}

#[test]
fn deletion_without_a_record_is_done() {
    let mut domain = record();
    assert_eq!(domain.delete_dns_record(None), Ok("ok".to_string()));
    assert_eq!(domain.delete_dns_record(Some(Err(cloud_error("no")))), Ok("ok".to_string()));
    domain.set_dns_info(DnsInfo { dns_status: 1, dns_record_id: Some(12) });
    assert_eq!(domain.delete_dns_record(Some(Ok("request".to_string()))), Ok("request".to_string()));
    assert_eq!(domain.delete_dns_record(Some(Err(cloud_error("no")))), Err(cloud_error("no")));
    assert_eq!(domain.delete_dns_record(None), Ok("ok".to_string()));
}

#[test]
fn clients_of_a_domain_use_its_accounts() {
    let domain = record();
    let settings = |id: &str, key: &str| ClientSettings::standard(id, key);
    assert_eq!(domain.ssl_client().unwrap().settings, settings("ssl-id", "ssl-key"));
    assert_eq!(domain.dns_client().unwrap().settings, settings("dns-id", "dns-key"));
    assert_eq!(domain.cdn_client().unwrap().settings, settings("cdn-id", "cdn-key"));
    let mut foreign = record();
    foreign.dns_provider = account("aliyun", "id", "key");
    assert_eq!(
        foreign.dns_client(),
        Err(AppError::ConfigError("invalid dns cloud provider".to_string()))
    );
    assert!(foreign.ssl_client().is_ok());
}

#[test]
fn errors_are_described_by_kind_and_message() {
    let message = || "m".to_string();
    assert_eq!(AppError::ConfigError(message()).describe(), "Config Error: m");
    assert_eq!(AppError::CloudError(message()).describe(), "Cloud API Error: m");
    assert_eq!(AppError::HttpError(message()).describe(), "HTTP Error: m");
    assert_eq!(AppError::JsonError(message()).describe(), "JSON Error: m");
    assert_eq!(AppError::IoError(message()).describe(), "Io Error: m");
    assert_eq!(AppError::ParseError(message()).describe(), "Parse Error: m");
    assert_eq!(AppError::NotFound(message()).describe(), "Not Found: m");
    assert_eq!(AppError::Cancelled.describe(), "Cancelled");
    assert_eq!(AppError::Other(message()).describe(), "Other Error: m");
    assert_eq!(AppError::Other(message()).clone(), AppError::Other(message()));
}

#[test]
fn validation_record_goes_under_the_key_without_the_zone() {
    let mut domain = record();
    assert_eq!(domain.original_name, "example.com");
    assert_eq!(
        domain.validation_record("tok", "_dnsauth.app.example.com"),
        Action::AddRecord {
            value: "tok".to_string(),
            zone: "example.com".to_string(),
            sub_domain: "_dnsauth.app".to_string(),
        }
    );
    assert_eq!(domain.add_dns_record(Ok(7)), Ok(7));
    assert_eq!(domain.record_id(), Some(7));
    assert_eq!(
        domain.validation_record("tok", "_dnsauth.example.com"),
        Action::AddRecord {
            value: "tok".to_string(),
            zone: "example.com".to_string(),
            sub_domain: "_dnsauth".to_string(),
        }
    );
    assert_eq!(
        domain.validation_record("", "elsewhere.example.org"),
        Action::AddRecord {
            value: String::new(),
            zone: "example.com".to_string(),
            sub_domain: "elsewhere.example.org".to_string(),
        }
    );
}
