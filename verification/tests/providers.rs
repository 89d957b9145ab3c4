use csu::cdn::TencentCDN;
use csu::dns::TencentDNS;
use csu::error::AppError;
use csu::provider::ClientSettings;
use csu::ssl::tencent::{CertificateDescription, DvAuthDetail};
use csu::ssl::{ApplyStatus, TencentSSL};
use csu::{cdn_client, dns_client, is_supported, ssl_client};

fn cloud_error(message: &str) -> AppError {
    AppError::CloudError(message.to_string())
}

fn described(status: Option<i32>, key: Option<&str>, value: Option<&str>) -> CertificateDescription {
    CertificateDescription {
        status,
        dv_auth_detail: Some(DvAuthDetail {
            dv_auth_key: key.map(|key| key.to_string()),
            dv_auth_value: value.map(|value| value.to_string()),
        }),
    }
}

fn status(id: &str, key: &str, value: &str, status: i32, can_download: bool) -> ApplyStatus {
    ApplyStatus {
        certificate_id: id.to_string(),
        dns_key: key.to_string(),
        dns_value: value.to_string(),
        status,
        can_download,
    }
}

fn standard(id: &str, key: &str) -> ClientSettings {
    ClientSettings {
        secret_id: id.to_string(),
        secret_key: key.to_string(),
        region: "ap-guangzhou".to_string(),
        max_retries: 3,
        retry_delay_ms: 200,
        no_system_proxy: true,
    }
}

#[test]
fn issued_certificate_can_be_downloaded() {
    let answer = Ok(described(Some(1), Some("k"), Some("v")));
    assert_eq!(TencentSSL::check_status("cert-1", answer), Ok(status("cert-1", "", "", 1, true)));
}

#[test]
fn certificate_under_validation_has_a_challenge() {
    let answer = Ok(described(Some(0), Some("_dnsauth.app.example.com"), Some("token")));
    assert_eq!(
        TencentSSL::check_status("cert-1", answer),
        Ok(status("cert-1", "_dnsauth.app.example.com", "token", 0, false))
    );
}

#[test]
fn challenge_wants_both_its_parts() {
    let expected = Ok(status("cert-1", "", "", 0, false));
    let answer = Ok(described(Some(0), Some("k"), None));
    assert_eq!(TencentSSL::check_status("cert-1", answer), expected);
    let answer = Ok(described(Some(0), None, Some("v")));
    assert_eq!(TencentSSL::check_status("cert-1", answer), expected);
    let answer = Ok(CertificateDescription { status: Some(0), dv_auth_detail: None });
    assert_eq!(TencentSSL::check_status("cert-1", answer), expected);
}

#[test]
fn other_status_is_reported_without_a_challenge() {
    let answer = Ok(described(Some(4), Some("k"), Some("v")));
    assert_eq!(TencentSSL::check_status("cert-1", answer), Ok(status("cert-1", "", "", 4, false)));
    let answer = Ok(described(Some(-1), None, None));
    assert_eq!(TencentSSL::check_status("cert-1", answer), Ok(status("cert-1", "", "", -1, false)));
}

#[test]
fn description_without_status_is_an_error() {
    let answer = Ok(described(None, Some("k"), Some("v")));
    assert_eq!(
        TencentSSL::check_status("cert-1", answer),
        Err(cloud_error("tencent cloud check ssl certificate status missing fields"))
    );
}

#[test]
fn failed_poll_says_why() {
    assert_eq!(
        TencentSSL::check_status("cert-1", Err("timeout".to_string())),
        Err(cloud_error("tencent cloud check ssl certificate status failed: timeout"))
    );
}

#[test]
fn answers_of_the_authority_want_their_content() {
    assert_eq!(TencentSSL::apply(Ok(Some("cert-1".to_string()))), Ok("cert-1".to_string()));
    assert_eq!(
        TencentSSL::apply(Ok(None)),
        Err(cloud_error("tencent cloud apply ssl certificate failed"))
    );
    assert_eq!(TencentSSL::apply(Err("denied".to_string())), Err(cloud_error("denied")));
    assert_eq!(TencentSSL::download(Ok(Some("UEs=".to_string()))), Ok("UEs=".to_string()));
    assert_eq!(
        TencentSSL::download(Ok(None)),
        Err(cloud_error("tencent cloud download ssl certificate failed"))
    );
    assert_eq!(TencentSSL::download(Err("denied".to_string())), Err(cloud_error("denied")));
    assert_eq!(TencentSSL::upload(Ok(Some("up-1".to_string()))), Ok("up-1".to_string()));
    assert_eq!(
        TencentSSL::upload(Ok(None)),
        Err(cloud_error("tencent cloud upload ssl certificate failed"))
    );
    assert_eq!(TencentSSL::upload(Err("denied".to_string())), Err(cloud_error("denied")));
}

#[test]
fn answers_of_the_dns_vendor_want_their_identifier() {
    assert_eq!(TencentDNS::add_record(Ok(Some(7))), Ok(7));
    assert_eq!(
        TencentDNS::add_record(Ok(None)),
        Err(cloud_error("tencent cloud add dns record failed"))
    );
    assert_eq!(TencentDNS::add_record(Err("denied".to_string())), Err(cloud_error("denied")));
    assert_eq!(TencentDNS::modify_record(Ok(Some(8))), Ok(8));
    assert_eq!(
        TencentDNS::modify_record(Ok(None)),
        Err(cloud_error("tencent cloud modify dns record failed"))
    );
    assert_eq!(TencentDNS::modify_record(Err("denied".to_string())), Err(cloud_error("denied")));
    assert_eq!(TencentDNS::delete_record(Ok("request".to_string())), Ok("request".to_string()));
    assert_eq!(TencentDNS::delete_record(Err("denied".to_string())), Err(cloud_error("denied")));
    assert_eq!(TencentDNS::record_id(Ok(vec![5, 6])), Ok(5));
    assert_eq!(
        TencentDNS::record_id(Ok(Vec::new())),
        Err(AppError::NotFound("no dns record".to_string()))
    );
    assert_eq!(TencentDNS::record_id(Err("denied".to_string())), Err(cloud_error("denied")));
}

#[test]
fn answer_of_the_cdn_is_the_confirmation() {
    assert_eq!(TencentCDN::update_ssl(Ok("request".to_string())), Ok("request".to_string()));
    assert_eq!(
        TencentCDN::update_ssl(Err("denied".to_string())),
        Err(cloud_error("tencent cloud download ssl certificate failed:denied"))
    );
}

#[test]
fn clients_are_set_up_alike() {
    assert_eq!(ClientSettings::standard("id", "key"), standard("id", "key"));
    assert_eq!(TencentSSL::new("id", "key").settings, standard("id", "key"));
    assert_eq!(TencentDNS::new("id", "key").settings, standard("id", "key"));
    assert_eq!(TencentCDN::new("id", "key").settings, standard("id", "key"));
}

#[test]
fn clients_are_made_for_the_vendor_there_is() {
    assert!(is_supported("tencent"));
    assert!(!is_supported("Tencent"));
    assert!(!is_supported(""));
    assert_eq!(ssl_client("tencent", "id", "key").unwrap().settings, standard("id", "key"));
    assert_eq!(dns_client("tencent", "id", "key").unwrap().settings, standard("id", "key"));
    assert_eq!(cdn_client("tencent", "id", "key").unwrap().settings, standard("id", "key"));
}

#[test]
fn unknown_vendor_is_a_config_error() {
    assert_eq!(
        ssl_client("aliyun", "id", "key"),
        Err(AppError::ConfigError("invalid ssl cloud provider".to_string()))
    );
    assert_eq!(
        dns_client("aliyun", "id", "key"),
        Err(AppError::ConfigError("invalid dns cloud provider".to_string()))
    );
    assert_eq!(
        cdn_client("", "id", "key"),
        Err(AppError::ConfigError("invalid cdn cloud provider".to_string()))
    );
}
