use csu::error::AppError;
use csu::ssl::check::{certificate_info, days_until, CertificateFacts};
use csu::ssl::{check_ssl_certificate, CertificateInfo};

const NOT_BEFORE: i64 = 1735689600;
const NOT_AFTER: i64 = 1743465600;
const DAY: i64 = 86400;

fn certificate() -> Vec<u8> {
    vec![
        0x30, 0x81, 0xe0, 0x30, 0x81, 0x93, 0xa0, 0x03, 0x02, 0x01, 0x02, 0x02, 0x01, 0x01, 0x30, 0x05,
        0x06, 0x03, 0x2b, 0x65, 0x70, 0x30, 0x1a, 0x31, 0x18, 0x30, 0x16, 0x06, 0x03, 0x55, 0x04, 0x03,
        0x0c, 0x0f, 0x45, 0x78, 0x61, 0x6d, 0x70, 0x6c, 0x65, 0x20, 0x54, 0x65, 0x73, 0x74, 0x20, 0x43,
        0x41, 0x30, 0x1e, 0x17, 0x0d, 0x32, 0x35, 0x30, 0x31, 0x30, 0x31, 0x30, 0x30, 0x30, 0x30, 0x30,
        0x30, 0x5a, 0x17, 0x0d, 0x32, 0x35, 0x30, 0x34, 0x30, 0x31, 0x30, 0x30, 0x30, 0x30, 0x30, 0x30,
        0x5a, 0x30, 0x1a, 0x31, 0x18, 0x30, 0x16, 0x06, 0x03, 0x55, 0x04, 0x03, 0x0c, 0x0f, 0x61, 0x70,
        0x70, 0x2e, 0x65, 0x78, 0x61, 0x6d, 0x70, 0x6c, 0x65, 0x2e, 0x63, 0x6f, 0x6d, 0x30, 0x2a, 0x30,
        0x05, 0x06, 0x03, 0x2b, 0x65, 0x70, 0x03, 0x21, 0x00, 0x3e, 0x2c, 0x19, 0xc9, 0x89, 0x35, 0x2d,
        0x83, 0xf5, 0x48, 0xcd, 0x78, 0x9b, 0x17, 0x2c, 0xf8, 0xa7, 0xd2, 0xfa, 0xb8, 0x51, 0x10, 0x53,
        0x5c, 0x66, 0x51, 0x3c, 0x04, 0x26, 0xc5, 0x57, 0x40, 0x30, 0x05, 0x06, 0x03, 0x2b, 0x65, 0x70,
        0x03, 0x41, 0x00, 0x8f, 0x3d, 0x2c, 0xdf, 0xce, 0xa8, 0x63, 0xe3, 0x31, 0xe7, 0x9a, 0xcc, 0xe6,
        0x27, 0x8d, 0xa9, 0xb4, 0xc0, 0xf4, 0xdb, 0x44, 0x20, 0xea, 0x3a, 0xeb, 0x6a, 0x21, 0xae, 0x93,
        0x3e, 0xcf, 0x8a, 0x9f, 0xa3, 0x88, 0x89, 0xad, 0xe3, 0x08, 0xac, 0x08, 0xf8, 0x0d, 0xc7, 0x7f,
        0xe9, 0xac, 0xbc, 0x03, 0x8f, 0x96, 0x0d, 0xb9, 0xf5, 0x3f, 0x65, 0x2c, 0x1a, 0xe8, 0x1b, 0xa3,
        0xa4, 0x27, 0x08,
    ]
}

#[test]
fn served_certificate_is_reported() {
    let now = NOT_AFTER - 10 * DAY;
    let info = check_ssl_certificate("app.example.com", &certificate(), now, 0).unwrap();
    assert_eq!(
        info,
        CertificateInfo {
            domain: "app.example.com".to_string(),
            issuer: "CN=Example Test CA".to_string(),
            valid_from: NOT_BEFORE,
            valid_to: NOT_AFTER,
            days_remaining: 10,
        }
    );
    assert_eq!(info.days_remaining(), 10);
    assert!(!info.need_update());
}

#[test]
fn bytes_that_are_no_certificate_are_an_error() {
    let outcome = check_ssl_certificate("app.example.com", b"no certificate", 0, 0);
    match outcome {
        Err(AppError::Other(message)) => assert!(message.starts_with("解析证书失败: ")),
        other => panic!("unexpected outcome: {:?}", other),
    }
    let mut cut = certificate();
    cut.truncate(100);
    assert!(matches!(
        check_ssl_certificate("app.example.com", &cut, 0, 0),
        Err(AppError::Other(_))
    ));
}

#[test]
fn days_are_whole_days_rounded_toward_zero() {
    assert_eq!(days_until(3 * DAY, 0, 0), 3);
    assert_eq!(days_until(3 * DAY, 0, 1), 2);
    assert_eq!(days_until(3 * DAY + 1, 0, 1), 3);
    assert_eq!(days_until(3 * DAY - 1, 0, 0), 2);
    assert_eq!(days_until(DAY - 1, 0, 0), 0);
    assert_eq!(days_until(0, 0, 0), 0);
    assert_eq!(days_until(0, 0, 999_999_999), 0);
    assert_eq!(days_until(1, 0, 999_999_999), 0);
    assert_eq!(days_until(1000 + 90 * DAY, 1000, 0), 90);
}

#[test]
fn days_are_negative_after_expiry() {
    assert_eq!(days_until(0, DAY - 1, 0), 0);
    assert_eq!(days_until(0, DAY, 0), -1);
    assert_eq!(days_until(0, DAY, 5), -1);
    assert_eq!(days_until(0, 2 * DAY - 1, 999), -1);
    assert_eq!(days_until(-DAY, DAY, 0), -2);
}

#[test]
fn days_are_computed_for_every_instant() {
    assert_eq!(days_until(i64::MAX, i64::MIN, 0), 213503982334601);
    assert_eq!(days_until(i64::MIN, i64::MAX, 0), -213503982334601);
    assert_eq!(days_until(i64::MAX, i64::MAX, 7), 0);
}

#[test]
fn renewal_is_due_within_three_days() {
    let facts = |not_after: i64| CertificateFacts {
        issuer: "CN=Example Test CA".to_string(),
        not_before: 0,
        not_after,
    };
    let due = certificate_info("a.example.com", facts(3 * DAY), 0, 0);
    assert_eq!(due.days_remaining, 3);
    assert!(due.need_update());
    let not_yet = certificate_info("a.example.com", facts(4 * DAY), 0, 0);
    assert_eq!(not_yet.days_remaining, 4);
    assert!(!not_yet.need_update());
    let just = certificate_info("a.example.com", facts(4 * DAY), 0, 1);
    assert_eq!(just.days_remaining, 3);
    assert!(just.need_update());
    let expired = certificate_info("a.example.com", facts(0), 10 * DAY, 0);
    assert_eq!(expired.days_remaining, -10);
    assert!(expired.need_update());
    assert_eq!(expired.domain, "a.example.com");
    assert_eq!(expired.issuer, "CN=Example Test CA");
    assert_eq!(expired.valid_from, 0);
    assert_eq!(expired.valid_to, 0);
}
