use csu::domain::{CloudProvider, Domain};
use csu::probe::{blank, probe_url, white_space};
use csu::{is_domain_valid, parse_domains};

fn account() -> CloudProvider {
    CloudProvider {
        name: "tencent".to_string(),
        secret_id: "id".to_string(),
        secret_key: "key".to_string(),
    }
}

fn named(name: &str) -> Domain {
    Domain::new(name.to_string(), account(), account(), account())
}

fn names(domains: &[Domain]) -> Vec<String> {
    domains.iter().map(|domain| domain.name.clone()).collect()
}

#[test]
fn domain_is_alive_unless_nothing_is_there() {
    assert!(is_domain_valid("app.example.com", Some(200)));
    assert!(is_domain_valid("app.example.com", Some(301)));
    assert!(is_domain_valid("app.example.com", Some(403)));
    assert!(is_domain_valid("app.example.com", Some(500)));
    assert!(!is_domain_valid("app.example.com", Some(404)));
    assert!(!is_domain_valid("app.example.com", None));
}

#[test]
fn domain_that_makes_no_url_is_not_alive() {
    assert_eq!(probe_url("app.example.com"), Some("https://app.example.com".to_string()));
    assert_eq!(probe_url("app example.com"), None);
    assert_eq!(probe_url(""), None);
    assert!(!is_domain_valid("app example.com", Some(200)));
    assert!(!is_domain_valid("", Some(200)));
}

#[test]
fn blank_is_nothing_but_white_space() {
    assert!(blank(""));
    assert!(blank("   "));
    assert!(blank(" \t\r\n"));
    assert!(blank("\u{a0}\u{3000}\u{2003}\u{85}"));
    assert!(!blank("a"));
    assert!(!blank("  a  "));
    assert!(!blank("\u{200b}"));
}

#[test]
fn white_space_is_what_std_calls_so() {
    let mut code = 0u32;
    while code < 0x3100 {
        if let Some(c) = char::from_u32(code) {
            assert_eq!(white_space(c), c.is_whitespace(), "U+{:04X}", code);
        }
        code += 1;
    }
    assert!(!white_space('\u{feff}'));
    assert!(!white_space('\u{10ffff}'));
}

#[test]
fn liveness_filter_keeps_the_domains_that_answered() {
    let probed = vec![
        (named("c.example.com"), Some(200)),
        (named("  "), Some(200)),
        (named("a.example.com"), Some(404)),
        (named("b.example.com"), None),
        (named("d.example.com"), Some(503)),
    ];
    let kept = parse_domains(probed).unwrap();
    assert_eq!(names(&kept), vec!["c.example.com", "d.example.com"]);
}

#[test]
fn liveness_filter_has_no_batch_without_names() {
    assert_eq!(parse_domains(Vec::new()), None);
    assert_eq!(parse_domains(vec![(named(""), Some(200)), (named(" \t"), Some(200))]), None);
}

#[test]
fn liveness_filter_may_keep_nothing() {
    assert_eq!(parse_domains(vec![(named("a.example.com"), Some(404))]), Some(Vec::new()));
}
