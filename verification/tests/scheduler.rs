use csu::cli::args::Commands;
use csu::cli::command::{
    apply_ssl_certificate, check_ssl_remin_days, domains_to_update, due_for_update,
    update_ssl_certificate,
};
use csu::domain::{CloudProvider, Domain};
use csu::error::AppError;
use csu::lifecycle::{Action, Event, Stage};
use csu::scheduler::{Batch, Outcome};
use csu::ssl::{ApplyStatus, CertificateInfo};

fn account(id: &str) -> CloudProvider {
    CloudProvider {
        name: "tencent".to_string(),
        secret_id: id.to_string(),
        secret_key: "key".to_string(),
    }
}

fn named(name: &str) -> Domain {
    Domain::new(name.to_string(), account("one"), account("one"), account("one"))
}

fn ready(id: &str) -> ApplyStatus {
    ApplyStatus {
        certificate_id: id.to_string(),
        dns_key: String::new(),
        dns_value: String::new(),
        status: 1,
        can_download: true,
    }
}

fn info(domain: &str, days: i64) -> CertificateInfo {
    CertificateInfo {
        domain: domain.to_string(),
        issuer: "CN=Example Test CA".to_string(),
        valid_from: 0,
        valid_to: 86400 * 90,
        days_remaining: days,
    }
}

fn names(domains: &[Domain]) -> Vec<String> {
    domains.iter().map(|domain| domain.name.clone()).collect()
}

#[test]
fn one_failing_domain_does_not_stop_the_others() {
    let domains = vec![named("a.example.com"), named("b.example.com"), named("c.example.com")];
    let (mut batch, first) = update_ssl_certificate(&domains);
    assert_eq!(batch.len(), 3);
    assert_eq!(batch.concurrency(), 3);
    assert_eq!(first.len(), 3);
    assert!(first.iter().all(|action| matches!(action, Action::Apply { .. })));

    batch.step(2, Event::Applied(Ok("cert-c".to_string())));
    batch.step(1, Event::Applied(Err(AppError::CloudError("quota exceeded".to_string()))));
    batch.step(0, Event::Applied(Ok("cert-a".to_string())));
    assert!(!batch.is_finished());
    batch.step(0, Event::Status(Ok(ready("cert-a"))));
    batch.step(2, Event::Status(Ok(ready("cert-c"))));
    batch.step(2, Event::Bound(Ok("r".to_string())));
    assert!(!batch.is_finished());
    assert_eq!(batch.step(0, Event::Bound(Ok("r".to_string()))), Action::Finish);
    assert!(batch.is_finished());

    assert_eq!(
        batch.report(),
        vec![
            Outcome { name: "a.example.com".to_string(), result: Some(Ok(())) },
            Outcome {
                name: "b.example.com".to_string(),
                result: Some(Err(AppError::CloudError("quota exceeded".to_string()))),
            },
            Outcome { name: "c.example.com".to_string(), result: Some(Ok(())) },
        ]
    );
}

#[test]
fn step_changes_only_the_lifecycle_it_names() {
    let domains = vec![named("a.example.com"), named("b.example.com")];
    let (mut batch, _) = Batch::start(&domains);
    let before = format!("{:?}", batch.lifecycles[1]);
    batch.step(0, Event::Applied(Ok("cert-a".to_string())));
    assert_eq!(batch.lifecycles[0].stage, Stage::FirstPoll);
    assert_eq!(format!("{:?}", batch.lifecycles[1]), before);
}

#[test]
fn step_outside_the_batch_changes_nothing() {
    let domains = vec![named("a.example.com")];
    let (mut batch, _) = Batch::start(&domains);
    let before = format!("{:?}", batch);
    assert_eq!(batch.step(1, Event::Waited), Action::Finish);
    assert_eq!(format!("{:?}", batch), before);
}

#[test]
fn report_names_domains_that_are_under_way() {
    let domains = vec![named("a.example.com")];
    let (batch, _) = Batch::start(&domains);
    assert_eq!(batch.report(), vec![Outcome { name: "a.example.com".to_string(), result: None }]);
}

#[test]
fn empty_batch_is_finished() {
    let (batch, first) = Batch::start(&Vec::new());
    assert!(first.is_empty());
    assert!(batch.is_finished());
    assert!(batch.report().is_empty());
    assert_eq!(batch.concurrency(), 0);
}

#[test]
fn expiry_check_keeps_the_domains_that_answered() {
    let probed = vec![
        (named("b.example.com"), Ok(info("b.example.com", 10))),
        (named("a.example.com"), Err(AppError::HttpError("refused".to_string()))),
        (named("c.example.com"), Ok(info("c.example.com", 2))),
    ];
    let kept = check_ssl_remin_days(probed).unwrap();
    assert_eq!(names(&kept), vec!["b.example.com", "c.example.com"]);
    assert_eq!(kept[0].certificate_info, Some(info("b.example.com", 10)));
    assert_eq!(kept[1].certificate_info, Some(info("c.example.com", 2)));
    assert_eq!(check_ssl_remin_days(Vec::new()), Ok(Vec::new()));
}

#[test]
fn application_keeps_the_domains_that_were_accepted() {
    let issued = vec![
        (named("a.example.com"), Err(AppError::CloudError("rejected".to_string()))),
        (named("b.example.com"), Ok("cert-b".to_string())),
    ];
    let kept = apply_ssl_certificate(issued).unwrap();
    assert_eq!(names(&kept), vec!["b.example.com"]);
    assert_eq!(
        kept[0].ssl_info,
        Some(ApplyStatus {
            certificate_id: "cert-b".to_string(),
            dns_key: String::new(),
            dns_value: String::new(),
            status: 0,
            can_download: false,
        })
    );
}

#[test]
fn update_runs_for_the_domains_that_are_due() {
    let mut soon = named("soon.example.com");
    soon.certificate_info = Some(info("soon.example.com", 3));
    let mut later = named("later.example.com");
    later.certificate_info = Some(info("later.example.com", 4));
    let mut expired = named("expired.example.com");
    expired.certificate_info = Some(info("expired.example.com", -2));
    let unknown = named("unknown.example.com");
    let checked = vec![soon, later, expired, unknown];
    assert_eq!(
        names(&due_for_update(checked.clone())),
        vec!["soon.example.com", "expired.example.com", "unknown.example.com"]
    );
    let listed = vec![named("x.example.com"), named("later.example.com")];
    assert_eq!(
        names(&domains_to_update(Commands::Update, listed.clone(), checked.clone())),
        vec!["soon.example.com", "expired.example.com", "unknown.example.com"]
    );
    assert_eq!(
        names(&domains_to_update(Commands::ForceUpdate, listed.clone(), checked.clone())),
        vec!["x.example.com", "later.example.com"]
    );
    assert!(domains_to_update(Commands::Check, listed.clone(), checked.clone()).is_empty());
    assert!(domains_to_update(Commands::Version, listed, checked).is_empty());
}

#[test]
fn commands_say_what_they_do() {
    assert!(Commands::Check.checks_expiry() && !Commands::Check.updates());
    assert!(Commands::Update.checks_expiry() && Commands::Update.updates());
    assert!(!Commands::ForceUpdate.checks_expiry() && Commands::ForceUpdate.updates());
    assert!(!Commands::Version.checks_expiry() && !Commands::Version.updates());
}
