//! What the commands do to a batch of domains once the providers have
//! answered.
//!
//! Two policies gather the outcomes of a batch. The quick, read-only
//! operations keep the domains that succeeded and drop the others without a
//! word in the result: what they gather feeds a table. The long-running
//! update keeps every domain and reports the error of each that failed.

use crate::cli::args::Commands;
use crate::domain::{domain_views, Domain, DomainView};
use crate::error::Result;
use crate::lifecycle::machine::Action;
use crate::lifecycle::model::{LifecycleView, POLL_INTERVAL_SECS};
use crate::scheduler::Batch;
use crate::ssl::check::CertificateInfo;
use crate::ssl::{ApplyStatus, StatusView};
use vstd::prelude::*;

verus! {

/// The domains whose certificate could be read, each with what was read, in
/// the order given. The others are dropped.
pub open spec fn checked(probed: Seq<(Domain, Result<CertificateInfo>)>) -> Seq<DomainView>
    decreases probed.len(),
{
    if probed.len() == 0 {
        Seq::empty()
    } else {
        let before = checked(probed.drop_last());
        match probed.last().1 {
            Ok(info) => before.push(
                DomainView { certificate_info: Some(info@), ..probed.last().0@ },
            ),
            Err(_) => before,
        }
    }
}

/// A domain whose certificate was read, with what was read.
pub open spec fn read_domain(entry: (Domain, Result<CertificateInfo>)) -> DomainView
    recommends
        entry.1 is Ok,
{
    DomainView { certificate_info: Some(entry.1->Ok_0@), ..entry.0@ }
}

/// The gathering of an expiry check keeps exactly the successes: every kept
/// domain is one that was read, with what was read, and every domain that
/// was read is kept.
pub proof fn law_expiry_check_keeps_the_successes(probed: Seq<(Domain, Result<CertificateInfo>)>)
    ensures
        checked(probed).len() <= probed.len(),
        forall|k: int|
            0 <= k < checked(probed).len() ==> exists|i: int|
                0 <= i < probed.len() && (#[trigger] probed[i]).1 is Ok && #[trigger] checked(
                    probed,
                )[k] == read_domain(probed[i]),
        forall|i: int|
            0 <= i < probed.len() && (#[trigger] probed[i]).1 is Ok ==> exists|k: int|
                0 <= k < checked(probed).len() && #[trigger] checked(probed)[k] == read_domain(
                    probed[i],
                ),
    decreases probed.len(),
{
    if probed.len() > 0 {
        let before = probed.drop_last();
        let last = probed.len() - 1;
        law_expiry_check_keeps_the_successes(before);
        assert forall|k: int| 0 <= k < checked(probed).len() implies exists|i: int|
            0 <= i < probed.len() && (#[trigger] probed[i]).1 is Ok && #[trigger] checked(
                probed,
            )[k] == read_domain(probed[i]) by {
            if k < checked(before).len() {
                assert(checked(probed)[k] == checked(before)[k]);
                let i = choose|i: int|
                    0 <= i < before.len() && (#[trigger] before[i]).1 is Ok && #[trigger] checked(
                        before,
                    )[k] == read_domain(before[i]);
                assert(probed[i] == before[i]);
            } else {
                assert(probed[last].1 is Ok);
                assert(checked(probed)[k] == read_domain(probed[last]));
            }
        }
        assert forall|i: int| 0 <= i < probed.len() && (#[trigger] probed[i]).1 is Ok implies exists|
            k: int,
        |
            0 <= k < checked(probed).len() && #[trigger] checked(probed)[k] == read_domain(
                probed[i],
            ) by {
            if i < last {
                assert(before[i] == probed[i]);
                let k = choose|k: int|
                    0 <= k < checked(before).len() && #[trigger] checked(before)[k] == read_domain(
                        before[i],
                    );
                assert(checked(probed)[k] == checked(before)[k]);
            } else {
                let k = checked(before).len() as int;
                assert(checked(probed)[k] == read_domain(probed[i]));
            }
        }
    }
}

/// Gathers the expiry check of a batch: each domain with the outcome of
/// reading the certificate it serves, in the order in which the outcomes
/// arrived. A domain whose certificate was read is kept, with what was read;
/// a domain whose check failed is dropped.
pub fn check_ssl_remin_days(probed: Vec<(Domain, Result<CertificateInfo>)>) -> (kept: Result<
    Vec<Domain>,
>)
    ensures
        kept matches Ok(domains) && domain_views(domains@) == checked(probed@),
{
    let mut domains: Vec<Domain> = Vec::new();
    let mut i: usize = 0;
    proof {
        assert(probed@.take(0) =~= Seq::empty());
        assert(domain_views(domains@) =~= Seq::empty());
    }
    while i < probed.len()
        invariant
            i <= probed.len(),
            domain_views(domains@) == checked(probed@.take(i as int)),
        decreases probed.len() - i,
    {
        let ghost before = domain_views(domains@);
        proof {
            assert(probed@.take(i + 1).drop_last() =~= probed@.take(i as int));
            assert(probed@.take(i + 1).last() == probed[i as int]);
        }
        match &probed[i].1 {
            Ok(info) => {
                let mut domain = probed[i].0.clone();
                domain.certificate_info = Some(info.clone());
                domains.push(domain);
                assert(domain_views(domains@) =~= before.push(domain@));
            },
            Err(_) => {},
        }
        i += 1;
    }
    proof {
        assert(probed@.take(i as int) =~= probed@);
    }
    Ok(domains)
}

/// The domains for which a certificate was requested, each with the record
/// of its request, in the order given. The others are dropped.
pub open spec fn applied(issued: Seq<(Domain, Result<String>)>) -> Seq<DomainView>
    decreases issued.len(),
{
    if issued.len() == 0 {
        Seq::empty()
    } else {
        let before = applied(issued.drop_last());
        match issued.last().1 {
            Ok(certificate_id) => before.push(
                DomainView {
                    ssl_info: Some(StatusView::requested(certificate_id@)),
                    ..issued.last().0@
                },
            ),
            Err(_) => before,
        }
    }
}

/// Gathers the certificate requests of a batch: each domain with the outcome
/// of applying for its certificate, in the order in which the outcomes
/// arrived. A domain whose request was accepted is kept, with the handle it
/// was given; a domain whose request failed is dropped.
pub fn apply_ssl_certificate(issued: Vec<(Domain, Result<String>)>) -> (kept: Result<Vec<Domain>>)
    ensures
        kept matches Ok(domains) && domain_views(domains@) == applied(issued@),
{
    let mut domains: Vec<Domain> = Vec::new();
    let mut i: usize = 0;
    proof {
        assert(issued@.take(0) =~= Seq::empty());
        assert(domain_views(domains@) =~= Seq::empty());
    }
    while i < issued.len()
        invariant
            i <= issued.len(),
            domain_views(domains@) == applied(issued@.take(i as int)),
        decreases issued.len() - i,
    {
        let ghost before = domain_views(domains@);
        proof {
            assert(issued@.take(i + 1).drop_last() =~= issued@.take(i as int));
            assert(issued@.take(i + 1).last() == issued[i as int]);
        }
        match &issued[i].1 {
            Ok(certificate_id) => {
                let mut domain = issued[i].0.clone();
                domain.ssl_info = Some(ApplyStatus::requested(certificate_id.clone()));
                domains.push(domain);
                assert(domain_views(domains@) =~= before.push(domain@));
            },
            Err(_) => {},
        }
        i += 1;
    }
    proof {
        assert(issued@.take(i as int) =~= issued@);
    }
    Ok(domains)
}

impl DomainView {
    /// The domain's certificate is to be renewed: it is within the renewal
    /// threshold, or nothing is known of it.
    pub open spec fn is_due(self) -> bool {
        match self.certificate_info {
            Some(info) => info.need_update(),
            None => true,
        }
    }
}

/// The domains that are due for renewal, in the order given.
pub open spec fn due(domains: Seq<DomainView>) -> Seq<DomainView> {
    domains.filter(|domain: DomainView| domain.is_due())
}

/// Picks the domains whose certificate is to be renewed: those within the
/// renewal threshold and those of which nothing is known.
pub fn due_for_update(domains: Vec<Domain>) -> (kept: Vec<Domain>)
    ensures
        domain_views(kept@) == due(domain_views(domains@)),
{
    let ghost all = domain_views(domains@);
    let mut kept: Vec<Domain> = Vec::new();
    let mut i: usize = 0;
    proof {
        assert(all.take(0) =~= Seq::empty());
        assert(domain_views(kept@) =~= Seq::empty());
        reveal(Seq::filter);
    }
    while i < domains.len()
        invariant
            i <= domains.len(),
            all == domain_views(domains@),
            domain_views(kept@) == due(all.take(i as int)),
        decreases domains.len() - i,
    {
        let ghost before = domain_views(kept@);
        proof {
            assert(all.take(i + 1).drop_last() =~= all.take(i as int));
            assert(all.take(i + 1).last() == domains[i as int]@);
            reveal(Seq::filter);
        }
        let is_due = match &domains[i].certificate_info {
            Some(info) => info.need_update(),
            None => true,
        };
        if is_due {
            let domain = domains[i].clone();
            kept.push(domain);
            assert(domain_views(kept@) =~= before.push(domain@));
        }
        i += 1;
    }
    proof {
        assert(all.take(i as int) =~= all);
    }
    kept
}

/// The domains whose lifecycle a command runs: for an update those of the
/// checked domains that are due, for a forced update every listed domain,
/// for any other command none.
pub fn domains_to_update(command: Commands, listed: Vec<Domain>, checked: Vec<Domain>) -> (chosen:
    Vec<Domain>)
    ensures
        domain_views(chosen@) == match command {
            Commands::Update => due(domain_views(checked@)),
            Commands::ForceUpdate => domain_views(listed@),
            _ => Seq::empty(),
        },
{
    match command {
        Commands::Update => due_for_update(checked),
        Commands::ForceUpdate => listed,
        _ => {
            let none: Vec<Domain> = Vec::new();
            assert(domain_views(none@) =~= Seq::empty());
            none
        },
    }
}

/// Starts the update of a batch: a lifecycle for each domain, none waiting
/// for another, and the first action of each. The caller performs the
/// actions of all domains side by side and reports them through the batch;
/// the batch's report then names every domain, the failed ones with their
/// error.
pub fn update_ssl_certificate(domains: &Vec<Domain>) -> (started: (Batch, Vec<Action>))
    ensures
        started.0@.len() == domains.len(),
        started.1.len() == domains.len(),
        forall|i: int|
            0 <= i < domains.len() ==> (#[trigger] started.0@[i], started.1[i]@)
                == LifecycleView::start(domains[i]@, POLL_INTERVAL_SECS),
{
    Batch::start(domains)
}

} // verus!
