//! The liveness filter that a batch of domains passes before anything is
//! done for it: which names are worth a probe, where the probe goes, and
//! what its answer means.

use crate::domain::{domain_views, Domain, DomainView};
use vstd::prelude::*;
use vstd::string::*;

verus! {

/// The scheme that a domain is probed under.
pub const PROBE_SCHEME: &'static str = "https://";

/// The HTTP status of a domain that serves nothing.
pub const STATUS_NOT_FOUND: u16 = 404;

/// Whether a character is white space, as Unicode defines it.
pub open spec fn is_white_space(c: char) -> bool {
    let code = c as u32;
    ||| 0x09 <= code <= 0x0D
    ||| code == 0x20
    ||| code == 0x85
    ||| code == 0xA0
    ||| code == 0x1680
    ||| 0x2000 <= code <= 0x200A
    ||| code == 0x2028
    ||| code == 0x2029
    ||| code == 0x202F
    ||| code == 0x205F
    ||| code == 0x3000
}

/// Whether a text has nothing in it but white space.
pub open spec fn is_blank(text: Seq<char>) -> bool {
    forall|i: int| 0 <= i < text.len() ==> is_white_space(#[trigger] text[i])
}

/// Whether a character is white space, as Unicode defines it.
pub fn white_space(c: char) -> (white: bool)
    ensures
        white == is_white_space(c),
{
    let code = c as u32;
    (0x09 <= code && code <= 0x0D) || code == 0x20 || code == 0x85 || code == 0xA0 || code
        == 0x1680 || (0x2000 <= code && code <= 0x200A) || code == 0x2028 || code == 0x2029
        || code == 0x202F || code == 0x205F || code == 0x3000
}

/// Whether a text has nothing in it but white space.
pub fn blank(text: &str) -> (blank: bool)
    ensures
        blank == is_blank(text@),
{
    let length = text.unicode_len();
    let mut i: usize = 0;
    while i < length
        invariant
            length == text@.len(),
            i <= length,
            forall|j: int| 0 <= j < i ==> is_white_space(#[trigger] text@[j]),
        decreases length - i,
    {
        if !white_space(text.get_char(i)) {
            return false;
        }
        i += 1;
    }
    true
}

/// Whether a text is a URL.
pub uninterp spec fn url_parses(text: Seq<char>) -> bool;

/// `Url::parse` of the url crate, as reqwest hands it on. Trusted: whether a
/// text is accepted depends on the text alone, and [`url_parses`] is the
/// name of that.
#[verifier::external_body]
fn parses_as_url(text: &str) -> (accepted: bool)
    ensures
        accepted == url_parses(text@),
{
    reqwest::Url::parse(text).is_ok()
}

/// Where the probe of `domain` goes: the domain under the probe's scheme,
/// or nowhere if that is no URL.
pub fn probe_url(domain: &str) -> (url: Option<String>)
    ensures
        match url {
            Some(url) => url@ == PROBE_SCHEME@ + domain@ && url_parses(url@),
            None => !url_parses(PROBE_SCHEME@ + domain@),
        },
{
    let url = String::from_str(PROBE_SCHEME).concat(domain);
    if parses_as_url(url.as_str()) {
        Some(url)
    } else {
        None
    }
}

/// What a probe says of a domain: it is alive if the probe had somewhere to
/// go, was answered, and the answer was not that nothing is there.
pub open spec fn is_alive(domain: Seq<char>, status: Option<u16>) -> bool {
    url_parses(PROBE_SCHEME@ + domain) && status is Some && status != Some(STATUS_NOT_FOUND)
}

/// Whether `domain` is alive, given the HTTP status that its probe was
/// answered with, `None` for a probe that was not answered.
pub fn is_domain_valid(domain: &str, status: Option<u16>) -> (alive: bool)
    ensures
        alive == is_alive(domain@, status),
{
    match (probe_url(domain), status) {
        (Some(_), Some(code)) => code != STATUS_NOT_FOUND,
        _ => false,
    }
}

/// The domains among `probed` that have a name, in the order given.
pub open spec fn named(probed: Seq<(Domain, Option<u16>)>) -> Seq<DomainView>
    decreases probed.len(),
{
    if probed.len() == 0 {
        Seq::empty()
    } else if is_blank(probed.last().0@.name) {
        named(probed.drop_last())
    } else {
        named(probed.drop_last()).push(probed.last().0@)
    }
}

/// The domains among `probed` that have a name and are alive, in the order
/// given.
pub open spec fn alive(probed: Seq<(Domain, Option<u16>)>) -> Seq<DomainView>
    decreases probed.len(),
{
    if probed.len() == 0 {
        Seq::empty()
    } else if !is_blank(probed.last().0@.name) && is_alive(
        probed.last().0@.name,
        probed.last().1,
    ) {
        alive(probed.drop_last()).push(probed.last().0@)
    } else {
        alive(probed.drop_last())
    }
}

/// Filters a batch of domains by liveness: each domain comes with the HTTP
/// status its probe was answered with, in the order in which the answers
/// arrived. Domains without a name are left out first; if none is left
/// there is no batch. Of the others those that are alive are kept; the rest
/// are dropped.
pub fn parse_domains(probed: Vec<(Domain, Option<u16>)>) -> (kept: Option<Vec<Domain>>)
    ensures
        match kept {
            Some(domains) => named(probed@).len() > 0 && domain_views(domains@) == alive(probed@),
            None => named(probed@).len() == 0,
        },
{
    let mut domains: Vec<Domain> = Vec::new();
    let mut count: usize = 0;
    let mut i: usize = 0;
    proof {
        assert(probed@.take(0) =~= Seq::empty());
        assert(domain_views(domains@) =~= Seq::empty());
    }
    while i < probed.len()
        invariant
            i <= probed.len(),
            count <= i,
            count == named(probed@.take(i as int)).len(),
            domain_views(domains@) == alive(probed@.take(i as int)),
        decreases probed.len() - i,
    {
        let ghost before = domain_views(domains@);
        proof {
            assert(probed@.take(i + 1).drop_last() =~= probed@.take(i as int));
            assert(probed@.take(i + 1).last() == probed[i as int]);
        }
        let domain = &probed[i].0;
        if !blank(domain.name.as_str()) {
            count += 1;
            if is_domain_valid(domain.name.as_str(), probed[i].1) {
                let alive = domain.clone();
                domains.push(alive);
                assert(domain_views(domains@) =~= before.push(alive@));
            }
        }
        i += 1;
    }
    proof {
        assert(probed@.take(i as int) =~= probed@);
    }
    if count == 0 {
        None
    } else {
        Some(domains)
    }
}

} // verus!
