//! The certificate lifecycle of one domain as a mathematical state machine:
//! states, the events that providers answer with, the actions the machine
//! asks for, and the transition function between them.

use crate::domain::{DnsInfo, DomainView};
use crate::error::ErrorView;
use crate::ssl::utils::CertFileView;
use crate::ssl::StatusView;
use crate::text::replaced;
use vstd::prelude::*;

verus! {

/// The validation method asked of the certificate authority.
pub const DV_AUTH_METHOD: &'static str = "DNS";

/// Seconds between two polls of the certificate authority, unless the
/// lifecycle was started with another interval.
pub const POLL_INTERVAL_SECS: u64 = 360;

/// The message of the failure after an event that answers no pending action.
pub const UNEXPECTED_EVENT: &'static str = "unexpected event";

/// The message of the failure when a changed challenge finds a validation
/// record without an identifier.
pub const NO_DNS_RECORD: &'static str = "no dns record";

/// How far a domain's certificate has come.
#[derive(Debug, Clone, Copy, PartialEq, Eq, Structural)]
pub enum Phase {
    NotApplied,
    Applied,
    AwaitingValidation,
    Downloadable,
    Reconciling,
    Bound,
    Failed,
}

/// Where the machine stands: which answer it waits for, or how it ended.
#[derive(Debug, Clone, Copy, PartialEq, Eq, Structural)]
pub enum Stage {
    /// The certificate request is with the authority.
    Applying,
    /// The first status poll after the request is under way.
    FirstPoll,
    /// The validation record is being created.
    Publishing,
    /// The validation record is being given a changed challenge value.
    Republishing,
    /// The polling interval is running.
    Waiting,
    /// A later status poll is under way.
    Polling,
    /// The bundle is being downloaded from the authority.
    Downloading,
    /// The keys are being uploaded to the CDN's vendor account.
    Uploading,
    /// The certificate is being bound to the domain.
    Binding,
    /// The validation record is being deleted.
    Cleaning,
    /// The certificate is bound: the lifecycle succeeded.
    Bound,
    /// The lifecycle ended with an error.
    Failed,
}

impl Stage {
    /// The phase of the lifecycle that a stage belongs to.
    pub open spec fn spec_phase(self) -> Phase {
        match self {
            Stage::Applying => Phase::NotApplied,
            Stage::FirstPoll => Phase::Applied,
            Stage::Publishing | Stage::Republishing | Stage::Waiting | Stage::Polling =>
                Phase::AwaitingValidation,
            Stage::Downloading | Stage::Uploading => Phase::Downloadable,
            Stage::Binding | Stage::Cleaning => Phase::Reconciling,
            Stage::Bound => Phase::Bound,
            Stage::Failed => Phase::Failed,
        }
    }

    /// The phase of the lifecycle that a stage belongs to.
    #[verifier::when_used_as_spec(spec_phase)]
    pub fn phase(self) -> (phase: Phase)
        ensures
            phase == self.spec_phase(),
    {
        match self {
            Stage::Applying => Phase::NotApplied,
            Stage::FirstPoll => Phase::Applied,
            Stage::Publishing | Stage::Republishing | Stage::Waiting | Stage::Polling =>
                Phase::AwaitingValidation,
            Stage::Downloading | Stage::Uploading => Phase::Downloadable,
            Stage::Binding | Stage::Cleaning => Phase::Reconciling,
            Stage::Bound => Phase::Bound,
            Stage::Failed => Phase::Failed,
        }
    }

    /// No transition leaves this stage.
    pub open spec fn is_terminal(self) -> bool {
        self == Stage::Bound || self == Stage::Failed
    }

    /// The authority has said that the certificate can be downloaded.
    pub open spec fn is_past_validation(self) -> bool {
        match self {
            Stage::Downloading | Stage::Uploading | Stage::Binding | Stage::Cleaning
            | Stage::Bound => true,
            _ => false,
        }
    }
}

/// The mathematical value of an action: a provider call for the caller to
/// make, a wait, or nothing more to do.
pub enum ActionView {
    Apply { domain: Seq<char>, dv_auth_method: Seq<char> },
    CheckStatus { certificate_id: Seq<char> },
    AddRecord { value: Seq<char>, zone: Seq<char>, sub_domain: Seq<char> },
    ModifyRecord { value: Seq<char>, record_id: u64, zone: Seq<char>, sub_domain: Seq<char> },
    Wait { seconds: u64 },
    Download { certificate_id: Seq<char> },
    Upload { public_key: Seq<char>, private_key: Seq<char> },
    Bind { domain: Seq<char>, certificate_id: Seq<char> },
    DeleteRecord { record_id: u64, zone: Seq<char> },
    Finish,
}

/// The kind of an action: which call it asks for.
#[derive(Debug, Clone, Copy, PartialEq, Eq, Structural)]
pub enum Call {
    Apply,
    CheckStatus,
    AddRecord,
    ModifyRecord,
    Wait,
    Download,
    Upload,
    Bind,
    DeleteRecord,
    Finish,
}

impl ActionView {
    /// Which call the action asks for.
    pub open spec fn call(self) -> Call {
        match self {
            ActionView::Apply { .. } => Call::Apply,
            ActionView::CheckStatus { .. } => Call::CheckStatus,
            ActionView::AddRecord { .. } => Call::AddRecord,
            ActionView::ModifyRecord { .. } => Call::ModifyRecord,
            ActionView::Wait { .. } => Call::Wait,
            ActionView::Download { .. } => Call::Download,
            ActionView::Upload { .. } => Call::Upload,
            ActionView::Bind { .. } => Call::Bind,
            ActionView::DeleteRecord { .. } => Call::DeleteRecord,
            ActionView::Finish => Call::Finish,
        }
    }
}

/// Which service of which of a domain's accounts a call goes to.
#[derive(Debug, Clone, Copy, PartialEq, Eq, Structural)]
pub enum Service {
    /// The certificate service of the authority's account.
    Authority,
    /// The certificate service of the CDN's account, which takes the upload.
    CdnCertificates,
    /// The DNS service of the DNS account.
    Dns,
    /// The CDN service of the CDN's account.
    Cdn,
}

impl Call {
    /// The service that a call goes to, `None` for what is no provider
    /// call.
    pub open spec fn spec_service(self) -> Option<Service> {
        match self {
            Call::Apply | Call::CheckStatus | Call::Download => Some(Service::Authority),
            Call::Upload => Some(Service::CdnCertificates),
            Call::AddRecord | Call::ModifyRecord | Call::DeleteRecord => Some(Service::Dns),
            Call::Bind => Some(Service::Cdn),
            Call::Wait | Call::Finish => None,
        }
    }

    /// The service that a call goes to, `None` for what is no provider
    /// call.
    #[verifier::when_used_as_spec(spec_service)]
    pub fn service(self) -> (service: Option<Service>)
        ensures
            service == self.spec_service(),
    {
        match self {
            Call::Apply | Call::CheckStatus | Call::Download => Some(Service::Authority),
            Call::Upload => Some(Service::CdnCertificates),
            Call::AddRecord | Call::ModifyRecord | Call::DeleteRecord => Some(Service::Dns),
            Call::Bind => Some(Service::Cdn),
            Call::Wait | Call::Finish => None,
        }
    }
}

impl DomainView {
    /// The creation of this domain's validation record for a challenge with
    /// the value `record` under the key `dns_key`: the value goes into the
    /// domain's zone, under the key without the zone and the dot before it.
    pub open spec fn validation_record(self, record: Seq<char>, dns_key: Seq<char>) -> ActionView {
        ActionView::AddRecord {
            value: record,
            zone: self.original_name,
            sub_domain: validation_sub_domain(dns_key, self.original_name),
        }
    }

    /// The account that serves `service` for this domain.
    pub open spec fn account(self, service: Service) -> crate::domain::ProviderView {
        match service {
            Service::Authority => self.ssl_provider,
            Service::CdnCertificates | Service::Cdn => self.cdn_provider,
            Service::Dns => self.dns_provider,
        }
    }
}

impl ActionView {
    /// The event that reports that this action failed with `error`, `None`
    /// for an action that is no provider call.
    pub open spec fn failure(self, error: ErrorView) -> Option<EventView> {
        match self {
            ActionView::Apply { .. } => Some(EventView::Applied(Err(error))),
            ActionView::CheckStatus { .. } => Some(EventView::Status(Err(error))),
            ActionView::AddRecord { .. } => Some(EventView::RecordAdded(Err(error))),
            ActionView::ModifyRecord { .. } => Some(EventView::RecordModified(Err(error))),
            ActionView::Download { .. } => Some(EventView::Downloaded(Err(error))),
            ActionView::Upload { .. } => Some(EventView::Uploaded(Err(error))),
            ActionView::Bind { .. } => Some(EventView::Bound(Err(error))),
            ActionView::DeleteRecord { .. } => Some(EventView::RecordDeleted(Err(error))),
            ActionView::Wait { .. } | ActionView::Finish => None,
        }
    }
}

/// The mathematical value of an event: what came of the action last asked
/// for, or the caller's cancellation.
pub enum EventView {
    Applied(Result<Seq<char>, ErrorView>),
    Status(Result<StatusView, ErrorView>),
    RecordAdded(Result<u64, ErrorView>),
    RecordModified(Result<u64, ErrorView>),
    Waited,
    Downloaded(Result<CertFileView, ErrorView>),
    Uploaded(Result<Seq<char>, ErrorView>),
    Bound(Result<Seq<char>, ErrorView>),
    RecordDeleted(Result<Seq<char>, ErrorView>),
    Cancelled,
}

/// Where under `zone` the validation record goes: the challenge's key
/// without the zone and the dot before it.
pub open spec fn validation_sub_domain(dns_key: Seq<char>, zone: Seq<char>) -> Seq<char> {
    replaced(dns_key, "."@ + zone, Seq::empty())
}

/// The mathematical value of a lifecycle.
pub struct LifecycleView {
    pub domain: DomainView,
    pub stage: Stage,
    /// The challenge value that this lifecycle last wrote to the validation
    /// record.
    pub published: Option<Seq<char>>,
    /// The certificate handle used for binding.
    pub binding_id: Option<Seq<char>>,
    /// Why the lifecycle failed.
    pub failure: Option<ErrorView>,
    pub poll_interval: u64,
}

impl LifecycleView {
    /// The handle of the certificate request, empty before there is one.
    pub open spec fn certificate_id(self) -> Seq<char> {
        match self.domain.ssl_info {
            Some(info) => info.certificate_id,
            None => Seq::empty(),
        }
    }

    /// The challenge value of the latest snapshot, if there is a snapshot.
    pub open spec fn challenge_value(self) -> Option<Seq<char>> {
        match self.domain.ssl_info {
            Some(info) => Some(info.dns_value),
            None => None,
        }
    }

    /// The lifecycle ends in failure with `error`.
    pub open spec fn fail(self, error: ErrorView) -> (LifecycleView, ActionView) {
        (LifecycleView { stage: Stage::Failed, failure: Some(error), ..self }, ActionView::Finish)
    }

    /// The certificate is ready: bind it as it is where the authority and the
    /// CDN are one account, else fetch it for the upload.
    pub open spec fn proceed(self) -> (LifecycleView, ActionView) {
        if self.domain.can_direct_update_ssl() {
            (
                LifecycleView {
                    stage: Stage::Binding,
                    binding_id: Some(self.certificate_id()),
                    ..self
                },
                ActionView::Bind {
                    domain: self.domain.name,
                    certificate_id: self.certificate_id(),
                },
            )
        } else {
            (
                LifecycleView { stage: Stage::Downloading, ..self },
                ActionView::Download { certificate_id: self.certificate_id() },
            )
        }
    }

    /// The snapshot as the record keeps it: the challenge as polled, under
    /// the handle that the record already has.
    pub open spec fn kept_snapshot(self, snapshot: StatusView) -> StatusView {
        match self.domain.ssl_info {
            Some(info) => StatusView { certificate_id: info.certificate_id, ..snapshot },
            None => snapshot,
        }
    }

    /// A status poll came back with `snapshot`. A certificate that is ready
    /// is proceeded with, whatever the validation record. Else a domain
    /// without a record has one created from the snapshot's challenge. Else
    /// a challenge value that differs from the one last written to the
    /// record has the record modified. A snapshot's empty text stands for a
    /// value that the authority did not give: it changes no record, and the
    /// lifecycle waits, as it does when the value is the one written.
    pub open spec fn observe(self, snapshot: StatusView) -> (LifecycleView, ActionView) {
        let seen = LifecycleView {
            domain: DomainView { ssl_info: Some(self.kept_snapshot(snapshot)), ..self.domain },
            ..self
        };
        if snapshot.can_download {
            seen.proceed()
        } else if seen.domain.lacks_record() {
            (
                LifecycleView { stage: Stage::Publishing, ..seen },
                seen.domain.validation_record(snapshot.dns_value, snapshot.dns_key),
            )
        } else if snapshot.dns_value.len() > 0 && seen.published != Some(snapshot.dns_value) {
            match seen.domain.record_id() {
                Some(record_id) => (
                    LifecycleView { stage: Stage::Republishing, ..seen },
                    ActionView::ModifyRecord {
                        value: snapshot.dns_value,
                        record_id,
                        zone: seen.domain.original_name,
                        sub_domain: validation_sub_domain(
                            snapshot.dns_key,
                            seen.domain.original_name,
                        ),
                    },
                ),
                None => seen.fail(ErrorView::NotFound(NO_DNS_RECORD@)),
            }
        } else {
            (
                LifecycleView { stage: Stage::Waiting, ..seen },
                ActionView::Wait { seconds: seen.poll_interval },
            )
        }
    }

    /// The validation record now exists under `record_id` and holds the
    /// latest challenge value: wait before the next poll.
    pub open spec fn recorded(self, record_id: u64) -> (LifecycleView, ActionView) {
        (
            LifecycleView {
                domain: DomainView {
                    dns_info: Some(DnsInfo { dns_status: 1, dns_record_id: Some(record_id) }),
                    ..self.domain
                },
                stage: Stage::Waiting,
                published: self.challenge_value(),
                ..self
            },
            ActionView::Wait { seconds: self.poll_interval },
        )
    }

    /// The certificate is bound: delete the validation record where one is
    /// known, else the lifecycle is done.
    pub open spec fn clean_up(self) -> (LifecycleView, ActionView) {
        match self.domain.record_id() {
            Some(record_id) => (
                LifecycleView { stage: Stage::Cleaning, ..self },
                ActionView::DeleteRecord { record_id, zone: self.domain.original_name },
            ),
            None => (LifecycleView { stage: Stage::Bound, ..self }, ActionView::Finish),
        }
    }

    /// The deletion of the validation record came back: the lifecycle is
    /// done whether or not it succeeded.
    pub open spec fn cleaned(self, deleted: bool) -> (LifecycleView, ActionView) {
        (
            LifecycleView {
                domain: DomainView {
                    dns_info: if deleted {
                        None
                    } else {
                        self.domain.dns_info
                    },
                    ..self.domain
                },
                stage: Stage::Bound,
                ..self
            },
            ActionView::Finish,
        )
    }

    /// The lifecycle of `domain` before its first event, and the first
    /// action: a record without a certificate handle applies for one, a
    /// record with one resumes where its snapshot stands.
    pub open spec fn start(domain: DomainView, poll_interval: u64) -> (LifecycleView, ActionView) {
        let fresh = LifecycleView {
            domain,
            stage: Stage::Applying,
            published: None,
            binding_id: None,
            failure: None,
            poll_interval,
        };
        match domain.ssl_info {
            None => (
                fresh,
                ActionView::Apply { domain: domain.name, dv_auth_method: DV_AUTH_METHOD@ },
            ),
            Some(info) => if info.can_download {
                fresh.proceed()
            } else {
                (
                    LifecycleView { stage: Stage::FirstPoll, ..fresh },
                    ActionView::CheckStatus { certificate_id: info.certificate_id },
                )
            },
        }
    }

    /// The transition function: the state after `event` and the action to
    /// take next.
    pub open spec fn step(self, event: EventView) -> (LifecycleView, ActionView) {
        if self.stage.is_terminal() {
            (self, ActionView::Finish)
        } else {
            match (self.stage, event) {
                (_, EventView::Cancelled) => self.fail(ErrorView::Cancelled),
                (Stage::Applying, EventView::Applied(Ok(certificate_id))) => (
                    LifecycleView {
                        domain: DomainView {
                            ssl_info: Some(StatusView::requested(certificate_id)),
                            ..self.domain
                        },
                        stage: Stage::FirstPoll,
                        ..self
                    },
                    ActionView::CheckStatus { certificate_id },
                ),
                (Stage::Applying, EventView::Applied(Err(error))) => self.fail(error),
                (Stage::FirstPoll, EventView::Status(Ok(snapshot))) => self.observe(snapshot),
                (Stage::Polling, EventView::Status(Ok(snapshot))) => self.observe(snapshot),
                (Stage::FirstPoll, EventView::Status(Err(error))) => self.fail(error),
                (Stage::Polling, EventView::Status(Err(error))) => self.fail(error),
                (Stage::Publishing, EventView::RecordAdded(Ok(record_id))) => self.recorded(
                    record_id,
                ),
                (Stage::Publishing, EventView::RecordAdded(Err(error))) => self.fail(error),
                (Stage::Republishing, EventView::RecordModified(Ok(record_id))) => self.recorded(
                    record_id,
                ),
                (Stage::Republishing, EventView::RecordModified(Err(error))) => self.fail(error),
                (Stage::Waiting, EventView::Waited) => (
                    LifecycleView { stage: Stage::Polling, ..self },
                    ActionView::CheckStatus { certificate_id: self.certificate_id() },
                ),
                (Stage::Downloading, EventView::Downloaded(Ok(keys))) => (
                    LifecycleView { stage: Stage::Uploading, ..self },
                    ActionView::Upload {
                        public_key: keys.public_key,
                        private_key: keys.private_key,
                    },
                ),
                (Stage::Downloading, EventView::Downloaded(Err(error))) => self.fail(error),
                (Stage::Uploading, EventView::Uploaded(Ok(handle))) => (
                    LifecycleView { stage: Stage::Binding, binding_id: Some(handle), ..self },
                    ActionView::Bind { domain: self.domain.name, certificate_id: handle },
                ),
                (Stage::Uploading, EventView::Uploaded(Err(error))) => self.fail(error),
                (Stage::Binding, EventView::Bound(Ok(_))) => self.clean_up(),
                (Stage::Binding, EventView::Bound(Err(error))) => self.fail(error),
                (Stage::Cleaning, EventView::RecordDeleted(outcome)) => self.cleaned(
                    outcome is Ok,
                ),
                _ => self.fail(ErrorView::Other(UNEXPECTED_EVENT@)),
            }
        }
    }
}

} // verus!
