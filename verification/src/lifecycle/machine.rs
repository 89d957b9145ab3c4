//! The executable lifecycle: the values that cross the boundary to the
//! caller, and the state machine that turns each event into the next action.

use crate::domain::{DnsInfo, Domain};
use crate::error::{text_result, AppError, ErrorView, Result};
use crate::lifecycle::laws::{outcome, trace};
use crate::lifecycle::model::{
    validation_sub_domain, ActionView, Call, EventView, LifecycleView, Phase, Stage,
    DV_AUTH_METHOD,
    NO_DNS_RECORD, POLL_INTERVAL_SECS, UNEXPECTED_EVENT,
};
use crate::ssl::utils::{bundle_keys, parse_cert_from_base64, CertFile, CertFileView};
use crate::ssl::{ApplyStatus, StatusView};
use crate::text::{option_text, replace_all};
use vstd::prelude::*;
use vstd::string::*;

verus! {

/// What the caller is to do next for a domain.
#[derive(Debug, PartialEq, Eq)]
pub enum Action {
    /// Ask the certificate authority for a certificate.
    Apply { domain: String, dv_auth_method: String },
    /// Ask the certificate authority how the request stands.
    CheckStatus { certificate_id: String },
    /// Create the validation record.
    AddRecord { value: String, zone: String, sub_domain: String },
    /// Give the validation record another value.
    ModifyRecord { value: String, record_id: u64, zone: String, sub_domain: String },
    /// Let the polling interval pass.
    Wait { seconds: u64 },
    /// Download the certificate bundle from the authority.
    Download { certificate_id: String },
    /// Register the keys with the CDN's vendor account.
    Upload { public_key: String, private_key: String },
    /// Bind the certificate to the domain at the CDN.
    Bind { domain: String, certificate_id: String },
    /// Delete the validation record.
    DeleteRecord { record_id: u64, zone: String },
    /// Nothing: the lifecycle has ended.
    Finish,
}

impl View for Action {
    type V = ActionView;

    open spec fn view(&self) -> ActionView {
        match self {
            Action::Apply { domain, dv_auth_method } => ActionView::Apply {
                domain: domain@,
                dv_auth_method: dv_auth_method@,
            },
            Action::CheckStatus { certificate_id } => ActionView::CheckStatus {
                certificate_id: certificate_id@,
            },
            Action::AddRecord { value, zone, sub_domain } => ActionView::AddRecord {
                value: value@,
                zone: zone@,
                sub_domain: sub_domain@,
            },
            Action::ModifyRecord { value, record_id, zone, sub_domain } => ActionView::ModifyRecord {
                value: value@,
                record_id: *record_id,
                zone: zone@,
                sub_domain: sub_domain@,
            },
            Action::Wait { seconds } => ActionView::Wait { seconds: *seconds },
            Action::Download { certificate_id } => ActionView::Download {
                certificate_id: certificate_id@,
            },
            Action::Upload { public_key, private_key } => ActionView::Upload {
                public_key: public_key@,
                private_key: private_key@,
            },
            Action::Bind { domain, certificate_id } => ActionView::Bind {
                domain: domain@,
                certificate_id: certificate_id@,
            },
            Action::DeleteRecord { record_id, zone } => ActionView::DeleteRecord {
                record_id: *record_id,
                zone: zone@,
            },
            Action::Finish => ActionView::Finish,
        }
    }
}

impl Action {
    /// Which call the action asks for.
    pub fn call(&self) -> (call: Call)
        ensures
            call == self@.call(),
    {
        match self {
            Action::Apply { .. } => Call::Apply,
            Action::CheckStatus { .. } => Call::CheckStatus,
            Action::AddRecord { .. } => Call::AddRecord,
            Action::ModifyRecord { .. } => Call::ModifyRecord,
            Action::Wait { .. } => Call::Wait,
            Action::Download { .. } => Call::Download,
            Action::Upload { .. } => Call::Upload,
            Action::Bind { .. } => Call::Bind,
            Action::DeleteRecord { .. } => Call::DeleteRecord,
            Action::Finish => Call::Finish,
        }
    }
}

impl Action {
    /// The event that reports that this action failed with `error`, `None`
    /// for an action that is no provider call.
    pub fn failure(&self, error: AppError) -> (event: Option<Event>)
        ensures
            match event {
                Some(event) => self@.failure(error@) == Some(event@),
                None => self@.failure(error@) is None,
            },
    {
        match self {
            Action::Apply { .. } => Some(Event::Applied(Err(error))),
            Action::CheckStatus { .. } => Some(Event::Status(Err(error))),
            Action::AddRecord { .. } => Some(Event::RecordAdded(Err(error))),
            Action::ModifyRecord { .. } => Some(Event::RecordModified(Err(error))),
            Action::Download { .. } => Some(Event::Downloaded(Err(error))),
            Action::Upload { .. } => Some(Event::Uploaded(Err(error))),
            Action::Bind { .. } => Some(Event::Bound(Err(error))),
            Action::DeleteRecord { .. } => Some(Event::RecordDeleted(Err(error))),
            Action::Wait { .. } | Action::Finish => None,
        }
    }
}

/// What came of the action last asked for, or the caller's cancellation.
#[derive(Debug, PartialEq, Eq)]
pub enum Event {
    Applied(Result<String>),
    Status(Result<ApplyStatus>),
    RecordAdded(Result<u64>),
    RecordModified(Result<u64>),
    Waited,
    Downloaded(Result<CertFile>),
    Uploaded(Result<String>),
    Bound(Result<String>),
    RecordDeleted(Result<String>),
    Cancelled,
}

/// The view of the outcome of a status poll.
pub open spec fn status_result(r: Result<ApplyStatus>) -> std::result::Result<
    StatusView,
    ErrorView,
> {
    match r {
        Ok(status) => Ok(status@),
        Err(e) => Err(e@),
    }
}

/// The view of the outcome of a call that returns a record identifier.
pub open spec fn id_result(r: Result<u64>) -> std::result::Result<u64, ErrorView> {
    match r {
        Ok(id) => Ok(id),
        Err(e) => Err(e@),
    }
}

/// The view of the outcome of taking the keys out of a bundle.
pub open spec fn keys_result(r: Result<CertFile>) -> std::result::Result<CertFileView, ErrorView> {
    match r {
        Ok(keys) => Ok(keys@),
        Err(e) => Err(e@),
    }
}

impl View for Event {
    type V = EventView;

    open spec fn view(&self) -> EventView {
        match self {
            Event::Applied(r) => EventView::Applied(text_result(*r)),
            Event::Status(r) => EventView::Status(status_result(*r)),
            Event::RecordAdded(r) => EventView::RecordAdded(id_result(*r)),
            Event::RecordModified(r) => EventView::RecordModified(id_result(*r)),
            Event::Waited => EventView::Waited,
            Event::Downloaded(r) => EventView::Downloaded(keys_result(*r)),
            Event::Uploaded(r) => EventView::Uploaded(text_result(*r)),
            Event::Bound(r) => EventView::Bound(text_result(*r)),
            Event::RecordDeleted(r) => EventView::RecordDeleted(text_result(*r)),
            Event::Cancelled => EventView::Cancelled,
        }
    }
}

impl Clone for Event {
    fn clone(&self) -> (copy: Event)
        ensures
            copy@ == self@,
    {
        match self {
            Event::Applied(Ok(id)) => Event::Applied(Ok(id.clone())),
            Event::Applied(Err(e)) => Event::Applied(Err(e.clone())),
            Event::Status(Ok(status)) => Event::Status(Ok(status.clone())),
            Event::Status(Err(e)) => Event::Status(Err(e.clone())),
            Event::RecordAdded(Ok(id)) => Event::RecordAdded(Ok(*id)),
            Event::RecordAdded(Err(e)) => Event::RecordAdded(Err(e.clone())),
            Event::RecordModified(Ok(id)) => Event::RecordModified(Ok(*id)),
            Event::RecordModified(Err(e)) => Event::RecordModified(Err(e.clone())),
            Event::Waited => Event::Waited,
            Event::Downloaded(Ok(keys)) => Event::Downloaded(Ok(keys.clone())),
            Event::Downloaded(Err(e)) => Event::Downloaded(Err(e.clone())),
            Event::Uploaded(Ok(handle)) => Event::Uploaded(Ok(handle.clone())),
            Event::Uploaded(Err(e)) => Event::Uploaded(Err(e.clone())),
            Event::Bound(Ok(id)) => Event::Bound(Ok(id.clone())),
            Event::Bound(Err(e)) => Event::Bound(Err(e.clone())),
            Event::RecordDeleted(Ok(id)) => Event::RecordDeleted(Ok(id.clone())),
            Event::RecordDeleted(Err(e)) => Event::RecordDeleted(Err(e.clone())),
            Event::Cancelled => Event::Cancelled,
        }
    }
}

/// The views of a sequence of events.
pub open spec fn event_views(events: Seq<Event>) -> Seq<EventView> {
    Seq::new(events.len(), |i: int| events[i]@)
}

/// The views of a sequence of actions.
pub open spec fn action_views(actions: Seq<Action>) -> Seq<ActionView> {
    Seq::new(actions.len(), |i: int| actions[i]@)
}

impl Event {
    /// The event for a download that came back with `content`: the keys
    /// taken out of the bundle, the parse error where it yields none, or the
    /// error of the download itself.
    pub fn downloaded(content: Result<String>) -> (event: Event)
        ensures
            match content {
                Ok(text) => match bundle_keys(text@) {
                    Some(keys) => event@ == EventView::Downloaded(Ok(keys)),
                    None => event@ matches EventView::Downloaded(Err(e)) && e is ParseError,
                },
                Err(e) => event@ == EventView::Downloaded(Err(e@)),
            },
    {
        match content {
            Ok(text) => Event::Downloaded(parse_cert_from_base64(text.as_str())),
            Err(e) => Event::Downloaded(Err(e)),
        }
    }
}

/// The certificate lifecycle of one domain.
#[derive(Debug, PartialEq, Eq)]
pub struct Lifecycle {
    pub domain: Domain,
    pub stage: Stage,
    /// The challenge value that this lifecycle last wrote to the validation
    /// record.
    pub published: Option<String>,
    /// The certificate handle used for binding.
    pub binding_id: Option<String>,
    /// Why the lifecycle failed.
    pub failure: Option<AppError>,
    /// Seconds between two polls.
    pub poll_interval: u64,
}

impl View for Lifecycle {
    type V = LifecycleView;

    open spec fn view(&self) -> LifecycleView {
        LifecycleView {
            domain: self.domain@,
            stage: self.stage,
            published: option_text(self.published),
            binding_id: option_text(self.binding_id),
            failure: match self.failure {
                Some(e) => Some(e@),
                None => None,
            },
            poll_interval: self.poll_interval,
        }
    }
}

/// Where under `zone` the validation record goes: the challenge's key
/// without the zone and the dot before it.
pub fn sub_domain_of(dns_key: &str, zone: &str) -> (sub_domain: String)
    ensures
        sub_domain@ == validation_sub_domain(dns_key@, zone@),
{
    let pattern = String::from_str(".").concat(zone);
    proof {
        reveal_strlit(".");
        reveal_strlit("");
        assert(""@ =~= Seq::<char>::empty());
    }
    replace_all(dns_key, pattern.as_str(), "")
}

impl Lifecycle {
    /// The handle of the certificate request, empty before there is one.
    pub fn certificate_id(&self) -> (id: String)
        ensures
            id@ == self@.certificate_id(),
    {
        match &self.domain.ssl_info {
            Some(info) => info.certificate_id.clone(),
            None => String::new(),
        }
    }

    fn fail(&mut self, error: AppError) -> (action: Action)
        ensures
            (final(self)@, action@) == old(self)@.fail(error@),
    {
        self.stage = Stage::Failed;
        self.failure = Some(error);
        Action::Finish
    }

    fn proceed(&mut self) -> (action: Action)
        ensures
            (final(self)@, action@) == old(self)@.proceed(),
    {
        let certificate_id = self.certificate_id();
        if self.domain.can_direct_update_ssl() {
            self.stage = Stage::Binding;
            self.binding_id = Some(certificate_id.clone());
            Action::Bind { domain: self.domain.name(), certificate_id }
        } else {
            self.stage = Stage::Downloading;
            Action::Download { certificate_id }
        }
    }

    fn observe(&mut self, snapshot: ApplyStatus) -> (action: Action)
        ensures
            (final(self)@, action@) == old(self)@.observe(snapshot@),
    {
        let kept = match &self.domain.ssl_info {
            Some(info) => ApplyStatus {
                certificate_id: info.certificate_id.clone(),
                dns_key: snapshot.dns_key.clone(),
                dns_value: snapshot.dns_value.clone(),
                status: snapshot.status,
                can_download: snapshot.can_download,
            },
            None => snapshot.clone(),
        };
        self.domain.ssl_info = Some(kept);
        if snapshot.can_download {
            return self.proceed();
        }
        if self.domain.lacks_record() {
            self.stage = Stage::Publishing;
            return self.domain.validation_record(
                snapshot.dns_value.as_str(),
                snapshot.dns_key.as_str(),
            );
        }
        let written = match &self.published {
            Some(value) => *value == snapshot.dns_value,
            None => false,
        };
        if !snapshot.dns_value.as_str().is_empty() && !written {
            match self.domain.record_id() {
                Some(record_id) => {
                    self.stage = Stage::Republishing;
                    Action::ModifyRecord {
                        sub_domain: sub_domain_of(
                            snapshot.dns_key.as_str(),
                            self.domain.original_name.as_str(),
                        ),
                        value: snapshot.dns_value,
                        record_id,
                        zone: self.domain.original_name(),
                    }
                },
                None => self.fail(AppError::NotFound(String::from_str(NO_DNS_RECORD))),
            }
        } else {
            self.stage = Stage::Waiting;
            Action::Wait { seconds: self.poll_interval }
        }
    }

    fn recorded(&mut self, record_id: u64) -> (action: Action)
        ensures
            (final(self)@, action@) == old(self)@.recorded(record_id),
    {
        self.domain.dns_info = Some(DnsInfo { dns_status: 1, dns_record_id: Some(record_id) });
        self.published =
        match &self.domain.ssl_info {
            Some(info) => Some(info.dns_value.clone()),
            None => None,
        };
        self.stage = Stage::Waiting;
        Action::Wait { seconds: self.poll_interval }
    }

    fn clean_up(&mut self) -> (action: Action)
        ensures
            (final(self)@, action@) == old(self)@.clean_up(),
    {
        match self.domain.record_id() {
            Some(record_id) => {
                self.stage = Stage::Cleaning;
                Action::DeleteRecord { record_id, zone: self.domain.original_name() }
            },
            None => {
                self.stage = Stage::Bound;
                Action::Finish
            },
        }
    }

    fn cleaned(&mut self, deleted: bool) -> (action: Action)
        ensures
            (final(self)@, action@) == old(self)@.cleaned(deleted),
    {
        if deleted {
            self.domain.dns_info = None;
        }
        self.stage = Stage::Bound;
        Action::Finish
    }

    /// Starts the lifecycle of `domain` with the default polling interval.
    pub fn start(domain: Domain) -> (started: (Lifecycle, Action))
        ensures
            (started.0@, started.1@) == LifecycleView::start(domain@, POLL_INTERVAL_SECS),
    {
        Lifecycle::start_with_interval(domain, POLL_INTERVAL_SECS)
    }

    /// Starts the lifecycle of `domain`: the state before the first event,
    /// and the first action. A record without a certificate handle applies
    /// for one; a record that has one is never applied for again.
    pub fn start_with_interval(domain: Domain, poll_interval: u64) -> (started: (
        Lifecycle,
        Action,
    ))
        ensures
            (started.0@, started.1@) == LifecycleView::start(domain@, poll_interval),
    {
        let mut fresh = Lifecycle {
            domain,
            stage: Stage::Applying,
            published: None,
            binding_id: None,
            failure: None,
            poll_interval,
        };
        let resume = match &fresh.domain.ssl_info {
            None => None,
            Some(info) => Some((info.can_download, info.certificate_id.clone())),
        };
        match resume {
            None => {
                let action = Action::Apply {
                    domain: fresh.domain.name(),
                    dv_auth_method: String::from_str(DV_AUTH_METHOD),
                };
                (fresh, action)
            },
            Some((true, _)) => {
                let action = fresh.proceed();
                (fresh, action)
            },
            Some((false, certificate_id)) => {
                fresh.stage = Stage::FirstPoll;
                (fresh, Action::CheckStatus { certificate_id })
            },
        }
    }

    /// How far the certificate has come.
    pub fn phase(&self) -> (phase: Phase)
        ensures
            phase == self@.stage.spec_phase(),
    {
        self.stage.phase()
    }

    /// Whether the lifecycle has ended.
    pub fn is_terminal(&self) -> (ended: bool)
        ensures
            ended == self@.stage.is_terminal(),
    {
        match self.stage {
            Stage::Bound | Stage::Failed => true,
            _ => false,
        }
    }

    /// Takes in what came of the last action and says what to do next.
    pub fn step(&mut self, event: Event) -> (action: Action)
        ensures
            (final(self)@, action@) == old(self)@.step(event@),
    {
        if self.is_terminal() {
            return Action::Finish;
        }
        match (self.stage, event) {
            (_, Event::Cancelled) => self.fail(AppError::Cancelled),
            (Stage::Applying, Event::Applied(Ok(certificate_id))) => {
                self.domain.ssl_info = Some(ApplyStatus::requested(certificate_id.clone()));
                self.stage = Stage::FirstPoll;
                Action::CheckStatus { certificate_id }
            },
            (Stage::Applying, Event::Applied(Err(error))) => self.fail(error),
            (Stage::FirstPoll, Event::Status(Ok(snapshot))) => self.observe(snapshot),
            (Stage::Polling, Event::Status(Ok(snapshot))) => self.observe(snapshot),
            (Stage::FirstPoll, Event::Status(Err(error))) => self.fail(error),
            (Stage::Polling, Event::Status(Err(error))) => self.fail(error),
            (Stage::Publishing, Event::RecordAdded(Ok(record_id))) => self.recorded(record_id),
            (Stage::Publishing, Event::RecordAdded(Err(error))) => self.fail(error),
            (Stage::Republishing, Event::RecordModified(Ok(record_id))) => self.recorded(
                record_id,
            ),
            (Stage::Republishing, Event::RecordModified(Err(error))) => self.fail(error),
            (Stage::Waiting, Event::Waited) => {
                self.stage = Stage::Polling;
                Action::CheckStatus { certificate_id: self.certificate_id() }
            },
            (Stage::Downloading, Event::Downloaded(Ok(keys))) => {
                self.stage = Stage::Uploading;
                Action::Upload { public_key: keys.public_key, private_key: keys.private_key }
            },
            (Stage::Downloading, Event::Downloaded(Err(error))) => self.fail(error),
            (Stage::Uploading, Event::Uploaded(Ok(handle))) => {
                self.stage = Stage::Binding;
                self.binding_id = Some(handle.clone());
                Action::Bind { domain: self.domain.name(), certificate_id: handle }
            },
            (Stage::Uploading, Event::Uploaded(Err(error))) => self.fail(error),
            (Stage::Binding, Event::Bound(Ok(_))) => self.clean_up(),
            (Stage::Binding, Event::Bound(Err(error))) => self.fail(error),
            (Stage::Cleaning, Event::RecordDeleted(outcome)) => self.cleaned(outcome.is_ok()),
            _ => self.fail(AppError::Other(String::from_str(UNEXPECTED_EVENT))),
        }
    }
}

impl LifecycleView {
    /// How the lifecycle ended: `None` while it has not.
    pub open spec fn result(self) -> Option<std::result::Result<(), ErrorView>> {
        match self.stage {
            Stage::Bound => Some(Ok(())),
            Stage::Failed => match self.failure {
                Some(error) => Some(Err(error)),
                None => Some(Err(ErrorView::Other(Seq::empty()))),
            },
            _ => None,
        }
    }
}

impl Lifecycle {
    /// How the lifecycle ended: success once the certificate is bound, the
    /// originating error once it has failed, `None` while it is under way.
    pub fn result(&self) -> (ended: Option<Result<()>>)
        ensures
            match ended {
                Some(Ok(_)) => self@.result() == Some(Ok::<(), ErrorView>(())),
                Some(Err(e)) => self@.result() == Some(Err::<(), ErrorView>(e@)),
                None => self@.result() is None,
            },
    {
        match self.stage {
            Stage::Bound => Some(Ok(())),
            Stage::Failed => match &self.failure {
                Some(error) => Some(Err(error.clone())),
                None => Some(Err(AppError::Other(String::new()))),
            },
            _ => None,
        }
    }
}

/// Runs a lifecycle of `domain` whose actions are answered by `events`, one
/// after another: the state it ends in and every action it asked for, the
/// first action and then one for each event.
pub fn auto_update_ssl(domain: Domain, events: &Vec<Event>) -> (done: (Lifecycle, Vec<Action>))
    ensures
        done.0@ == outcome(domain@, POLL_INTERVAL_SECS, event_views(events@)),
        action_views(done.1@) == trace(domain@, POLL_INTERVAL_SECS, event_views(events@)),
{
    let ghost all = event_views(events@);
    let ghost record = domain@;
    let (mut lifecycle, first) = Lifecycle::start(domain);
    let mut asked: Vec<Action> = Vec::new();
    asked.push(first);
    let mut i: usize = 0;
    proof {
        assert(all.take(0) =~= Seq::<EventView>::empty());
        assert(action_views(asked@) =~= seq![first@]);
    }
    while i < events.len()
        invariant
            i <= events.len(),
            all == event_views(events@),
            lifecycle@ == outcome(record, POLL_INTERVAL_SECS, all.take(i as int)),
            action_views(asked@) == trace(record, POLL_INTERVAL_SECS, all.take(i as int)),
        decreases events.len() - i,
    {
        let ghost before = action_views(asked@);
        let action = lifecycle.step(events[i].clone());
        asked.push(action);
        proof {
            assert(all.take(i + 1).drop_last() =~= all.take(i as int));
            assert(all.take(i + 1).last() == events[i as int]@);
            assert(action_views(asked@) =~= before.push(action@));
        }
        i += 1;
    }
    proof {
        assert(all.take(i as int) =~= all);
    }
    (lifecycle, asked)
}

} // verus!
